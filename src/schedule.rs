//! Limits that a program's code must stay within.
use vstd::prelude::*;

verus! {

/// Limits on a program's code. They may only be raised: lowering one would
/// break programs above the new limit when their code is re-instrumented.
#[derive(Clone, Debug, PartialEq, Eq)]
pub struct Limits {
    /// Maximum allowed stack height in number of elements; none disables the check.
    pub stack_height: Option<u32>,
    /// Maximum number of globals a module is allowed to declare.
    pub globals: u32,
    /// Maximum number of locals a function can have.
    pub locals: u32,
    /// Maximum numbers of parameters a function can have.
    pub parameters: u32,
    /// Maximum number of memory pages allowed for a program.
    pub memory_pages: u16,
    /// Maximum number of elements allowed in a table.
    pub table_size: u32,
    /// Maximum number of tables allowed for a program.
    pub table_number: u32,
    /// Maximum number of elements that can appear as immediate value to the br_table instruction.
    pub br_table_size: u32,
    /// The maximum length of a subject in bytes used for PRNG generation.
    pub subject_len: u32,
    /// The maximum nesting level of the call stack.
    pub call_depth: u32,
    /// The maximum size of a message payload in bytes.
    pub payload_len: u32,
    /// The maximum length of a program's instrumented code in bytes.
    pub code_len: u32,
    /// The maximum number of wasm data segments allowed for a program.
    pub data_segments_amount: u32,
}

} // verus!

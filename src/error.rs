//! Why an execution failed, and how each reason reads.
use vstd::prelude::*;

use crate::message::{ErrorReplyReason, SimpleExecutionError};

verus! {

/// Why a program's execution trapped.
#[derive(Clone, Copy, Debug, PartialEq, Eq)]
pub enum TrapExplanation {
    GasLimitExceeded,
    ForbiddenFunction,
    ProgramAllocOutOfBounds,
    Panic,
    StackLimitExceeded,
    Unknown,
}

/// Why an actor's execution failed, as the program's error reply reports it.
#[derive(Clone, Copy, Debug, PartialEq, Eq)]
pub enum ActorExecutionErrorReplyReason {
    /// The execution environment could not be set up.
    Environment,
    /// The program trapped.
    Trap(TrapExplanation),
}

/// An execution failure that the program is to blame for, with the gas
/// burned before it.
#[derive(Clone, Copy, Debug, PartialEq, Eq)]
pub struct ActorExecutionError {
    pub gas_burned: u64,
    pub reason: ActorExecutionErrorReplyReason,
}

/// An execution failure of the system itself; processing of the block
/// cannot go on.
#[derive(Clone, Copy, Debug, PartialEq, Eq)]
pub enum SystemExecutionError {
    PrepareMemory,
    IntoFrozenMemory,
    UndefinedTerminationReason,
}

/// What the executor reports when it produces no result.
#[derive(Clone, Copy, Debug, PartialEq, Eq)]
pub enum ExecutionError {
    Actor(ActorExecutionError),
    System(SystemExecutionError),
}

impl ActorExecutionErrorReplyReason {
    pub open spec fn spec_as_simple(self) -> SimpleExecutionError {
        match self {
            ActorExecutionErrorReplyReason::Environment => SimpleExecutionError::Unsupported,
            ActorExecutionErrorReplyReason::Trap(t) => match t {
                TrapExplanation::GasLimitExceeded => SimpleExecutionError::RanOutOfGas,
                TrapExplanation::ForbiddenFunction => SimpleExecutionError::BackendError,
                TrapExplanation::ProgramAllocOutOfBounds => SimpleExecutionError::MemoryOverflow,
                TrapExplanation::Panic => SimpleExecutionError::UserspacePanic,
                TrapExplanation::StackLimitExceeded => SimpleExecutionError::StackLimitExceeded,
                TrapExplanation::Unknown => SimpleExecutionError::UnreachableInstruction,
            },
        }
    }

    /// The short form of this reason.
    pub fn as_simple(&self) -> (r: SimpleExecutionError)
        ensures
            r == self.spec_as_simple(),
    {
        match self {
            ActorExecutionErrorReplyReason::Environment => SimpleExecutionError::Unsupported,
            ActorExecutionErrorReplyReason::Trap(t) => match t {
                TrapExplanation::GasLimitExceeded => SimpleExecutionError::RanOutOfGas,
                TrapExplanation::ForbiddenFunction => SimpleExecutionError::BackendError,
                TrapExplanation::ProgramAllocOutOfBounds => SimpleExecutionError::MemoryOverflow,
                TrapExplanation::Panic => SimpleExecutionError::UserspacePanic,
                TrapExplanation::StackLimitExceeded => SimpleExecutionError::StackLimitExceeded,
                TrapExplanation::Unknown => SimpleExecutionError::UnreachableInstruction,
            },
        }
    }

    pub open spec fn spec_text(self) -> &'static str {
        match self {
            ActorExecutionErrorReplyReason::Environment => "Environment error: <host error stripped>",
            ActorExecutionErrorReplyReason::Trap(t) => match t {
                TrapExplanation::GasLimitExceeded => "Not enough gas to continue execution",
                TrapExplanation::ForbiddenFunction => "Unable to call a forbidden function",
                TrapExplanation::ProgramAllocOutOfBounds =>
                    "Trying to allocate more wasm program memory than allowed",
                TrapExplanation::Panic => "Panic occurred",
                TrapExplanation::StackLimitExceeded => "Stack limit exceeded",
                TrapExplanation::Unknown => "Reason is unknown. Possibly `unreachable` instruction is occurred",
            },
        }
    }

    /// How this reason reads in an error reply.
    pub fn text(&self) -> (r: &'static str)
        ensures
            r == self.spec_text(),
    {
        match self {
            ActorExecutionErrorReplyReason::Environment => "Environment error: <host error stripped>",
            ActorExecutionErrorReplyReason::Trap(t) => match t {
                TrapExplanation::GasLimitExceeded => "Not enough gas to continue execution",
                TrapExplanation::ForbiddenFunction => "Unable to call a forbidden function",
                TrapExplanation::ProgramAllocOutOfBounds =>
                    "Trying to allocate more wasm program memory than allowed",
                TrapExplanation::Panic => "Panic occurred",
                TrapExplanation::StackLimitExceeded => "Stack limit exceeded",
                TrapExplanation::Unknown => "Reason is unknown. Possibly `unreachable` instruction is occurred",
            },
        }
    }
}

impl ErrorReplyReason {
    pub open spec fn spec_text(self) -> &'static str {
        match self {
            ErrorReplyReason::Execution(_) => "Execution error",
            ErrorReplyReason::FailedToCreateProgram => "Failed to create program",
            ErrorReplyReason::InactiveActor => "Message sent to an inactive actor",
            ErrorReplyReason::RemovedFromWaitlist => "Message removed from the waitlist",
            ErrorReplyReason::ReinstrumentationFailure => "Program re-instrumentation failed",
            ErrorReplyReason::Unsupported => "Unsupported reason of error reply",
        }
    }

    /// How this reason reads in an error reply.
    pub fn text(&self) -> (r: &'static str)
        ensures
            r == self.spec_text(),
    {
        match self {
            ErrorReplyReason::Execution(_) => "Execution error",
            ErrorReplyReason::FailedToCreateProgram => "Failed to create program",
            ErrorReplyReason::InactiveActor => "Message sent to an inactive actor",
            ErrorReplyReason::RemovedFromWaitlist => "Message removed from the waitlist",
            ErrorReplyReason::ReinstrumentationFailure => "Program re-instrumentation failed",
            ErrorReplyReason::Unsupported => "Unsupported reason of error reply",
        }
    }
}

} // verus!

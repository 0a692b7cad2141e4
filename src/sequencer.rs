//! Counters that the sequencer reports on its work.
use vstd::prelude::*;

verus! {

/// How many commitments the sequencer aggregated and submitted.
#[derive(Debug, Clone, Copy, Default)]
pub struct SequencerStatus {
    pub aggregated_commitments: u64,
    pub submitted_code_commitments: u64,
    pub submitted_block_commitments: u64,
}

} // verus!

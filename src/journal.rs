//! The journal: ordered directives that carry every effect of an execution
//! to the ledger.
use vstd::prelude::*;

use crate::ids::{CodeId, MessageId, ProgramId, ReservationId};
use crate::message::{ContextStore, MessageWaitedType, OutgoingDispatch, SignalCode, StoredDispatch};

verus! {

/// State of one gas reservation after an execution.
#[derive(Clone, Copy, Debug, PartialEq, Eq)]
pub enum GasReservationState {
    /// Made before this execution and still held.
    Exists { amount: u64, finish: u32 },
    /// Made by this execution.
    Created { amount: u64, duration: u32, finish: u32 },
    /// Released by this execution.
    Removed { expiration: u32 },
}

/// Terminal classification of a fully processed dispatch.
#[derive(Clone, Debug, PartialEq, Eq)]
pub enum DispatchOutcome {
    /// The program exited.
    Exit { program_id: ProgramId },
    /// Initialization succeeded.
    InitSuccess { program_id: ProgramId },
    /// Initialization failed.
    InitFailure { program_id: ProgramId, origin: ProgramId, reason: &'static str },
    /// A non-init execution failed.
    MessageTrap { program_id: ProgramId, trap: &'static str },
    /// A non-init execution succeeded.
    Success,
    /// The message was not executed.
    NoExecution,
}

/// One atomic directive to the ledger.
#[derive(Clone, Debug, PartialEq, Eq)]
#[allow(inconsistent_fields)]
pub enum JournalNote {
    /// The dispatch is fully processed.
    MessageDispatched { message_id: MessageId, source: ProgramId, outcome: DispatchOutcome },
    /// Gas was burned by the execution.
    GasBurned { message_id: MessageId, amount: u64 },
    /// The program exited; its balance goes to `value_destination`.
    ExitDispatch { id_exited: ProgramId, value_destination: ProgramId },
    /// The message leaves the queue.
    MessageConsumed(MessageId),
    /// A dispatch is to be queued after `delay` blocks, funded by
    /// `reservation` when there is one.
    SendDispatch {
        message_id: MessageId,
        dispatch: OutgoingDispatch,
        delay: u32,
        reservation: Option<ReservationId>,
    },
    /// The dispatch goes to the waitlist.
    WaitDispatch { dispatch: StoredDispatch, duration: Option<u32>, waited_type: MessageWaitedType },
    /// A waiting message is to be woken after `delay` blocks.
    WakeMessage { message_id: MessageId, program_id: ProgramId, awakening_id: MessageId, delay: u32 },
    /// A memory page of the program changed.
    UpdatePage { program_id: ProgramId, page_number: u32, data: Vec<u8> },
    /// The program's allocated pages changed.
    UpdateAllocations { program_id: ProgramId, allocations: Vec<u32> },
    /// Value moves from `from` to `to`, or back to `from` when `to` is none.
    SendValue { from: ProgramId, to: Option<ProgramId>, value: u128 },
    /// Programs were created from `code_id`, each by the message given with it.
    StoreNewPrograms { program_id: ProgramId, code_id: CodeId, candidates: Vec<(MessageId, ProgramId)> },
    /// Processing stops: the block's gas allowance is spent. The dispatch is
    /// to be processed again later.
    StopProcessing { dispatch: StoredDispatch, gas_burned: u64 },
    /// A gas reservation was made.
    ReserveGas {
        message_id: MessageId,
        reservation_id: ReservationId,
        program_id: ProgramId,
        amount: u64,
        duration: u32,
    },
    /// A gas reservation was released.
    UnreserveGas { reservation_id: ReservationId, program_id: ProgramId, expiration: u32 },
    /// The program's full reservation map after the execution.
    UpdateGasReservations { program_id: ProgramId, reserver: Vec<(ReservationId, GasReservationState)> },
    /// Gas is set aside for a signal.
    SystemReserveGas { message_id: MessageId, amount: u64 },
    /// Gas set aside for a signal is released.
    SystemUnreserveGas { message_id: MessageId },
    /// A signal is to be sent to `destination`.
    SendSignal { message_id: MessageId, destination: ProgramId, code: SignalCode },
    /// Gas is deposited for the reply to message `future_reply_to`.
    ReplyDeposit { message_id: MessageId, future_reply_to: MessageId, amount: u64 },
}

/// Gas set aside for a signal to the executing program.
#[derive(Clone, Copy, Debug, PartialEq, Eq)]
pub struct SystemReservationContext {
    /// Set aside by this execution.
    pub current_reservation: Option<u64>,
    /// Set aside by an earlier execution of the same dispatch, before it waited.
    pub previous_reservation: Option<u64>,
}

impl SystemReservationContext {
    pub open spec fn spec_has_any(&self) -> bool {
        self.current_reservation is Some || self.previous_reservation is Some
    }

    pub open spec fn spec_from_context(context: Option<ContextStore>) -> Self {
        SystemReservationContext {
            current_reservation: None,
            previous_reservation: match context {
                Some(c) => c.system_reservation,
                None => None,
            },
        }
    }

    /// The reservation context before an execution: only what an earlier
    /// execution of the dispatch set aside.
    pub fn from_dispatch(dispatch: &crate::message::IncomingDispatch) -> (r: Self)
        ensures
            r == Self::spec_from_context(dispatch.context),
    {
        let previous_reservation = match &dispatch.context {
            Some(c) => c.system_reservation,
            None => None,
        };
        SystemReservationContext { current_reservation: None, previous_reservation }
    }

    /// Whether any gas is set aside.
    pub fn has_any(&self) -> (r: bool)
        ensures
            r == self.spec_has_any(),
    {
        self.current_reservation.is_some() || self.previous_reservation.is_some()
    }
}

} // verus!

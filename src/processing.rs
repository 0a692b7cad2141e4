//! Builds the journal of one processed dispatch from the outcome of its execution.
use vstd::prelude::*;

use crate::error::{
    ActorExecutionErrorReplyReason, ExecutionError, SystemExecutionError, TrapExplanation,
};
use crate::ids::{CodeId, MessageId, ProgramId, ReservationId};
use crate::journal::{DispatchOutcome, GasReservationState, JournalNote, SystemReservationContext};
use crate::message::{
    ContextStore, Dispatch, DispatchKind, ErrorReplyReason, IncomingDispatch, MessageWaitedType,
    OutgoingDispatch, ReplyCode, ReplyMessage, SignalCode, SuccessReplyReason,
};

verus! {

/// Why a dispatch ended in error.
#[derive(Clone, Copy, Debug, PartialEq, Eq)]
pub enum ProcessErrorCase {
    /// The destination cannot execute messages.
    NonExecutable,
    /// The execution failed.
    ExecutionFailed(ActorExecutionErrorReplyReason),
    /// The program's code could not be re-instrumented.
    ReinstrumentationFailed,
}

impl ProcessErrorCase {
    pub open spec fn spec_reason(self) -> ErrorReplyReason {
        match self {
            ProcessErrorCase::NonExecutable => ErrorReplyReason::InactiveActor,
            ProcessErrorCase::ExecutionFailed(r) => ErrorReplyReason::Execution(r.spec_as_simple()),
            ProcessErrorCase::ReinstrumentationFailed => ErrorReplyReason::ReinstrumentationFailure,
        }
    }

    pub open spec fn spec_text(self) -> &'static str {
        match self {
            ProcessErrorCase::NonExecutable => ErrorReplyReason::InactiveActor.spec_text(),
            ProcessErrorCase::ExecutionFailed(r) => r.spec_text(),
            ProcessErrorCase::ReinstrumentationFailed =>
                ErrorReplyReason::ReinstrumentationFailure.spec_text(),
        }
    }

    /// The reason of the error reply for this case, and its text.
    pub fn to_reason_and_payload(&self) -> (r: (ErrorReplyReason, &'static str))
        ensures
            r.0 == self.spec_reason(),
            r.1 == self.spec_text(),
    {
        match self {
            ProcessErrorCase::NonExecutable => {
                let reason = ErrorReplyReason::InactiveActor;
                (reason, reason.text())
            },
            ProcessErrorCase::ExecutionFailed(r) => (ErrorReplyReason::Execution(r.as_simple()), r.text()),
            ProcessErrorCase::ReinstrumentationFailed => {
                let reason = ErrorReplyReason::ReinstrumentationFailure;
                (reason, reason.text())
            },
        }
    }
}

/// Outcome of an execution that went through, as the success builder takes it.
#[derive(Clone, Copy, Debug, PartialEq, Eq)]
pub enum SuccessfulDispatchResultKind {
    /// The program exited; its balance goes to the given actor.
    Exit(ProgramId),
    /// The program waits, for at most the given number of blocks when there is one.
    Wait(Option<u32>, MessageWaitedType),
    /// The execution finished.
    Success,
}

/// Outcome of an execution, as the executor reports it.
#[derive(Clone, Copy, Debug, PartialEq, Eq)]
pub enum DispatchResultKind {
    Success,
    Trap(TrapExplanation),
    Wait(Option<u32>, MessageWaitedType),
    Exit(ProgramId),
    GasAllowanceExceed,
}

/// Everything an execution left behind.
#[derive(Clone, Debug, PartialEq, Eq)]
pub struct DispatchResult {
    pub kind: DispatchResultKind,
    /// The dispatch that was executed.
    pub dispatch: IncomingDispatch,
    /// The program that executed it.
    pub program_id: ProgramId,
    /// The context to keep if the dispatch waits.
    pub context_store: ContextStore,
    /// Dispatches sent, each with its delay and funding reservation.
    pub generated_dispatches: Vec<(Dispatch, u32, Option<ReservationId>)>,
    /// Waiting messages to wake, each with a delay.
    pub awakening: Vec<(MessageId, u32)>,
    /// Gas deposits for replies to the messages sent.
    pub reply_deposits: Vec<(MessageId, u64)>,
    /// Programs created, by code: the creating message and the new program.
    pub program_candidates: Vec<(CodeId, Vec<(MessageId, ProgramId)>)>,
    pub gas_burned: u64,
    /// The program's reservation map after the execution, when it has one.
    pub gas_reserver: Option<Vec<(ReservationId, GasReservationState)>>,
    pub system_reservation_context: SystemReservationContext,
    /// Memory pages that changed, with their new data.
    pub page_update: Vec<(u32, Vec<u8>)>,
    /// The new set of allocated pages, when it changed.
    pub allocations: Option<Vec<u32>>,
    /// Whether the program replied itself.
    pub reply_sent: bool,
}

/// Fees and limits of the message context that an execution runs with.
#[derive(Clone, Copy, Debug, PartialEq, Eq)]
pub struct ContextSettings {
    pub sending_fee: u64,
    pub scheduled_sending_fee: u64,
    pub waiting_fee: u64,
    pub waking_fee: u64,
    pub reservation_fee: u64,
    pub outgoing_limit: u32,
    pub outgoing_bytes_limit: u32,
}

/// The cost of `n` storage writes, saturating at the largest `u64`.
pub open spec fn writes_cost(write_cost: u64, n: u64) -> u64 {
    if write_cost * n > u64::MAX {
        u64::MAX
    } else {
        (write_cost * n) as u64
    }
}

fn cost_for(write_cost: u64, n: u64) -> (r: u64)
    ensures
        r == writes_cost(write_cost, n),
{
    match write_cost.checked_mul(n) {
        Some(cost) => cost,
        None => u64::MAX,
    }
}

/// The message context settings for a block whose storage write costs
/// `write_cost`. Each fee pays for the writes that the operation will take:
/// sending, two (into the queue and out of it); scheduled sending, four (the
/// dispatch stash too); waiting, three (into and out of the waitlist, and
/// the reply sent afterwards); waking, two (out of the waitlist and into the
/// queue); a reservation, two.
pub fn message_context_settings(write_cost: u64, outgoing_limit: u32, outgoing_bytes_limit: u32) -> (r: ContextSettings)
    ensures
        r.sending_fee == writes_cost(write_cost, 2),
        r.scheduled_sending_fee == writes_cost(write_cost, 4),
        r.waiting_fee == writes_cost(write_cost, 3),
        r.waking_fee == writes_cost(write_cost, 2),
        r.reservation_fee == writes_cost(write_cost, 2),
        r.outgoing_limit == outgoing_limit,
        r.outgoing_bytes_limit == outgoing_bytes_limit,
{
    ContextSettings {
        sending_fee: cost_for(write_cost, 2),
        scheduled_sending_fee: cost_for(write_cost, 4),
        waiting_fee: cost_for(write_cost, 3),
        waking_fee: cost_for(write_cost, 2),
        reservation_fee: cost_for(write_cost, 2),
        outgoing_limit,
        outgoing_bytes_limit,
    }
}

// ---------------------------------------------------------------------------
// The journals, as sequences.

pub open spec fn burned_note(d: IncomingDispatch, gas_burned: u64) -> JournalNote {
    JournalNote::GasBurned { message_id: d.message.id, amount: gas_burned }
}

/// Value moves only on the first execution of a dispatch, and only when there is some.
pub open spec fn moves_value(d: IncomingDispatch) -> bool {
    d.context is None && d.message.value != 0
}

pub open spec fn refund_notes(d: IncomingDispatch) -> Seq<JournalNote> {
    if moves_value(d) {
        seq![JournalNote::SendValue { from: d.message.source, to: None, value: d.message.value }]
    } else {
        seq![]
    }
}

pub open spec fn credit_notes(d: IncomingDispatch, program_id: ProgramId) -> Seq<JournalNote> {
    if moves_value(d) {
        seq![JournalNote::SendValue { from: d.message.source, to: Some(program_id), value: d.message.value }]
    } else {
        seq![]
    }
}

pub open spec fn system_reserve_notes(d: IncomingDispatch, ctx: SystemReservationContext) -> Seq<JournalNote> {
    match ctx.current_reservation {
        Some(amount) => seq![JournalNote::SystemReserveGas { message_id: d.message.id, amount }],
        None => seq![],
    }
}

pub open spec fn system_unreserve_notes(d: IncomingDispatch, ctx: SystemReservationContext) -> Seq<JournalNote> {
    if ctx.spec_has_any() {
        seq![JournalNote::SystemUnreserveGas { message_id: d.message.id }]
    } else {
        seq![]
    }
}

/// A failed execution raises a signal to the program itself, when gas is set
/// aside for one and the dispatch is neither an error reply, a signal nor an init.
pub open spec fn signal_notes(
    d: IncomingDispatch,
    program_id: ProgramId,
    ctx: SystemReservationContext,
    case: ProcessErrorCase,
) -> Seq<JournalNote> {
    match case {
        ProcessErrorCase::ExecutionFailed(reason) => if ctx.spec_has_any() && !d.message.spec_is_error_reply()
            && d.kind != DispatchKind::Signal && d.kind != DispatchKind::Init {
            seq![JournalNote::SendSignal {
                message_id: d.message.id,
                destination: program_id,
                code: SignalCode::Execution(reason.spec_as_simple()),
            }]
        } else {
            seq![]
        },
        _ => seq![],
    }
}

/// Replies and signals get no reply of their own.
pub open spec fn gets_reply(d: IncomingDispatch) -> bool {
    !d.message.spec_is_reply() && d.kind != DispatchKind::Signal
}

pub open spec fn error_reply(d: IncomingDispatch, program_id: ProgramId, case: ProcessErrorCase) -> ReplyMessage {
    ReplyMessage {
        reply_to: d.message.id,
        source: program_id,
        destination: d.message.source,
        payload: case.spec_text(),
        value: 0,
        code: ReplyCode::Error(case.spec_reason()),
    }
}

pub open spec fn auto_reply(d: IncomingDispatch, program_id: ProgramId) -> ReplyMessage {
    ReplyMessage {
        reply_to: d.message.id,
        source: program_id,
        destination: d.message.source,
        payload: "",
        value: 0,
        code: ReplyCode::Success(SuccessReplyReason::Auto),
    }
}

pub open spec fn reply_note(d: IncomingDispatch, reply: ReplyMessage) -> JournalNote {
    JournalNote::SendDispatch {
        message_id: d.message.id,
        dispatch: OutgoingDispatch::SystemReply(reply),
        delay: 0,
        reservation: None,
    }
}

pub open spec fn error_reply_notes(d: IncomingDispatch, program_id: ProgramId, case: ProcessErrorCase) -> Seq<JournalNote> {
    if gets_reply(d) {
        seq![reply_note(d, error_reply(d, program_id, case))]
    } else {
        seq![]
    }
}

pub open spec fn error_outcome(d: IncomingDispatch, program_id: ProgramId, case: ProcessErrorCase) -> DispatchOutcome {
    match case {
        ProcessErrorCase::NonExecutable => DispatchOutcome::NoExecution,
        _ => if d.kind == DispatchKind::Init {
            DispatchOutcome::InitFailure { program_id, origin: d.message.source, reason: case.spec_text() }
        } else {
            DispatchOutcome::MessageTrap { program_id, trap: case.spec_text() }
        },
    }
}

pub open spec fn closing_notes(d: IncomingDispatch, outcome: DispatchOutcome) -> Seq<JournalNote> {
    seq![
        JournalNote::MessageDispatched { message_id: d.message.id, source: d.message.source, outcome },
        JournalNote::MessageConsumed(d.message.id),
    ]
}

/// The journal of a dispatch that ended in error.
pub open spec fn error_journal(
    d: IncomingDispatch,
    program_id: ProgramId,
    gas_burned: u64,
    ctx: SystemReservationContext,
    case: ProcessErrorCase,
) -> Seq<JournalNote> {
    seq![burned_note(d, gas_burned)]
        + refund_notes(d)
        + system_reserve_notes(d, ctx)
        + signal_notes(d, program_id, ctx, case)
        + system_unreserve_notes(d, ctx)
        + error_reply_notes(d, program_id, case)
        + closing_notes(d, error_outcome(d, program_id, case))
}

/// What one reservation entry leaves in the journal: its creation or its
/// removal; an entry that existed before and still does leaves nothing.
pub open spec fn reservation_note(
    message_id: MessageId,
    program_id: ProgramId,
    entry: (ReservationId, GasReservationState),
) -> Seq<JournalNote> {
    match entry.1 {
        GasReservationState::Exists { .. } => seq![],
        GasReservationState::Created { amount, duration, .. } => seq![JournalNote::ReserveGas {
            message_id,
            reservation_id: entry.0,
            program_id,
            amount,
            duration,
        }],
        GasReservationState::Removed { expiration } => seq![JournalNote::UnreserveGas {
            reservation_id: entry.0,
            program_id,
            expiration,
        }],
    }
}

pub open spec fn reservation_notes(
    message_id: MessageId,
    program_id: ProgramId,
    entries: Seq<(ReservationId, GasReservationState)>,
) -> Seq<JournalNote>
    decreases entries.len(),
{
    if entries.len() == 0 {
        seq![]
    } else {
        reservation_notes(message_id, program_id, entries.drop_last())
            + reservation_note(message_id, program_id, entries.last())
    }
}

/// The reservation changes, then the full map, when the program has a map.
pub open spec fn reserver_notes(
    d: IncomingDispatch,
    program_id: ProgramId,
    reserver: Option<Vec<(ReservationId, GasReservationState)>>,
) -> Seq<JournalNote> {
    match reserver {
        Some(map) => reservation_notes(d.message.id, program_id, map@)
            + seq![JournalNote::UpdateGasReservations { program_id, reserver: map }],
        None => seq![],
    }
}

pub open spec fn candidate_notes(
    program_id: ProgramId,
    candidates: Seq<(CodeId, Vec<(MessageId, ProgramId)>)>,
) -> Seq<JournalNote> {
    candidates.map_values(
        |c: (CodeId, Vec<(MessageId, ProgramId)>)|
            JournalNote::StoreNewPrograms { program_id, code_id: c.0, candidates: c.1 },
    )
}

/// A finished, non-reply, non-signal execution is answered automatically,
/// unless the program replied itself.
pub open spec fn owes_auto_reply(kind: SuccessfulDispatchResultKind, d: IncomingDispatch, reply_sent: bool) -> bool {
    kind is Success && !reply_sent && gets_reply(d)
}

pub open spec fn auto_reply_notes(
    kind: SuccessfulDispatchResultKind,
    d: IncomingDispatch,
    program_id: ProgramId,
    reply_sent: bool,
) -> Seq<JournalNote> {
    if owes_auto_reply(kind, d, reply_sent) {
        seq![reply_note(d, auto_reply(d, program_id))]
    } else {
        seq![]
    }
}

pub open spec fn deposit_notes(message_id: MessageId, deposits: Seq<(MessageId, u64)>) -> Seq<JournalNote> {
    deposits.map_values(
        |p: (MessageId, u64)| JournalNote::ReplyDeposit { message_id, future_reply_to: p.0, amount: p.1 },
    )
}

pub open spec fn dispatch_notes(
    message_id: MessageId,
    dispatches: Seq<(Dispatch, u32, Option<ReservationId>)>,
) -> Seq<JournalNote> {
    dispatches.map_values(
        |g: (Dispatch, u32, Option<ReservationId>)| JournalNote::SendDispatch {
            message_id,
            dispatch: OutgoingDispatch::Program(g.0),
            delay: g.1,
            reservation: g.2,
        },
    )
}

pub open spec fn wake_notes(message_id: MessageId, program_id: ProgramId, awakening: Seq<(MessageId, u32)>) -> Seq<JournalNote> {
    awakening.map_values(
        |w: (MessageId, u32)| JournalNote::WakeMessage { message_id, program_id, awakening_id: w.0, delay: w.1 },
    )
}

pub open spec fn page_notes(program_id: ProgramId, pages: Seq<(u32, Vec<u8>)>) -> Seq<JournalNote> {
    pages.map_values(
        |p: (u32, Vec<u8>)| JournalNote::UpdatePage { program_id, page_number: p.0, data: p.1 },
    )
}

pub open spec fn allocation_notes(program_id: ProgramId, allocations: Option<Vec<u32>>) -> Seq<JournalNote> {
    match allocations {
        Some(allocations) => seq![JournalNote::UpdateAllocations { program_id, allocations }],
        None => seq![],
    }
}

/// The notes common to every outcome of an execution that went through:
/// everything up to and including the allocations.
pub open spec fn effect_notes(kind: SuccessfulDispatchResultKind, r: DispatchResult) -> Seq<JournalNote> {
    let d = r.dispatch;
    let pid = r.program_id;
    seq![burned_note(d, r.gas_burned)]
        + reserver_notes(d, pid, r.gas_reserver)
        + system_reserve_notes(d, r.system_reservation_context)
        + credit_notes(d, pid)
        + candidate_notes(pid, r.program_candidates@)
        + auto_reply_notes(kind, d, pid, r.reply_sent)
        + deposit_notes(d.message.id, r.reply_deposits@)
        + dispatch_notes(d.message.id, r.generated_dispatches@)
        + wake_notes(d.message.id, pid, r.awakening@)
        + page_notes(pid, r.page_update@)
        + allocation_notes(pid, r.allocations)
}

/// What ends the journal: a waiting dispatch goes to the waitlist with its
/// context and is not consumed; otherwise the gas set aside for a signal is
/// released and the dispatch is consumed.
pub open spec fn success_tail(kind: SuccessfulDispatchResultKind, r: DispatchResult) -> Seq<JournalNote> {
    let d = r.dispatch;
    let pid = r.program_id;
    match kind {
        SuccessfulDispatchResultKind::Wait(duration, waited_type) => seq![JournalNote::WaitDispatch {
            dispatch: d.spec_into_stored(pid, Some(r.context_store)),
            duration,
            waited_type,
        }],
        SuccessfulDispatchResultKind::Success => system_unreserve_notes(d, r.system_reservation_context)
            + closing_notes(
            d,
            if d.kind == DispatchKind::Init {
                DispatchOutcome::InitSuccess { program_id: pid }
            } else {
                DispatchOutcome::Success
            },
        ),
        SuccessfulDispatchResultKind::Exit(value_destination) => seq![JournalNote::ExitDispatch {
            id_exited: pid,
            value_destination,
        }] + system_unreserve_notes(d, r.system_reservation_context) + closing_notes(
            d,
            DispatchOutcome::Exit { program_id: pid },
        ),
    }
}

/// The journal of an execution that went through.
pub open spec fn success_journal(kind: SuccessfulDispatchResultKind, r: DispatchResult) -> Seq<JournalNote> {
    effect_notes(kind, r) + success_tail(kind, r)
}

/// The journal of a dispatch stopped by the end of the block's gas allowance.
pub open spec fn allowance_journal(d: IncomingDispatch, program_id: ProgramId, gas_burned: u64) -> Seq<JournalNote> {
    seq![JournalNote::StopProcessing { dispatch: d.spec_into_stored(program_id, d.context), gas_burned }]
}

// ---------------------------------------------------------------------------
// The builders.

/// Appends the refund of the dispatch's value to its sender, when value moves.
fn push_refund(journal: &mut Vec<JournalNote>, dispatch: &IncomingDispatch)
    ensures
        final(journal)@ == old(journal)@ + refund_notes(*dispatch),
{
    // A resumed dispatch moved its value in the execution that waited.
    if dispatch.context.is_none() && dispatch.message.value != 0 {
        journal.push(JournalNote::SendValue {
            from: dispatch.message.source,
            to: None,
            value: dispatch.message.value,
        });
    }
    assert(journal@ =~= old(journal)@ + refund_notes(*dispatch));
}

/// Appends the reservation of gas for a signal, when this execution set some aside.
fn push_system_reserve(journal: &mut Vec<JournalNote>, dispatch: &IncomingDispatch, ctx: SystemReservationContext)
    ensures
        final(journal)@ == old(journal)@ + system_reserve_notes(*dispatch, ctx),
{
    if let Some(amount) = ctx.current_reservation {
        journal.push(JournalNote::SystemReserveGas { message_id: dispatch.message.id, amount });
    }
    assert(journal@ =~= old(journal)@ + system_reserve_notes(*dispatch, ctx));
}

/// Appends the release of gas set aside for a signal, when there is any.
fn push_system_unreserve(journal: &mut Vec<JournalNote>, dispatch: &IncomingDispatch, ctx: SystemReservationContext)
    ensures
        final(journal)@ == old(journal)@ + system_unreserve_notes(*dispatch, ctx),
{
    if ctx.has_any() {
        journal.push(JournalNote::SystemUnreserveGas { message_id: dispatch.message.id });
    }
    assert(journal@ =~= old(journal)@ + system_unreserve_notes(*dispatch, ctx));
}

/// Appends the signal that tells a program of its own failure, when it is owed.
fn push_signal(
    journal: &mut Vec<JournalNote>,
    dispatch: &IncomingDispatch,
    program_id: ProgramId,
    ctx: SystemReservationContext,
    case: ProcessErrorCase,
)
    ensures
        final(journal)@ == old(journal)@ + signal_notes(*dispatch, program_id, ctx, case),
{
    if let ProcessErrorCase::ExecutionFailed(reason) = case {
        if ctx.has_any() && !dispatch.message.is_error_reply()
            && !matches!(dispatch.kind, DispatchKind::Signal | DispatchKind::Init)
        {
            journal.push(JournalNote::SendSignal {
                message_id: dispatch.message.id,
                destination: program_id,
                code: SignalCode::Execution(reason.as_simple()),
            });
        }
    }
    assert(journal@ =~= old(journal)@ + signal_notes(*dispatch, program_id, ctx, case));
}

/// Appends the error reply, unless the dispatch is a reply or a signal.
fn push_error_reply(
    journal: &mut Vec<JournalNote>,
    dispatch: &IncomingDispatch,
    program_id: ProgramId,
    case: ProcessErrorCase,
)
    ensures
        final(journal)@ == old(journal)@ + error_reply_notes(*dispatch, program_id, case),
{
    if !dispatch.message.is_reply() && !matches!(dispatch.kind, DispatchKind::Signal) {
        let (reason, text) = case.to_reason_and_payload();
        let reply = ReplyMessage {
            reply_to: dispatch.message.id,
            source: program_id,
            destination: dispatch.message.source,
            payload: text,
            value: 0,
            code: ReplyCode::Error(reason),
        };
        journal.push(JournalNote::SendDispatch {
            message_id: dispatch.message.id,
            dispatch: OutgoingDispatch::SystemReply(reply),
            delay: 0,
            reservation: None,
        });
    }
    assert(journal@ =~= old(journal)@ + error_reply_notes(*dispatch, program_id, case));
}

/// Appends the final two notes: the outcome, and the message leaving the queue.
fn push_closing(journal: &mut Vec<JournalNote>, dispatch: &IncomingDispatch, outcome: DispatchOutcome)
    ensures
        final(journal)@ == old(journal)@ + closing_notes(*dispatch, outcome),
{
    let message_id = dispatch.message.id;
    journal.push(JournalNote::MessageDispatched { message_id, source: dispatch.message.source, outcome });
    journal.push(JournalNote::MessageConsumed(message_id));
    assert(journal@ =~= old(journal)@ + closing_notes(*dispatch, outcome));
}

fn error_outcome_of(dispatch: &IncomingDispatch, program_id: ProgramId, case: ProcessErrorCase) -> (r: DispatchOutcome)
    ensures
        r == error_outcome(*dispatch, program_id, case),
{
    match case {
        ProcessErrorCase::NonExecutable => DispatchOutcome::NoExecution,
        _ => {
            let (_, text) = case.to_reason_and_payload();
            match dispatch.kind {
                DispatchKind::Init => DispatchOutcome::InitFailure {
                    program_id,
                    origin: dispatch.message.source,
                    reason: text,
                },
                _ => DispatchOutcome::MessageTrap { program_id, trap: text },
            }
        },
    }
}

fn error_journal_of(
    dispatch: IncomingDispatch,
    program_id: ProgramId,
    gas_burned: u64,
    system_reservation_ctx: SystemReservationContext,
    case: ProcessErrorCase,
) -> (journal: Vec<JournalNote>)
    ensures
        journal@ == error_journal(dispatch, program_id, gas_burned, system_reservation_ctx, case),
{
    let mut journal: Vec<JournalNote> = Vec::new();
    journal.push(JournalNote::GasBurned { message_id: dispatch.message.id, amount: gas_burned });
    push_refund(&mut journal, &dispatch);
    push_system_reserve(&mut journal, &dispatch, system_reservation_ctx);
    push_signal(&mut journal, &dispatch, program_id, system_reservation_ctx, case);
    push_system_unreserve(&mut journal, &dispatch, system_reservation_ctx);
    push_error_reply(&mut journal, &dispatch, program_id, case);
    let outcome = error_outcome_of(&dispatch, program_id, case);
    push_closing(&mut journal, &dispatch, outcome);
    journal
}

/// The journal of a dispatch whose execution failed.
pub fn process_execution_error(
    dispatch: IncomingDispatch,
    program_id: ProgramId,
    gas_burned: u64,
    system_reservation_ctx: SystemReservationContext,
    err: ActorExecutionErrorReplyReason,
) -> (journal: Vec<JournalNote>)
    ensures
        journal@ == error_journal(
            dispatch,
            program_id,
            gas_burned,
            system_reservation_ctx,
            ProcessErrorCase::ExecutionFailed(err),
        ),
{
    error_journal_of(dispatch, program_id, gas_burned, system_reservation_ctx, ProcessErrorCase::ExecutionFailed(err))
}

/// A dispatch charged for its program, whose code is to be re-instrumented.
#[derive(Clone, Debug, PartialEq, Eq)]
pub struct ContextChargedForInstrumentation {
    pub dispatch: IncomingDispatch,
    pub destination_id: ProgramId,
    /// Gas burned by the charges so far.
    pub gas_burned: u64,
}

/// A dispatch charged for the lookup of its destination.
#[derive(Clone, Debug, PartialEq, Eq)]
pub struct ContextChargedForProgram {
    pub dispatch: IncomingDispatch,
    pub destination_id: ProgramId,
    /// Gas burned by the charges so far.
    pub gas_burned: u64,
}

/// The journal of a dispatch whose program's code could not be re-instrumented.
pub fn process_reinstrumentation_error(context: ContextChargedForInstrumentation) -> (journal: Vec<JournalNote>)
    ensures
        journal@ == error_journal(
            context.dispatch,
            context.destination_id,
            context.gas_burned,
            SystemReservationContext::spec_from_context(context.dispatch.context),
            ProcessErrorCase::ReinstrumentationFailed,
        ),
{
    let system_reservation_ctx = SystemReservationContext::from_dispatch(&context.dispatch);
    error_journal_of(
        context.dispatch,
        context.destination_id,
        context.gas_burned,
        system_reservation_ctx,
        ProcessErrorCase::ReinstrumentationFailed,
    )
}

/// The journal of a dispatch to a destination that cannot execute it.
pub fn process_non_executable(context: ContextChargedForProgram) -> (journal: Vec<JournalNote>)
    ensures
        journal@ == error_journal(
            context.dispatch,
            context.destination_id,
            context.gas_burned,
            SystemReservationContext::spec_from_context(context.dispatch.context),
            ProcessErrorCase::NonExecutable,
        ),
{
    let system_reservation_ctx = SystemReservationContext::from_dispatch(&context.dispatch);
    error_journal_of(
        context.dispatch,
        context.destination_id,
        context.gas_burned,
        system_reservation_ctx,
        ProcessErrorCase::NonExecutable,
    )
}

/// Appends the reservation changes and the full map, when there is a map.
fn push_reserver(
    journal: &mut Vec<JournalNote>,
    dispatch: &IncomingDispatch,
    program_id: ProgramId,
    gas_reserver: Option<Vec<(ReservationId, GasReservationState)>>,
)
    ensures
        final(journal)@ == old(journal)@ + reserver_notes(*dispatch, program_id, gas_reserver),
{
    if let Some(map) = gas_reserver {
        let message_id = dispatch.message.id;
        let ghost start = journal@;
        let mut i: usize = 0;
        while i < map.len()
            invariant
                i <= map@.len(),
                message_id == dispatch.message.id,
                journal@ == start + reservation_notes(message_id, program_id, map@.take(i as int)),
            decreases map@.len() - i,
        {
            let (reservation_id, state) = map[i];
            proof {
                assert(map@.take(i + 1).drop_last() =~= map@.take(i as int));
            }
            match state {
                GasReservationState::Exists { .. } => {},
                GasReservationState::Created { amount, duration, .. } => {
                    journal.push(JournalNote::ReserveGas {
                        message_id,
                        reservation_id,
                        program_id,
                        amount,
                        duration,
                    });
                },
                GasReservationState::Removed { expiration } => {
                    journal.push(JournalNote::UnreserveGas { reservation_id, program_id, expiration });
                },
            }
            i = i + 1;
            assert(journal@ =~= start + reservation_notes(message_id, program_id, map@.take(i as int)));
        }
        assert(map@.take(map@.len() as int) =~= map@);
        journal.push(JournalNote::UpdateGasReservations { program_id, reserver: map });
    }
    assert(journal@ =~= old(journal)@ + reserver_notes(*dispatch, program_id, gas_reserver));
}

/// Appends the transfer of the dispatch's value to the program, when value moves.
fn push_credit(journal: &mut Vec<JournalNote>, dispatch: &IncomingDispatch, program_id: ProgramId)
    ensures
        final(journal)@ == old(journal)@ + credit_notes(*dispatch, program_id),
{
    // A resumed dispatch moved its value in the execution that waited.
    if dispatch.context.is_none() && dispatch.message.value != 0 {
        journal.push(JournalNote::SendValue {
            from: dispatch.message.source,
            to: Some(program_id),
            value: dispatch.message.value,
        });
    }
    assert(journal@ =~= old(journal)@ + credit_notes(*dispatch, program_id));
}

/// Appends the programs created by the execution, code by code.
fn push_candidates(
    journal: &mut Vec<JournalNote>,
    program_id: ProgramId,
    program_candidates: Vec<(CodeId, Vec<(MessageId, ProgramId)>)>,
)
    ensures
        final(journal)@ == old(journal)@ + candidate_notes(program_id, program_candidates@),
{
    let ghost all = program_candidates@;
    let ghost start = journal@;
    for entry in it: program_candidates.into_iter()
        invariant
            it.seq() == all,
            journal@ == start + candidate_notes(program_id, all.take(it.index() as int)),
    {
        let (code_id, candidates) = entry;
        journal.push(JournalNote::StoreNewPrograms { program_id, code_id, candidates });
        proof {
            assert(all.take(it.index() + 1) =~= all.take(it.index() as int).push(all[it.index() as int]));
            assert(journal@ =~= start + candidate_notes(program_id, all.take(it.index() + 1)));
        }
    }
    assert(all.take(all.len() as int) =~= all);
}

/// Appends the automatic reply, when one is owed.
fn push_auto_reply(
    journal: &mut Vec<JournalNote>,
    kind: SuccessfulDispatchResultKind,
    dispatch: &IncomingDispatch,
    program_id: ProgramId,
    reply_sent: bool,
)
    ensures
        final(journal)@ == old(journal)@ + auto_reply_notes(kind, *dispatch, program_id, reply_sent),
{
    if matches!(kind, SuccessfulDispatchResultKind::Success) && !reply_sent && !dispatch.message.is_reply()
        && !matches!(dispatch.kind, DispatchKind::Signal)
    {
        let reply = ReplyMessage {
            reply_to: dispatch.message.id,
            source: program_id,
            destination: dispatch.message.source,
            payload: "",
            value: 0,
            code: ReplyCode::Success(SuccessReplyReason::Auto),
        };
        journal.push(JournalNote::SendDispatch {
            message_id: dispatch.message.id,
            dispatch: OutgoingDispatch::SystemReply(reply),
            delay: 0,
            reservation: None,
        });
    }
    assert(journal@ =~= old(journal)@ + auto_reply_notes(kind, *dispatch, program_id, reply_sent));
}

/// Appends the gas deposits for future replies.
fn push_deposits(journal: &mut Vec<JournalNote>, message_id: MessageId, reply_deposits: Vec<(MessageId, u64)>)
    ensures
        final(journal)@ == old(journal)@ + deposit_notes(message_id, reply_deposits@),
{
    let ghost all = reply_deposits@;
    let ghost start = journal@;
    for entry in it: reply_deposits.into_iter()
        invariant
            it.seq() == all,
            journal@ == start + deposit_notes(message_id, all.take(it.index() as int)),
    {
        let (future_reply_to, amount) = entry;
        journal.push(JournalNote::ReplyDeposit { message_id, future_reply_to, amount });
        proof {
            assert(all.take(it.index() + 1) =~= all.take(it.index() as int).push(all[it.index() as int]));
            assert(journal@ =~= start + deposit_notes(message_id, all.take(it.index() + 1)));
        }
    }
    assert(all.take(all.len() as int) =~= all);
}

/// Appends the dispatches sent by the program, each with its delay and reservation.
fn push_dispatches(
    journal: &mut Vec<JournalNote>,
    message_id: MessageId,
    generated_dispatches: Vec<(Dispatch, u32, Option<ReservationId>)>,
)
    ensures
        final(journal)@ == old(journal)@ + dispatch_notes(message_id, generated_dispatches@),
{
    let ghost all = generated_dispatches@;
    let ghost start = journal@;
    for entry in it: generated_dispatches.into_iter()
        invariant
            it.seq() == all,
            journal@ == start + dispatch_notes(message_id, all.take(it.index() as int)),
    {
        let (dispatch, delay, reservation) = entry;
        journal.push(JournalNote::SendDispatch {
            message_id,
            dispatch: OutgoingDispatch::Program(dispatch),
            delay,
            reservation,
        });
        proof {
            assert(all.take(it.index() + 1) =~= all.take(it.index() as int).push(all[it.index() as int]));
            assert(journal@ =~= start + dispatch_notes(message_id, all.take(it.index() + 1)));
        }
    }
    assert(all.take(all.len() as int) =~= all);
}

/// Appends the waiting messages to wake.
fn push_wakes(
    journal: &mut Vec<JournalNote>,
    message_id: MessageId,
    program_id: ProgramId,
    awakening: Vec<(MessageId, u32)>,
)
    ensures
        final(journal)@ == old(journal)@ + wake_notes(message_id, program_id, awakening@),
{
    let ghost all = awakening@;
    let ghost start = journal@;
    for entry in it: awakening.into_iter()
        invariant
            it.seq() == all,
            journal@ == start + wake_notes(message_id, program_id, all.take(it.index() as int)),
    {
        let (awakening_id, delay) = entry;
        journal.push(JournalNote::WakeMessage { message_id, program_id, awakening_id, delay });
        proof {
            assert(all.take(it.index() + 1) =~= all.take(it.index() as int).push(all[it.index() as int]));
            assert(journal@ =~= start + wake_notes(message_id, program_id, all.take(it.index() + 1)));
        }
    }
    assert(all.take(all.len() as int) =~= all);
}

/// Appends the memory pages that changed.
fn push_pages(journal: &mut Vec<JournalNote>, program_id: ProgramId, page_update: Vec<(u32, Vec<u8>)>)
    ensures
        final(journal)@ == old(journal)@ + page_notes(program_id, page_update@),
{
    let ghost all = page_update@;
    let ghost start = journal@;
    for entry in it: page_update.into_iter()
        invariant
            it.seq() == all,
            journal@ == start + page_notes(program_id, all.take(it.index() as int)),
    {
        let (page_number, data) = entry;
        journal.push(JournalNote::UpdatePage { program_id, page_number, data });
        proof {
            assert(all.take(it.index() + 1) =~= all.take(it.index() as int).push(all[it.index() as int]));
            assert(journal@ =~= start + page_notes(program_id, all.take(it.index() + 1)));
        }
    }
    assert(all.take(all.len() as int) =~= all);
}

/// Appends the new allocations, when they changed.
fn push_allocations(journal: &mut Vec<JournalNote>, program_id: ProgramId, allocations: Option<Vec<u32>>)
    ensures
        final(journal)@ == old(journal)@ + allocation_notes(program_id, allocations),
{
    if let Some(allocations) = allocations {
        journal.push(JournalNote::UpdateAllocations { program_id, allocations });
    }
    assert(journal@ =~= old(journal)@ + allocation_notes(program_id, allocations));
}

/// The journal of an execution that went through: it finished, it waits,
/// or the program exited.
pub fn process_success(kind: SuccessfulDispatchResultKind, dispatch_result: DispatchResult) -> (journal: Vec<JournalNote>)
    ensures
        journal@ == success_journal(kind, dispatch_result),
{
    let ghost r = dispatch_result;
    let DispatchResult {
        dispatch,
        generated_dispatches,
        awakening,
        program_candidates,
        gas_burned,
        gas_reserver,
        system_reservation_context,
        page_update,
        program_id,
        context_store,
        allocations,
        reply_deposits,
        reply_sent,
        ..
    } = dispatch_result;

    let message_id = dispatch.message.id;
    let mut journal: Vec<JournalNote> = Vec::new();
    journal.push(JournalNote::GasBurned { message_id, amount: gas_burned });
    push_reserver(&mut journal, &dispatch, program_id, gas_reserver);
    push_system_reserve(&mut journal, &dispatch, system_reservation_context);
    push_credit(&mut journal, &dispatch, program_id);
    // Programs created here must exist before any dispatch sent to them.
    push_candidates(&mut journal, program_id, program_candidates);
    push_auto_reply(&mut journal, kind, &dispatch, program_id, reply_sent);
    push_deposits(&mut journal, message_id, reply_deposits);
    push_dispatches(&mut journal, message_id, generated_dispatches);
    push_wakes(&mut journal, message_id, program_id, awakening);
    push_pages(&mut journal, program_id, page_update);
    push_allocations(&mut journal, program_id, allocations);
    assert(journal@ =~= effect_notes(kind, r));
    let ghost effects = journal@;

    let outcome = match kind {
        SuccessfulDispatchResultKind::Wait(duration, waited_type) => {
            let stored = dispatch.into_stored(program_id, Some(context_store));
            journal.push(JournalNote::WaitDispatch { dispatch: stored, duration, waited_type });
            assert(journal@ =~= effects + success_tail(kind, r));
            return journal;
        },
        SuccessfulDispatchResultKind::Success => match dispatch.kind {
            DispatchKind::Init => DispatchOutcome::InitSuccess { program_id },
            _ => DispatchOutcome::Success,
        },
        SuccessfulDispatchResultKind::Exit(value_destination) => {
            journal.push(JournalNote::ExitDispatch { id_exited: program_id, value_destination });
            DispatchOutcome::Exit { program_id }
        },
    };
    push_system_unreserve(&mut journal, &dispatch, system_reservation_context);
    push_closing(&mut journal, &dispatch, outcome);
    assert(journal@ =~= effects + success_tail(kind, r));
    journal
}

/// The journal of a dispatch stopped because the block's gas allowance ran
/// out: the dispatch, context included, is kept to be processed again.
pub fn process_allowance_exceed(
    dispatch: IncomingDispatch,
    program_id: ProgramId,
    gas_burned: u64,
) -> (journal: Vec<JournalNote>)
    ensures
        journal@ == allowance_journal(dispatch, program_id, gas_burned),
{
    let mut journal: Vec<JournalNote> = Vec::with_capacity(1);
    let IncomingDispatch { kind, message, context } = dispatch;
    let stored = IncomingDispatch { kind, message, context: None }.into_stored(program_id, context);
    journal.push(JournalNote::StopProcessing { dispatch: stored, gas_burned });
    assert(journal@ =~= allowance_journal(dispatch, program_id, gas_burned));
    journal
}

/// The journal that the outcome of an execution calls for, or the system
/// error that stops the block.
pub open spec fn process_journal(
    dispatch: IncomingDispatch,
    program_id: ProgramId,
    exec_result: Result<DispatchResult, ExecutionError>,
) -> Result<Seq<JournalNote>, SystemExecutionError> {
    match exec_result {
        Ok(res) => Ok(
            match res.kind {
                DispatchResultKind::Trap(reason) => error_journal(
                    res.dispatch,
                    program_id,
                    res.gas_burned,
                    res.system_reservation_context,
                    ProcessErrorCase::ExecutionFailed(ActorExecutionErrorReplyReason::Trap(reason)),
                ),
                DispatchResultKind::Success => success_journal(SuccessfulDispatchResultKind::Success, res),
                DispatchResultKind::Wait(duration, waited_type) => success_journal(
                    SuccessfulDispatchResultKind::Wait(duration, waited_type),
                    res,
                ),
                DispatchResultKind::Exit(value_destination) => success_journal(
                    SuccessfulDispatchResultKind::Exit(value_destination),
                    res,
                ),
                DispatchResultKind::GasAllowanceExceed => allowance_journal(dispatch, program_id, res.gas_burned),
            },
        ),
        Err(ExecutionError::Actor(e)) => Ok(
            error_journal(
                dispatch,
                program_id,
                e.gas_burned,
                SystemReservationContext::spec_from_context(dispatch.context),
                ProcessErrorCase::ExecutionFailed(e.reason),
            ),
        ),
        Err(ExecutionError::System(e)) => Err(e),
    }
}

/// Turns the executor's report on `dispatch`, executed by `program_id`, into
/// its journal. Every outcome of the program, a trap included, gives a
/// journal; only a failure of the system itself is returned as an error.
pub fn process(
    dispatch: IncomingDispatch,
    program_id: ProgramId,
    exec_result: Result<DispatchResult, ExecutionError>,
) -> (r: Result<Vec<JournalNote>, SystemExecutionError>)
    ensures
        match r {
            Ok(journal) => process_journal(dispatch, program_id, exec_result) == Ok::<Seq<JournalNote>, SystemExecutionError>(journal@),
            Err(e) => process_journal(dispatch, program_id, exec_result) == Err::<Seq<JournalNote>, SystemExecutionError>(e),
        },
{
    // Gas set aside before the execution, in case the executor reports an actor error.
    let system_reservation_ctx = SystemReservationContext::from_dispatch(&dispatch);

    match exec_result {
        Ok(res) => Ok(
            match res.kind {
                DispatchResultKind::Trap(reason) => {
                    let gas_burned = res.gas_burned;
                    let ctx = res.system_reservation_context;
                    process_execution_error(
                        res.dispatch,
                        program_id,
                        gas_burned,
                        ctx,
                        ActorExecutionErrorReplyReason::Trap(reason),
                    )
                },
                DispatchResultKind::Success => process_success(SuccessfulDispatchResultKind::Success, res),
                DispatchResultKind::Wait(duration, waited_type) => process_success(
                    SuccessfulDispatchResultKind::Wait(duration, waited_type),
                    res,
                ),
                DispatchResultKind::Exit(value_destination) => process_success(
                    SuccessfulDispatchResultKind::Exit(value_destination),
                    res,
                ),
                DispatchResultKind::GasAllowanceExceed => process_allowance_exceed(
                    dispatch,
                    program_id,
                    res.gas_burned,
                ),
            },
        ),
        Err(ExecutionError::Actor(e)) => Ok(
            process_execution_error(dispatch, program_id, e.gas_burned, system_reservation_ctx, e.reason),
        ),
        Err(ExecutionError::System(e)) => Err(e),
    }
}

} // verus!

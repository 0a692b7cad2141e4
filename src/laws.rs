//! What holds of every journal: proved over the journals that the builders'
//! contracts give.
use vstd::prelude::*;

use crate::error::{ActorExecutionErrorReplyReason, ExecutionError};
use crate::ids::{MessageId, ProgramId, ReservationId};
use crate::journal::{GasReservationState, JournalNote, SystemReservationContext};
use crate::message::{IncomingDispatch, OutgoingDispatch, ReplyCode, SuccessReplyReason};
use crate::processing::{
    allocation_notes, allowance_journal, auto_reply_notes, burned_note, candidate_notes, credit_notes,
    deposit_notes, dispatch_notes, effect_notes, error_journal, error_outcome, error_reply_notes,
    refund_notes, signal_notes, system_unreserve_notes, closing_notes, gets_reply, moves_value, owes_auto_reply, page_notes,
    process_journal, reservation_notes, reserver_notes, success_journal, success_tail,
    system_reserve_notes, wake_notes, DispatchResult, DispatchResultKind, ProcessErrorCase,
    SuccessfulDispatchResultKind,
};

verus! {

/// How many notes of `s` satisfy `p`.
pub open spec fn count_where(s: Seq<JournalNote>, p: spec_fn(JournalNote) -> bool) -> nat
    decreases s.len(),
{
    if s.len() == 0 {
        0
    } else {
        count_where(s.drop_last(), p) + if p(s.last()) { 1nat } else { 0nat }
    }
}

pub open spec fn is_send_value(n: JournalNote) -> bool {
    n is SendValue
}

pub open spec fn is_system_reserve(n: JournalNote) -> bool {
    n is SystemReserveGas
}

pub open spec fn is_system_unreserve(n: JournalNote) -> bool {
    n is SystemUnreserveGas
}

pub open spec fn is_dispatched(n: JournalNote) -> bool {
    n is MessageDispatched
}

pub open spec fn is_consumed(n: JournalNote) -> bool {
    n is MessageConsumed
}

/// A note that queues the automatic reply.
pub open spec fn is_auto_reply(n: JournalNote) -> bool {
    match n {
        JournalNote::SendDispatch { dispatch: OutgoingDispatch::SystemReply(r), .. } =>
            r.code == ReplyCode::Success(SuccessReplyReason::Auto) && r.payload == "" && r.value == 0,
        _ => false,
    }
}

pub proof fn lemma_count_concat(a: Seq<JournalNote>, b: Seq<JournalNote>, p: spec_fn(JournalNote) -> bool)
    ensures
        count_where(a + b, p) == count_where(a, p) + count_where(b, p),
    decreases b.len(),
{
    if b.len() == 0 {
        assert(a + b =~= a);
    } else {
        lemma_count_concat(a, b.drop_last(), p);
        assert((a + b).drop_last() =~= a + b.drop_last());
    }
}

pub proof fn lemma_count_none(s: Seq<JournalNote>, p: spec_fn(JournalNote) -> bool)
    requires
        forall|i: int| 0 <= i < s.len() ==> !p(#[trigger] s[i]),
    ensures
        count_where(s, p) == 0,
    decreases s.len(),
{
    if s.len() > 0 {
        lemma_count_none(s.drop_last(), p);
    }
}

pub proof fn lemma_count_single(n: JournalNote, p: spec_fn(JournalNote) -> bool)
    ensures
        count_where(seq![n], p) == if p(n) { 1nat } else { 0nat },
{
    assert(seq![n].drop_last() =~= Seq::<JournalNote>::empty());
    assert(count_where(Seq::<JournalNote>::empty(), p) == 0);
}

/// Reservation changes are only `ReserveGas` and `UnreserveGas` notes.
pub proof fn lemma_reservation_notes_kinds(
    message_id: MessageId,
    program_id: ProgramId,
    entries: Seq<(ReservationId, GasReservationState)>,
)
    ensures
        forall|i: int|
            0 <= i < reservation_notes(message_id, program_id, entries).len() ==> {
                let n = #[trigger] reservation_notes(message_id, program_id, entries)[i];
                n is ReserveGas || n is UnreserveGas
            },
    decreases entries.len(),
{
    if entries.len() > 0 {
        lemma_reservation_notes_kinds(message_id, program_id, entries.drop_last());
    }
}

pub open spec fn send_value_pred() -> spec_fn(JournalNote) -> bool {
    |n: JournalNote| n is SendValue
}

pub open spec fn system_reserve_pred() -> spec_fn(JournalNote) -> bool {
    |n: JournalNote| n is SystemReserveGas
}

pub open spec fn system_unreserve_pred() -> spec_fn(JournalNote) -> bool {
    |n: JournalNote| n is SystemUnreserveGas
}

pub open spec fn dispatched_pred() -> spec_fn(JournalNote) -> bool {
    |n: JournalNote| n is MessageDispatched
}

pub open spec fn consumed_pred() -> spec_fn(JournalNote) -> bool {
    |n: JournalNote| n is MessageConsumed
}

pub open spec fn auto_reply_pred() -> spec_fn(JournalNote) -> bool {
    |n: JournalNote| is_auto_reply(n)
}

/// The number of value transfers in a journal.
pub open spec fn value_transfers(j: Seq<JournalNote>) -> nat {
    count_where(j, send_value_pred())
}

/// The number of automatic replies in a journal.
pub open spec fn auto_replies(j: Seq<JournalNote>) -> nat {
    count_where(j, auto_reply_pred())
}

/// The number of reservations of gas for a signal in a journal.
pub open spec fn system_reserves(j: Seq<JournalNote>) -> nat {
    count_where(j, system_reserve_pred())
}

/// The number of releases of gas set aside for a signal in a journal.
pub open spec fn system_unreserves(j: Seq<JournalNote>) -> nat {
    count_where(j, system_unreserve_pred())
}

/// The number of outcome notes in a journal.
pub open spec fn outcomes(j: Seq<JournalNote>) -> nat {
    count_where(j, dispatched_pred())
}

/// The number of notes that take a message off the queue.
pub open spec fn consumptions(j: Seq<JournalNote>) -> nat {
    count_where(j, consumed_pred())
}

/// The notes of effects, split by step, in order.
pub open spec fn effect_steps(kind: SuccessfulDispatchResultKind, r: DispatchResult) -> Seq<Seq<JournalNote>> {
    let d = r.dispatch;
    let pid = r.program_id;
    seq![
        seq![burned_note(d, r.gas_burned)],
        reserver_notes(d, pid, r.gas_reserver),
        system_reserve_notes(d, r.system_reservation_context),
        credit_notes(d, pid),
        candidate_notes(pid, r.program_candidates@),
        auto_reply_notes(kind, d, pid, r.reply_sent),
        deposit_notes(d.message.id, r.reply_deposits@),
        dispatch_notes(d.message.id, r.generated_dispatches@),
        wake_notes(d.message.id, pid, r.awakening@),
        page_notes(pid, r.page_update@),
        allocation_notes(pid, r.allocations),
    ]
}

proof fn lemma_effect_count(kind: SuccessfulDispatchResultKind, r: DispatchResult, p: spec_fn(JournalNote) -> bool)
    ensures
        ({
            let st = effect_steps(kind, r);
            count_where(effect_notes(kind, r), p) == count_where(st[0], p) + count_where(st[1], p)
                + count_where(st[2], p) + count_where(st[3], p) + count_where(st[4], p)
                + count_where(st[5], p) + count_where(st[6], p) + count_where(st[7], p)
                + count_where(st[8], p) + count_where(st[9], p) + count_where(st[10], p)
        }),
{
    let st = effect_steps(kind, r);
    let s1 = st[0] + st[1];
    let s2 = s1 + st[2];
    let s3 = s2 + st[3];
    let s4 = s3 + st[4];
    let s5 = s4 + st[5];
    let s6 = s5 + st[6];
    let s7 = s6 + st[7];
    let s8 = s7 + st[8];
    let s9 = s8 + st[9];
    assert(effect_notes(kind, r) == s9 + st[10]);
    lemma_count_concat(st[0], st[1], p);
    lemma_count_concat(s1, st[2], p);
    lemma_count_concat(s2, st[3], p);
    lemma_count_concat(s3, st[4], p);
    lemma_count_concat(s4, st[5], p);
    lemma_count_concat(s5, st[6], p);
    lemma_count_concat(s6, st[7], p);
    lemma_count_concat(s7, st[8], p);
    lemma_count_concat(s8, st[9], p);
    lemma_count_concat(s9, st[10], p);
}

pub proof fn lemma_count_short(s: Seq<JournalNote>, p: spec_fn(JournalNote) -> bool)
    requires
        s.len() <= 1,
    ensures
        count_where(s, p) == if s.len() == 1 && p(s[0]) { 1nat } else { 0nat },
{
    if s.len() == 1 {
        assert(s == seq![s[0]]);
        lemma_count_single(s[0], p);
    } else {
        assert(count_where(s, p) == 0);
    }
}

/// A predicate that holds only of notes that the bulk steps never hold.
pub open spec fn rare_kind_only(p: spec_fn(JournalNote) -> bool) -> bool {
    forall|n: JournalNote|
        #[trigger] p(n) ==> (n is SendValue || n is SystemReserveGas || is_auto_reply(n)
            || n is SystemUnreserveGas || n is MessageDispatched || n is MessageConsumed)
}

/// Only the reservation of gas for a signal, the value transfer and the
/// automatic reply can count towards such a predicate.
proof fn lemma_effect_count_rare(kind: SuccessfulDispatchResultKind, r: DispatchResult, p: spec_fn(JournalNote) -> bool)
    requires
        rare_kind_only(p),
    ensures
        ({
            let st = effect_steps(kind, r);
            count_where(effect_notes(kind, r), p) == count_where(st[2], p) + count_where(st[3], p)
                + count_where(st[5], p)
        }),
{
    let st = effect_steps(kind, r);
    let d = r.dispatch;
    let pid = r.program_id;
    lemma_effect_count(kind, r, p);
    lemma_count_single(burned_note(d, r.gas_burned), p);
    if let Some(map) = r.gas_reserver {
        lemma_reservation_notes_kinds(d.message.id, pid, map@);
        let rn = reservation_notes(d.message.id, pid, map@);
        assert forall|i: int| 0 <= i < st[1].len() implies !p(#[trigger] st[1][i]) by {
            if i < rn.len() {
                assert(st[1][i] == rn[i]);
            }
        }
    }
    lemma_count_none(st[1], p);
    lemma_count_none(st[4], p);
    lemma_count_none(st[6], p);
    lemma_count_none(st[7], p);
    lemma_count_none(st[8], p);
    lemma_count_none(st[9], p);
    lemma_count_short(st[10], p);
}

/// Counts of the notes of effects: one value transfer when value moves, one
/// reservation of gas for a signal when this execution set some aside, one
/// automatic reply when it is owed, and no release, outcome or consumption.
pub proof fn lemma_effect_counts(kind: SuccessfulDispatchResultKind, r: DispatchResult)
    ensures
        value_transfers(effect_notes(kind, r)) == if moves_value(r.dispatch) { 1nat } else { 0nat },
        system_reserves(effect_notes(kind, r)) == if r.system_reservation_context.current_reservation is Some {
            1nat
        } else {
            0nat
        },
        auto_replies(effect_notes(kind, r)) == if owes_auto_reply(kind, r.dispatch, r.reply_sent) {
            1nat
        } else {
            0nat
        },
        system_unreserves(effect_notes(kind, r)) == 0,
        outcomes(effect_notes(kind, r)) == 0,
        consumptions(effect_notes(kind, r)) == 0,
{
    let st = effect_steps(kind, r);
    lemma_effect_count_rare(kind, r, send_value_pred());
    lemma_effect_count_rare(kind, r, system_reserve_pred());
    lemma_effect_count_rare(kind, r, auto_reply_pred());
    lemma_effect_count_rare(kind, r, system_unreserve_pred());
    lemma_effect_count_rare(kind, r, dispatched_pred());
    lemma_effect_count_rare(kind, r, consumed_pred());
    lemma_count_short(st[2], send_value_pred());
    lemma_count_short(st[3], send_value_pred());
    lemma_count_short(st[5], send_value_pred());
    lemma_count_short(st[2], system_reserve_pred());
    lemma_count_short(st[3], system_reserve_pred());
    lemma_count_short(st[5], system_reserve_pred());
    lemma_count_short(st[2], auto_reply_pred());
    lemma_count_short(st[3], auto_reply_pred());
    lemma_count_short(st[5], auto_reply_pred());
    lemma_count_short(st[2], system_unreserve_pred());
    lemma_count_short(st[3], system_unreserve_pred());
    lemma_count_short(st[5], system_unreserve_pred());
    lemma_count_short(st[2], dispatched_pred());
    lemma_count_short(st[3], dispatched_pred());
    lemma_count_short(st[5], dispatched_pred());
    lemma_count_short(st[2], consumed_pred());
    lemma_count_short(st[3], consumed_pred());
    lemma_count_short(st[5], consumed_pred());
}

/// The notes of an error journal, split by step, in order.
pub open spec fn error_steps(
    d: IncomingDispatch,
    program_id: ProgramId,
    gas_burned: u64,
    ctx: SystemReservationContext,
    case: ProcessErrorCase,
) -> Seq<Seq<JournalNote>> {
    seq![
        seq![burned_note(d, gas_burned)],
        refund_notes(d),
        system_reserve_notes(d, ctx),
        signal_notes(d, program_id, ctx, case),
        system_unreserve_notes(d, ctx),
        error_reply_notes(d, program_id, case),
        closing_notes(d, error_outcome(d, program_id, case)),
    ]
}

proof fn lemma_error_count(
    d: IncomingDispatch,
    program_id: ProgramId,
    gas_burned: u64,
    ctx: SystemReservationContext,
    case: ProcessErrorCase,
    p: spec_fn(JournalNote) -> bool,
)
    ensures
        ({
            let st = error_steps(d, program_id, gas_burned, ctx, case);
            &&& count_where(error_journal(d, program_id, gas_burned, ctx, case), p) == count_where(st[0], p)
                + count_where(st[1], p) + count_where(st[2], p) + count_where(st[3], p)
                + count_where(st[4], p) + count_where(st[5], p) + count_where(st[6], p)
            &&& count_where(st[0], p) == if p(st[0][0]) { 1nat } else { 0nat }
            &&& count_where(st[1], p) == if st[1].len() == 1 && p(st[1][0]) { 1nat } else { 0nat }
            &&& count_where(st[2], p) == if st[2].len() == 1 && p(st[2][0]) { 1nat } else { 0nat }
            &&& count_where(st[3], p) == if st[3].len() == 1 && p(st[3][0]) { 1nat } else { 0nat }
            &&& count_where(st[4], p) == if st[4].len() == 1 && p(st[4][0]) { 1nat } else { 0nat }
            &&& count_where(st[5], p) == if st[5].len() == 1 && p(st[5][0]) { 1nat } else { 0nat }
            &&& count_where(st[6], p) == (if p(st[6][0]) { 1nat } else { 0nat }) + (if p(st[6][1]) {
                1nat
            } else {
                0nat
            })
        }),
{
    let st = error_steps(d, program_id, gas_burned, ctx, case);
    let s1 = st[0] + st[1];
    let s2 = s1 + st[2];
    let s3 = s2 + st[3];
    let s4 = s3 + st[4];
    let s5 = s4 + st[5];
    assert(error_journal(d, program_id, gas_burned, ctx, case) == s5 + st[6]);
    lemma_count_concat(st[0], st[1], p);
    lemma_count_concat(s1, st[2], p);
    lemma_count_concat(s2, st[3], p);
    lemma_count_concat(s3, st[4], p);
    lemma_count_concat(s4, st[5], p);
    lemma_count_concat(s5, st[6], p);
    lemma_count_short(st[0], p);
    lemma_count_short(st[1], p);
    lemma_count_short(st[2], p);
    lemma_count_short(st[3], p);
    lemma_count_short(st[4], p);
    lemma_count_short(st[5], p);
    lemma_two(st[6], p);
}

pub proof fn lemma_two(s: Seq<JournalNote>, p: spec_fn(JournalNote) -> bool)
    requires
        s.len() == 2,
    ensures
        count_where(s, p) == (if p(s[0]) { 1nat } else { 0nat }) + (if p(s[1]) { 1nat } else { 0nat }),
{
    assert(s == seq![s[0]] + seq![s[1]]);
    lemma_count_concat(seq![s[0]], seq![s[1]], p);
    lemma_count_single(s[0], p);
    lemma_count_single(s[1], p);
}

/// Counts of the notes of an error journal.
pub proof fn lemma_error_counts(
    d: IncomingDispatch,
    program_id: ProgramId,
    gas_burned: u64,
    ctx: SystemReservationContext,
    case: ProcessErrorCase,
)
    ensures
        ({
            let j = error_journal(d, program_id, gas_burned, ctx, case);
            &&& value_transfers(j) == if moves_value(d) { 1nat } else { 0nat }
            &&& system_reserves(j) == if ctx.current_reservation is Some { 1nat } else { 0nat }
            &&& system_unreserves(j) == if ctx.spec_has_any() { 1nat } else { 0nat }
            &&& auto_replies(j) == 0
            &&& outcomes(j) == 1
            &&& consumptions(j) == 1
        }),
{
    lemma_error_count(d, program_id, gas_burned, ctx, case, send_value_pred());
    lemma_error_count(d, program_id, gas_burned, ctx, case, system_reserve_pred());
    lemma_error_count(d, program_id, gas_burned, ctx, case, system_unreserve_pred());
    lemma_error_count(d, program_id, gas_burned, ctx, case, auto_reply_pred());
    lemma_error_count(d, program_id, gas_burned, ctx, case, dispatched_pred());
    lemma_error_count(d, program_id, gas_burned, ctx, case, consumed_pred());
}

/// The count over a success journal, split into its effects and each note of its tail.
proof fn lemma_success_count(kind: SuccessfulDispatchResultKind, r: DispatchResult, p: spec_fn(JournalNote) -> bool)
    ensures
        ({
            let e = effect_notes(kind, r);
            let t = success_tail(kind, r);
            let un = system_unreserve_notes(r.dispatch, r.system_reservation_context);
            let un_count = if un.len() == 1 && p(un[0]) { 1nat } else { 0nat };
            count_where(success_journal(kind, r), p) == count_where(e, p) + match kind {
                SuccessfulDispatchResultKind::Wait(..) => if p(t[0]) { 1nat } else { 0nat },
                SuccessfulDispatchResultKind::Success => un_count + (if p(t[un.len() as int]) {
                    1nat
                } else {
                    0nat
                }) + (if p(t[un.len() as int + 1]) { 1nat } else { 0nat }),
                SuccessfulDispatchResultKind::Exit(_) => (if p(t[0]) { 1nat } else { 0nat }) + un_count + (
                if p(t[un.len() as int + 1]) {
                    1nat
                } else {
                    0nat
                }) + (if p(t[un.len() as int + 2]) { 1nat } else { 0nat }),
            }
        }),
{
    let e = effect_notes(kind, r);
    let t = success_tail(kind, r);
    let un = system_unreserve_notes(r.dispatch, r.system_reservation_context);
    assert(success_journal(kind, r) == e + t);
    lemma_count_concat(e, t, p);
    lemma_count_short(un, p);
    match kind {
        SuccessfulDispatchResultKind::Wait(..) => {
            assert(t == seq![t[0]]);
            lemma_count_single(t[0], p);
        },
        SuccessfulDispatchResultKind::Success => {
            let c = t.subrange(un.len() as int, t.len() as int);
            assert(t == un + c);
            lemma_count_concat(un, c, p);
            lemma_two(c, p);
        },
        SuccessfulDispatchResultKind::Exit(_) => {
            let c = t.subrange(un.len() as int + 1, t.len() as int);
            let h = t.subrange(0, un.len() as int + 1);
            assert(t == h + c);
            assert(h == seq![t[0]] + un);
            lemma_count_concat(h, c, p);
            lemma_count_concat(seq![t[0]], un, p);
            lemma_count_single(t[0], p);
            lemma_two(c, p);
        },
    }
}

/// Counts of the notes of a success journal.
pub proof fn lemma_success_counts(kind: SuccessfulDispatchResultKind, r: DispatchResult)
    ensures
        ({
            let j = success_journal(kind, r);
            let waits = kind is Wait;
            let ctx = r.system_reservation_context;
            &&& value_transfers(j) == if moves_value(r.dispatch) { 1nat } else { 0nat }
            &&& system_reserves(j) == if ctx.current_reservation is Some { 1nat } else { 0nat }
            &&& system_unreserves(j) == if !waits && ctx.spec_has_any() { 1nat } else { 0nat }
            &&& auto_replies(j) == if owes_auto_reply(kind, r.dispatch, r.reply_sent) { 1nat } else { 0nat }
            &&& outcomes(j) == if waits { 0nat } else { 1nat }
            &&& consumptions(j) == if waits { 0nat } else { 1nat }
        }),
{
    lemma_effect_counts(kind, r);
    lemma_success_count(kind, r, send_value_pred());
    lemma_success_count(kind, r, system_reserve_pred());
    lemma_success_count(kind, r, system_unreserve_pred());
    lemma_success_count(kind, r, auto_reply_pred());
    lemma_success_count(kind, r, dispatched_pred());
    lemma_success_count(kind, r, consumed_pred());
}

/// The executor's report concerns the dispatch it was given.
pub open spec fn reports_on(exec_result: Result<DispatchResult, ExecutionError>, dispatch: IncomingDispatch) -> bool {
    exec_result matches Ok(res) ==> res.dispatch == dispatch
}

/// A dispatch that resumes after a wait moves no value, whatever the
/// outcome of its execution: its value moved in the execution that waited.
pub proof fn resumed_dispatch_moves_no_value(
    dispatch: IncomingDispatch,
    program_id: ProgramId,
    exec_result: Result<DispatchResult, ExecutionError>,
)
    requires
        dispatch.context is Some,
        reports_on(exec_result, dispatch),
    ensures
        process_journal(dispatch, program_id, exec_result) matches Ok(j) ==> value_transfers(j) == 0,
{
    match exec_result {
        Ok(res) => match res.kind {
            DispatchResultKind::Trap(reason) => lemma_error_counts(
                res.dispatch,
                program_id,
                res.gas_burned,
                res.system_reservation_context,
                ProcessErrorCase::ExecutionFailed(ActorExecutionErrorReplyReason::Trap(reason)),
            ),
            DispatchResultKind::Success => lemma_success_counts(SuccessfulDispatchResultKind::Success, res),
            DispatchResultKind::Wait(duration, waited_type) => lemma_success_counts(
                SuccessfulDispatchResultKind::Wait(duration, waited_type),
                res,
            ),
            DispatchResultKind::Exit(to) => lemma_success_counts(SuccessfulDispatchResultKind::Exit(to), res),
            DispatchResultKind::GasAllowanceExceed => {
                let j = allowance_journal(dispatch, program_id, res.gas_burned);
                lemma_count_single(j[0], send_value_pred());
                assert(j == seq![j[0]]);
            },
        },
        Err(ExecutionError::Actor(e)) => lemma_error_counts(
            dispatch,
            program_id,
            e.gas_burned,
            SystemReservationContext::spec_from_context(dispatch.context),
            ProcessErrorCase::ExecutionFailed(e.reason),
        ),
        Err(ExecutionError::System(_)) => {},
    }
}

/// A message that finished, is neither a reply nor a signal, and that the
/// program did not answer, gets exactly one automatic reply.
pub proof fn finished_message_gets_one_auto_reply(
    dispatch: IncomingDispatch,
    program_id: ProgramId,
    exec_result: Result<DispatchResult, ExecutionError>,
)
    requires
        reports_on(exec_result, dispatch),
        exec_result matches Ok(res) && res.kind is Success && !res.reply_sent,
        gets_reply(dispatch),
    ensures
        process_journal(dispatch, program_id, exec_result) matches Ok(j) && auto_replies(j) == 1,
{
    lemma_success_counts(SuccessfulDispatchResultKind::Success, exec_result->Ok_0);
}

/// How a journal ends. A waiting dispatch ends with `WaitDispatch`, and is
/// neither given an outcome nor consumed. A dispatch stopped by the block's
/// gas allowance gives one `StopProcessing` note and nothing else. Every
/// other dispatch ends with `MessageDispatched` then `MessageConsumed`, each
/// appearing once.
pub proof fn journal_ends(
    dispatch: IncomingDispatch,
    program_id: ProgramId,
    exec_result: Result<DispatchResult, ExecutionError>,
)
    requires
        reports_on(exec_result, dispatch),
    ensures
        match process_journal(dispatch, program_id, exec_result) {
            Ok(j) => if exec_result matches Ok(res) && res.kind is Wait {
                &&& j.len() >= 1
                &&& j.last() is WaitDispatch
                &&& outcomes(j) == 0
                &&& consumptions(j) == 0
            } else if exec_result matches Ok(res) && res.kind is GasAllowanceExceed {
                &&& j.len() == 1
                &&& j[0] is StopProcessing
            } else {
                &&& j.len() >= 2
                &&& j[j.len() - 2] is MessageDispatched
                &&& j[j.len() - 1] is MessageConsumed
                &&& outcomes(j) == 1
                &&& consumptions(j) == 1
            },
            Err(_) => exec_result matches Err(ExecutionError::System(_)),
        },
{
    match exec_result {
        Ok(res) => match res.kind {
            DispatchResultKind::Trap(reason) => lemma_error_counts(
                res.dispatch,
                program_id,
                res.gas_burned,
                res.system_reservation_context,
                ProcessErrorCase::ExecutionFailed(ActorExecutionErrorReplyReason::Trap(reason)),
            ),
            DispatchResultKind::Success => lemma_success_counts(SuccessfulDispatchResultKind::Success, res),
            DispatchResultKind::Wait(duration, waited_type) => lemma_success_counts(
                SuccessfulDispatchResultKind::Wait(duration, waited_type),
                res,
            ),
            DispatchResultKind::Exit(to) => lemma_success_counts(SuccessfulDispatchResultKind::Exit(to), res),
            DispatchResultKind::GasAllowanceExceed => {},
        },
        Err(ExecutionError::Actor(e)) => lemma_error_counts(
            dispatch,
            program_id,
            e.gas_burned,
            SystemReservationContext::spec_from_context(dispatch.context),
            ProcessErrorCase::ExecutionFailed(e.reason),
        ),
        Err(ExecutionError::System(_)) => {},
    }
}

/// In the journal of a dispatch that ended in error, gas set aside for a
/// signal by the execution is reserved exactly once and released exactly
/// once, the reservation first.
pub proof fn error_journal_closes_reservation_once(
    d: IncomingDispatch,
    program_id: ProgramId,
    gas_burned: u64,
    ctx: SystemReservationContext,
    case: ProcessErrorCase,
)
    requires
        ctx.current_reservation is Some,
    ensures
        ({
            let j = error_journal(d, program_id, gas_burned, ctx, case);
            &&& system_reserves(j) == 1
            &&& system_unreserves(j) == 1
            &&& exists|i: int, k: int|
                0 <= i < k < j.len() && #[trigger] j[i] is SystemReserveGas && #[trigger] j[k] is SystemUnreserveGas
        }),
{
    lemma_error_counts(d, program_id, gas_burned, ctx, case);
    let st = error_steps(d, program_id, gas_burned, ctx, case);
    let j = error_journal(d, program_id, gas_burned, ctx, case);
    let a = st[0] + st[1];
    let b = a + st[2] + st[3];
    assert(j == b + st[4] + st[5] + st[6]);
    assert(j[a.len() as int] == st[2][0]);
    assert(j[b.len() as int] == st[4][0]);
}

/// In the journal of an execution that went through and did not wait, gas
/// set aside for a signal by the execution is reserved exactly once and
/// released exactly once, the reservation first.
pub proof fn success_journal_closes_reservation_once(kind: SuccessfulDispatchResultKind, r: DispatchResult)
    requires
        r.system_reservation_context.current_reservation is Some,
        !(kind is Wait),
    ensures
        ({
            let j = success_journal(kind, r);
            &&& system_reserves(j) == 1
            &&& system_unreserves(j) == 1
            &&& exists|i: int, k: int|
                0 <= i < k < j.len() && #[trigger] j[i] is SystemReserveGas && #[trigger] j[k] is SystemUnreserveGas
        }),
{
    lemma_success_counts(kind, r);
    let st = effect_steps(kind, r);
    let e = effect_notes(kind, r);
    let t = success_tail(kind, r);
    let j = success_journal(kind, r);
    let a = st[0] + st[1];
    assert(e == a + st[2] + st[3] + st[4] + st[5] + st[6] + st[7] + st[8] + st[9] + st[10]);
    assert(j == e + t);
    assert(j[a.len() as int] == st[2][0]);
    let u: int = match kind {
        SuccessfulDispatchResultKind::Exit(_) => 1,
        _ => 0,
    };
    assert(j[e.len() + u] == t[u]);
    assert(t[u] is SystemUnreserveGas);
    assert(a.len() < e.len() + u);
}

/// Gas that an execution set aside for a signal is reserved exactly once
/// and released exactly once, the reservation first, unless the dispatch
/// waits or the block's gas allowance stops it.
pub proof fn system_reservation_closes_once(
    dispatch: IncomingDispatch,
    program_id: ProgramId,
    exec_result: Result<DispatchResult, ExecutionError>,
)
    requires
        reports_on(exec_result, dispatch),
        exec_result matches Ok(res) && res.system_reservation_context.current_reservation is Some
            && !(res.kind is Wait) && !(res.kind is GasAllowanceExceed),
    ensures
        process_journal(dispatch, program_id, exec_result) matches Ok(j) && {
            &&& system_reserves(j) == 1
            &&& system_unreserves(j) == 1
            &&& exists|i: int, k: int|
                0 <= i < k < j.len() && #[trigger] j[i] is SystemReserveGas && #[trigger] j[k] is SystemUnreserveGas
        },
{
    let res = exec_result->Ok_0;
    let ctx = res.system_reservation_context;
    let j = process_journal(dispatch, program_id, exec_result)->Ok_0;
    match res.kind {
        DispatchResultKind::Trap(reason) => {
            let case = ProcessErrorCase::ExecutionFailed(ActorExecutionErrorReplyReason::Trap(reason));
            error_journal_closes_reservation_once(res.dispatch, program_id, res.gas_burned, ctx, case);
            assert(j == error_journal(res.dispatch, program_id, res.gas_burned, ctx, case));
        },
        DispatchResultKind::Exit(to) => {
            success_journal_closes_reservation_once(SuccessfulDispatchResultKind::Exit(to), res);
            assert(j == success_journal(SuccessfulDispatchResultKind::Exit(to), res));
        },
        _ => {
            success_journal_closes_reservation_once(SuccessfulDispatchResultKind::Success, res);
            assert(j == success_journal(SuccessfulDispatchResultKind::Success, res));
        },
    }
}

/// Values handed to the journal are carried unchanged: each changed page's
/// data, the context that a waiting dispatch keeps, and the dispatch that
/// the block's gas allowance stops.
pub proof fn carried_values_unchanged(
    kind: SuccessfulDispatchResultKind,
    r: DispatchResult,
    dispatch: IncomingDispatch,
    program_id: ProgramId,
    gas_burned: u64,
)
    ensures
        forall|i: int|
            #![trigger r.page_update@[i]]
            0 <= i < r.page_update@.len() ==> exists|k: int|
                0 <= k < success_journal(kind, r).len() && #[trigger] success_journal(kind, r)[k]
                    == (JournalNote::UpdatePage {
                    program_id: r.program_id,
                    page_number: r.page_update@[i].0,
                    data: r.page_update@[i].1,
                }),
        kind is Wait ==> (success_journal(kind, r).last() matches JournalNote::WaitDispatch { dispatch: stored, .. }
            && stored.context == Some(r.context_store) && stored.message.payload == r.dispatch.message.payload
            && stored.message.id == r.dispatch.message.id),
        allowance_journal(dispatch, program_id, gas_burned)[0] matches JournalNote::StopProcessing {
            dispatch: stored,
            gas_burned: g,
        } && stored.context == dispatch.context && stored.message.payload == dispatch.message.payload
            && stored.message.id == dispatch.message.id && g == gas_burned,
{
    let st = effect_steps(kind, r);
    let e = effect_notes(kind, r);
    let j = success_journal(kind, r);
    let pre = st[0] + st[1] + st[2] + st[3] + st[4] + st[5] + st[6] + st[7] + st[8];
    assert(e == pre + st[9] + st[10]);
    assert(j == e + success_tail(kind, r));
    assert forall|i: int| #![trigger r.page_update@[i]] 0 <= i < r.page_update@.len() implies exists|k: int|
        0 <= k < j.len() && #[trigger] j[k] == (JournalNote::UpdatePage {
            program_id: r.program_id,
            page_number: r.page_update@[i].0,
            data: r.page_update@[i].1,
        }) by {
        assert(j[pre.len() + i] == st[9][i]);
    }
}

} // verus!

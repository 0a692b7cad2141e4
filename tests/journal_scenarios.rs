use core_processor::error::{
    ActorExecutionError, ActorExecutionErrorReplyReason, ExecutionError, SystemExecutionError,
    TrapExplanation,
};
use core_processor::ids::{CodeId, MessageId, ProgramId, ReservationId};
use core_processor::journal::{
    DispatchOutcome, GasReservationState, JournalNote, SystemReservationContext,
};
use core_processor::message::{
    ContextStore, Dispatch, DispatchKind, ErrorReplyReason, IncomingDispatch, IncomingMessage,
    Message, MessageDetails, MessageWaitedType, OutgoingDispatch, ReplyCode, ReplyDetails,
    SignalCode, SimpleExecutionError, SuccessReplyReason,
};
use core_processor::processing::{
    process, process_allowance_exceed, process_execution_error, process_non_executable,
    message_context_settings, process_reinstrumentation_error, process_success,
    ContextChargedForInstrumentation, ContextSettings,
    ContextChargedForProgram, DispatchResult, DispatchResultKind, ProcessErrorCase,
    SuccessfulDispatchResultKind,
};

const MSG: MessageId = MessageId([1; 32]);
const USER: ProgramId = ProgramId([2; 32]);
const PROGRAM: ProgramId = ProgramId([3; 32]);

fn context(system_reservation: Option<u64>) -> ContextStore {
    ContextStore {
        initialized: vec![ProgramId([9; 32])],
        reply: Some(vec![7, 7]),
        reservation_nonce: 4,
        system_reservation,
        local_nonce: 2,
    }
}

fn dispatch(kind: DispatchKind, value: u128, details: Option<MessageDetails>, ctx: Option<ContextStore>) -> IncomingDispatch {
    IncomingDispatch {
        kind,
        message: IncomingMessage {
            id: MSG,
            source: USER,
            payload: vec![10, 20, 30],
            gas_limit: 1_000_000,
            value,
            details,
        },
        context: ctx,
    }
}

fn reply_details(code: ReplyCode) -> Option<MessageDetails> {
    Some(MessageDetails::Reply(ReplyDetails { to: MessageId([5; 32]), code }))
}

fn no_reservation() -> SystemReservationContext {
    SystemReservationContext { current_reservation: None, previous_reservation: None }
}

fn result(kind: DispatchResultKind, d: IncomingDispatch, current_reservation: Option<u64>) -> DispatchResult {
    DispatchResult {
        kind,
        dispatch: d,
        program_id: PROGRAM,
        context_store: context(None),
        generated_dispatches: vec![],
        awakening: vec![],
        reply_deposits: vec![],
        program_candidates: vec![],
        gas_burned: 500,
        gas_reserver: None,
        system_reservation_context: SystemReservationContext {
            current_reservation,
            previous_reservation: None,
        },
        page_update: vec![],
        allocations: None,
        reply_sent: false,
    }
}

fn is_auto_reply(n: &JournalNote) -> bool {
    matches!(
        n,
        JournalNote::SendDispatch {
            dispatch: OutgoingDispatch::SystemReply(r),
            ..
        } if r.code == ReplyCode::Success(SuccessReplyReason::Auto) && r.payload.is_empty()
    )
}

fn count(j: &[JournalNote], p: fn(&JournalNote) -> bool) -> usize {
    j.iter().filter(|n| p(n)).count()
}

// Init dispatch traps with 50 gas set aside for a signal.
#[test]
fn init_trap_with_reservation() {
    let d = dispatch(DispatchKind::Init, 0, None, None);
    let reason = ActorExecutionErrorReplyReason::Trap(TrapExplanation::Panic);
    let res = result(DispatchResultKind::Trap(TrapExplanation::Panic), d.clone(), Some(50));
    let j = process(d, PROGRAM, Ok(res)).unwrap();
    let text = reason.text();
    let expected = vec![
        JournalNote::GasBurned { message_id: MSG, amount: 500 },
        JournalNote::SystemReserveGas { message_id: MSG, amount: 50 },
        JournalNote::SystemUnreserveGas { message_id: MSG },
        JournalNote::SendDispatch {
            message_id: MSG,
            dispatch: OutgoingDispatch::SystemReply(core_processor::message::ReplyMessage {
                reply_to: MSG,
                source: PROGRAM,
                destination: USER,
                payload: text,
                value: 0,
                code: ReplyCode::Error(ErrorReplyReason::Execution(SimpleExecutionError::UserspacePanic)),
            }),
            delay: 0,
            reservation: None,
        },
        JournalNote::MessageDispatched {
            message_id: MSG,
            source: USER,
            outcome: DispatchOutcome::InitFailure { program_id: PROGRAM, origin: USER, reason: text },
        },
        JournalNote::MessageConsumed(MSG),
    ];
    assert_eq!(j, expected);
}

// A handle dispatch that traps with a reservation does get the signal.
#[test]
fn handle_trap_with_reservation_sends_signal() {
    let d = dispatch(DispatchKind::Handle, 0, None, None);
    let res = result(DispatchResultKind::Trap(TrapExplanation::GasLimitExceeded), d.clone(), Some(50));
    let j = process(d, PROGRAM, Ok(res)).unwrap();
    assert_eq!(j[1], JournalNote::SystemReserveGas { message_id: MSG, amount: 50 });
    assert_eq!(
        j[2],
        JournalNote::SendSignal {
            message_id: MSG,
            destination: PROGRAM,
            code: SignalCode::Execution(SimpleExecutionError::RanOutOfGas),
        }
    );
    assert_eq!(j[3], JournalNote::SystemUnreserveGas { message_id: MSG });
    assert!(matches!(
        j[j.len() - 2],
        JournalNote::MessageDispatched { outcome: DispatchOutcome::MessageTrap { .. }, .. }
    ));
}

// Handle dispatch with value 100 that succeeds without an explicit reply.
#[test]
fn handle_success_with_value() {
    let d = dispatch(DispatchKind::Handle, 100, None, None);
    let res = result(DispatchResultKind::Success, d.clone(), None);
    let j = process(d, PROGRAM, Ok(res)).unwrap();
    assert_eq!(j[0], JournalNote::GasBurned { message_id: MSG, amount: 500 });
    assert_eq!(j[1], JournalNote::SendValue { from: USER, to: Some(PROGRAM), value: 100 });
    let n = j.len();
    assert!(is_auto_reply(&j[n - 3]));
    assert_eq!(
        j[n - 2],
        JournalNote::MessageDispatched { message_id: MSG, source: USER, outcome: DispatchOutcome::Success }
    );
    assert_eq!(j[n - 1], JournalNote::MessageConsumed(MSG));
    assert_eq!(count(&j, is_auto_reply), 1);
}

// Wait for 10 blocks: the journal ends with WaitDispatch, nothing is consumed.
#[test]
fn wait_keeps_dispatch_and_reservation() {
    let d = dispatch(DispatchKind::Handle, 0, None, None);
    let mut res = result(DispatchResultKind::Wait(Some(10), MessageWaitedType::Wait), d.clone(), Some(30));
    res.page_update = vec![(4, vec![1, 2, 3])];
    let j = process(d.clone(), PROGRAM, Ok(res)).unwrap();
    let last = j.last().unwrap();
    match last {
        JournalNote::WaitDispatch { dispatch: stored, duration, waited_type } => {
            assert_eq!(*duration, Some(10));
            assert_eq!(*waited_type, MessageWaitedType::Wait);
            assert_eq!(stored.context, Some(context(None)));
            assert_eq!(stored.message.destination, PROGRAM);
            assert_eq!(stored.message.payload, d.message.payload);
        }
        other => panic!("unexpected last note {:?}", other),
    }
    assert!(j.contains(&JournalNote::SystemReserveGas { message_id: MSG, amount: 30 }));
    assert!(j.contains(&JournalNote::UpdatePage { program_id: PROGRAM, page_number: 4, data: vec![1, 2, 3] }));
    assert!(!j.iter().any(|n| matches!(
        n,
        JournalNote::MessageDispatched { .. } | JournalNote::MessageConsumed(_) | JournalNote::SystemUnreserveGas { .. }
    )));
    assert_eq!(count(&j, is_auto_reply), 0);
}

// The block's gas allowance runs out after 12345 gas was burned.
#[test]
fn allowance_exceeded_stops_processing() {
    let d = dispatch(DispatchKind::Handle, 9, None, Some(context(Some(3))));
    let res = result(DispatchResultKind::GasAllowanceExceed, d.clone(), Some(8));
    let mut res = res;
    res.gas_burned = 12345;
    let j = process(d.clone(), PROGRAM, Ok(res)).unwrap();
    assert_eq!(j.len(), 1);
    match &j[0] {
        JournalNote::StopProcessing { dispatch: stored, gas_burned } => {
            assert_eq!(*gas_burned, 12345);
            assert_eq!(stored.kind, DispatchKind::Handle);
            assert_eq!(stored.message.id, MSG);
            assert_eq!(stored.message.destination, PROGRAM);
            assert_eq!(stored.message.value, 9);
            assert_eq!(stored.context, Some(context(Some(3))));
        }
        other => panic!("unexpected note {:?}", other),
    }
    assert_eq!(j, process_allowance_exceed(d, PROGRAM, 12345));
}

// A reply with value 7 to a destination that cannot execute.
#[test]
fn non_executable_reply_gets_refund_only() {
    let d = dispatch(
        DispatchKind::Reply,
        7,
        reply_details(ReplyCode::Success(SuccessReplyReason::Manual)),
        None,
    );
    let j = process_non_executable(ContextChargedForProgram { dispatch: d, destination_id: PROGRAM, gas_burned: 11 });
    assert_eq!(
        j,
        vec![
            JournalNote::GasBurned { message_id: MSG, amount: 11 },
            JournalNote::SendValue { from: USER, to: None, value: 7 },
            JournalNote::MessageDispatched { message_id: MSG, source: USER, outcome: DispatchOutcome::NoExecution },
            JournalNote::MessageConsumed(MSG),
        ]
    );
}

#[test]
fn non_executable_handle_gets_inactive_actor_reply() {
    let d = dispatch(DispatchKind::Handle, 0, None, None);
    let j = process_non_executable(ContextChargedForProgram { dispatch: d, destination_id: PROGRAM, gas_burned: 0 });
    assert_eq!(j.len(), 4);
    match &j[1] {
        JournalNote::SendDispatch { dispatch: OutgoingDispatch::SystemReply(r), delay: 0, reservation: None, .. } => {
            assert_eq!(r.code, ReplyCode::Error(ErrorReplyReason::InactiveActor));
            assert_eq!(r.payload, ErrorReplyReason::InactiveActor.text());
            assert_eq!(r.destination, USER);
            assert_eq!(r.reply_to, MSG);
        }
        other => panic!("unexpected note {:?}", other),
    }
}

#[test]
fn reinstrumentation_failure_of_init() {
    let d = dispatch(DispatchKind::Init, 0, None, Some(context(Some(40))));
    let j = process_reinstrumentation_error(ContextChargedForInstrumentation {
        dispatch: d,
        destination_id: PROGRAM,
        gas_burned: 3,
    });
    let text = ErrorReplyReason::ReinstrumentationFailure.text();
    assert_eq!(j[0], JournalNote::GasBurned { message_id: MSG, amount: 3 });
    // The reservation of an earlier execution is released, not reserved again.
    assert_eq!(j[1], JournalNote::SystemUnreserveGas { message_id: MSG });
    assert!(matches!(&j[2], JournalNote::SendDispatch { dispatch: OutgoingDispatch::SystemReply(r), .. }
        if r.code == ReplyCode::Error(ErrorReplyReason::ReinstrumentationFailure)));
    assert_eq!(
        j[3],
        JournalNote::MessageDispatched {
            message_id: MSG,
            source: USER,
            outcome: DispatchOutcome::InitFailure { program_id: PROGRAM, origin: USER, reason: text },
        }
    );
    assert_eq!(j.len(), 5);
}

#[test]
fn error_reply_gets_no_signal_and_no_reply() {
    let d = dispatch(
        DispatchKind::Reply,
        0,
        reply_details(ReplyCode::Error(ErrorReplyReason::InactiveActor)),
        None,
    );
    let ctx = SystemReservationContext { current_reservation: Some(5), previous_reservation: None };
    let j = process_execution_error(d, PROGRAM, 1, ctx, ActorExecutionErrorReplyReason::Environment);
    assert_eq!(
        j,
        vec![
            JournalNote::GasBurned { message_id: MSG, amount: 1 },
            JournalNote::SystemReserveGas { message_id: MSG, amount: 5 },
            JournalNote::SystemUnreserveGas { message_id: MSG },
            JournalNote::MessageDispatched {
                message_id: MSG,
                source: USER,
                outcome: DispatchOutcome::MessageTrap {
                    program_id: PROGRAM,
                    trap: ActorExecutionErrorReplyReason::Environment.text(),
                },
            },
            JournalNote::MessageConsumed(MSG),
        ]
    );
}

#[test]
fn signal_dispatch_gets_no_reply() {
    let d = dispatch(
        DispatchKind::Signal,
        0,
        Some(MessageDetails::Signal(core_processor::message::SignalDetails {
            to: MessageId([6; 32]),
            code: SignalCode::RemovedFromWaitlist,
        })),
        None,
    );
    let res = result(DispatchResultKind::Success, d.clone(), None);
    let j = process(d.clone(), PROGRAM, Ok(res)).unwrap();
    assert_eq!(count(&j, is_auto_reply), 0);
    let t = process_execution_error(d, PROGRAM, 1, no_reservation(), ActorExecutionErrorReplyReason::Environment);
    assert!(!t.iter().any(|n| matches!(n, JournalNote::SendDispatch { .. } | JournalNote::SendSignal { .. })));
}

#[test]
fn resumed_dispatch_moves_no_value_on_any_path() {
    let d = dispatch(DispatchKind::Handle, 50, None, Some(context(None)));
    let kinds = vec![
        DispatchResultKind::Success,
        DispatchResultKind::Trap(TrapExplanation::Unknown),
        DispatchResultKind::Wait(None, MessageWaitedType::WaitFor),
        DispatchResultKind::Exit(USER),
        DispatchResultKind::GasAllowanceExceed,
    ];
    for kind in kinds {
        let j = process(d.clone(), PROGRAM, Ok(result(kind, d.clone(), None))).unwrap();
        assert!(!j.iter().any(|n| matches!(n, JournalNote::SendValue { .. })), "{:?}", kind);
    }
    let e = ExecutionError::Actor(ActorExecutionError {
        gas_burned: 2,
        reason: ActorExecutionErrorReplyReason::Environment,
    });
    let j = process(d.clone(), PROGRAM, Err(e)).unwrap();
    assert!(!j.iter().any(|n| matches!(n, JournalNote::SendValue { .. })));
    let j = process_non_executable(ContextChargedForProgram { dispatch: d, destination_id: PROGRAM, gas_burned: 0 });
    assert!(!j.iter().any(|n| matches!(n, JournalNote::SendValue { .. })));
}

#[test]
fn system_error_is_returned() {
    let d = dispatch(DispatchKind::Handle, 1, None, None);
    let r = process(d, PROGRAM, Err(ExecutionError::System(SystemExecutionError::PrepareMemory)));
    assert_eq!(r, Err(SystemExecutionError::PrepareMemory));
}

#[test]
fn actor_error_uses_its_gas_and_earlier_reservation() {
    let d = dispatch(DispatchKind::Handle, 0, None, Some(context(Some(12))));
    let e = ExecutionError::Actor(ActorExecutionError {
        gas_burned: 77,
        reason: ActorExecutionErrorReplyReason::Trap(TrapExplanation::StackLimitExceeded),
    });
    let j = process(d, PROGRAM, Err(e)).unwrap();
    assert_eq!(j[0], JournalNote::GasBurned { message_id: MSG, amount: 77 });
    assert_eq!(
        j[1],
        JournalNote::SendSignal {
            message_id: MSG,
            destination: PROGRAM,
            code: SignalCode::Execution(SimpleExecutionError::StackLimitExceeded),
        }
    );
    assert_eq!(j[2], JournalNote::SystemUnreserveGas { message_id: MSG });
    assert!(!j.iter().any(|n| matches!(n, JournalNote::SystemReserveGas { .. })));
}

#[test]
fn exit_ends_with_exit_dispatch_then_closing() {
    let d = dispatch(DispatchKind::Handle, 0, None, None);
    let res = result(DispatchResultKind::Exit(USER), d.clone(), Some(9));
    let j = process(d, PROGRAM, Ok(res)).unwrap();
    let n = j.len();
    assert_eq!(j[n - 4], JournalNote::ExitDispatch { id_exited: PROGRAM, value_destination: USER });
    assert_eq!(j[n - 3], JournalNote::SystemUnreserveGas { message_id: MSG });
    assert_eq!(
        j[n - 2],
        JournalNote::MessageDispatched {
            message_id: MSG,
            source: USER,
            outcome: DispatchOutcome::Exit { program_id: PROGRAM },
        }
    );
    assert_eq!(count(&j, is_auto_reply), 0);
}

#[test]
fn success_builder_orders_every_step() {
    let d = dispatch(DispatchKind::Init, 0, None, None);
    let sent = Dispatch {
        kind: DispatchKind::Handle,
        message: Message {
            id: MessageId([20; 32]),
            source: PROGRAM,
            destination: ProgramId([21; 32]),
            payload: vec![1],
            gas_limit: Some(10),
            value: 0,
            details: None,
        },
    };
    let r1 = ReservationId([30; 32]);
    let r2 = ReservationId([31; 32]);
    let r3 = ReservationId([32; 32]);
    let reserver = vec![
        (r1, GasReservationState::Created { amount: 100, duration: 5, finish: 9 }),
        (r2, GasReservationState::Exists { amount: 1, finish: 2 }),
        (r3, GasReservationState::Removed { expiration: 7 }),
    ];
    let mut res = result(DispatchResultKind::Success, d, None);
    res.gas_reserver = Some(reserver.clone());
    res.program_candidates = vec![(CodeId([40; 32]), vec![(MessageId([41; 32]), ProgramId([21; 32]))])];
    res.reply_deposits = vec![(MessageId([20; 32]), 66)];
    res.generated_dispatches = vec![(sent.clone(), 3, Some(r1))];
    res.awakening = vec![(MessageId([50; 32]), 2)];
    res.page_update = vec![(1, vec![9; 4]), (2, vec![8; 4])];
    res.allocations = Some(vec![0, 1, 2]);
    let j = process_success(SuccessfulDispatchResultKind::Success, res);
    let expected_head = vec![
        JournalNote::GasBurned { message_id: MSG, amount: 500 },
        JournalNote::ReserveGas { message_id: MSG, reservation_id: r1, program_id: PROGRAM, amount: 100, duration: 5 },
        JournalNote::UnreserveGas { reservation_id: r3, program_id: PROGRAM, expiration: 7 },
        JournalNote::UpdateGasReservations { program_id: PROGRAM, reserver },
        JournalNote::StoreNewPrograms {
            program_id: PROGRAM,
            code_id: CodeId([40; 32]),
            candidates: vec![(MessageId([41; 32]), ProgramId([21; 32]))],
        },
    ];
    assert_eq!(j[..5].to_vec(), expected_head);
    assert!(is_auto_reply(&j[5]));
    let expected_tail = vec![
        JournalNote::ReplyDeposit { message_id: MSG, future_reply_to: MessageId([20; 32]), amount: 66 },
        JournalNote::SendDispatch { message_id: MSG, dispatch: OutgoingDispatch::Program(sent), delay: 3, reservation: Some(r1) },
        JournalNote::WakeMessage { message_id: MSG, program_id: PROGRAM, awakening_id: MessageId([50; 32]), delay: 2 },
        JournalNote::UpdatePage { program_id: PROGRAM, page_number: 1, data: vec![9; 4] },
        JournalNote::UpdatePage { program_id: PROGRAM, page_number: 2, data: vec![8; 4] },
        JournalNote::UpdateAllocations { program_id: PROGRAM, allocations: vec![0, 1, 2] },
        JournalNote::MessageDispatched {
            message_id: MSG,
            source: USER,
            outcome: DispatchOutcome::InitSuccess { program_id: PROGRAM },
        },
        JournalNote::MessageConsumed(MSG),
    ];
    assert_eq!(j[6..].to_vec(), expected_tail);
}

#[test]
fn explicit_reply_suppresses_auto_reply() {
    let d = dispatch(DispatchKind::Handle, 0, None, None);
    let mut res = result(DispatchResultKind::Success, d, None);
    res.reply_sent = true;
    let j = process_success(SuccessfulDispatchResultKind::Success, res);
    assert_eq!(count(&j, is_auto_reply), 0);
    assert_eq!(j.len(), 3);
}

#[test]
fn reasons_map_to_short_forms() {
    let cases = vec![
        (TrapExplanation::GasLimitExceeded, SimpleExecutionError::RanOutOfGas),
        (TrapExplanation::ForbiddenFunction, SimpleExecutionError::BackendError),
        (TrapExplanation::ProgramAllocOutOfBounds, SimpleExecutionError::MemoryOverflow),
        (TrapExplanation::Panic, SimpleExecutionError::UserspacePanic),
        (TrapExplanation::StackLimitExceeded, SimpleExecutionError::StackLimitExceeded),
        (TrapExplanation::Unknown, SimpleExecutionError::UnreachableInstruction),
    ];
    for (t, s) in cases {
        assert_eq!(ActorExecutionErrorReplyReason::Trap(t).as_simple(), s);
    }
    assert_eq!(ActorExecutionErrorReplyReason::Environment.as_simple(), SimpleExecutionError::Unsupported);
    let (reason, text) = ProcessErrorCase::NonExecutable.to_reason_and_payload();
    assert_eq!(reason, ErrorReplyReason::InactiveActor);
    assert_eq!(text, "Message sent to an inactive actor");
    let (reason, text) = ProcessErrorCase::ReinstrumentationFailed.to_reason_and_payload();
    assert_eq!(reason, ErrorReplyReason::ReinstrumentationFailure);
    assert_eq!(text, "Program re-instrumentation failed");
    let (reason, text) = ProcessErrorCase::ExecutionFailed(ActorExecutionErrorReplyReason::Trap(TrapExplanation::Panic))
        .to_reason_and_payload();
    assert_eq!(reason, ErrorReplyReason::Execution(SimpleExecutionError::UserspacePanic));
    assert_eq!(text, "Panic occurred");
}

#[test]
fn reservation_context_from_dispatch() {
    let d = dispatch(DispatchKind::Handle, 0, None, Some(context(Some(6))));
    let ctx = SystemReservationContext::from_dispatch(&d);
    assert_eq!(ctx, SystemReservationContext { current_reservation: None, previous_reservation: Some(6) });
    assert!(ctx.has_any());
    let d = dispatch(DispatchKind::Handle, 0, None, None);
    assert!(!SystemReservationContext::from_dispatch(&d).has_any());
}

#[test]
fn reply_and_error_reply_are_recognised() {
    let plain = dispatch(DispatchKind::Handle, 0, None, None);
    assert!(!plain.message.is_reply());
    let ok = dispatch(DispatchKind::Reply, 0, reply_details(ReplyCode::Success(SuccessReplyReason::Manual)), None);
    assert!(ok.message.is_reply());
    assert!(!ok.message.is_error_reply());
    let err = dispatch(DispatchKind::Reply, 0, reply_details(ReplyCode::Error(ErrorReplyReason::RemovedFromWaitlist)), None);
    assert!(err.message.is_error_reply());
}

#[test]
fn context_fees_follow_write_cost() {
    assert_eq!(
        message_context_settings(10, 1024, 64),
        ContextSettings {
            sending_fee: 20,
            scheduled_sending_fee: 40,
            waiting_fee: 30,
            waking_fee: 20,
            reservation_fee: 20,
            outgoing_limit: 1024,
            outgoing_bytes_limit: 64,
        }
    );
    let saturated = message_context_settings(u64::MAX / 3, 0, 0);
    assert_eq!(saturated.sending_fee, (u64::MAX / 3) * 2);
    assert_eq!(saturated.waiting_fee, (u64::MAX / 3) * 3);
    assert_eq!(saturated.scheduled_sending_fee, u64::MAX);
}

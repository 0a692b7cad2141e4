//! Messages and dispatches: what a program receives, and what it leaves behind.
use vstd::prelude::*;

use crate::ids::{MessageId, ProgramId};

verus! {

/// Entry point of a program that a dispatch is delivered to.
#[derive(Clone, Copy, Debug, PartialEq, Eq)]
pub enum DispatchKind {
    Init,
    Handle,
    Reply,
    Signal,
}

/// Execution error in the short form that replies and signals carry.
#[derive(Clone, Copy, Debug, PartialEq, Eq)]
pub enum SimpleExecutionError {
    RanOutOfGas,
    MemoryOverflow,
    BackendError,
    UserspacePanic,
    UnreachableInstruction,
    StackLimitExceeded,
    Unsupported,
}

/// Why a reply reports an error.
#[derive(Clone, Copy, Debug, PartialEq, Eq)]
pub enum ErrorReplyReason {
    Execution(SimpleExecutionError),
    FailedToCreateProgram,
    InactiveActor,
    RemovedFromWaitlist,
    ReinstrumentationFailure,
    Unsupported,
}

/// Why a reply reports success.
#[derive(Clone, Copy, Debug, PartialEq, Eq)]
pub enum SuccessReplyReason {
    /// Sent by the system on the program's behalf.
    Auto,
    /// Sent by the program itself.
    Manual,
    Unsupported,
}

/// Code carried by every reply.
#[derive(Clone, Copy, Debug, PartialEq, Eq)]
pub enum ReplyCode {
    Success(SuccessReplyReason),
    Error(ErrorReplyReason),
    Unsupported,
}

/// Code carried by a signal.
#[derive(Clone, Copy, Debug, PartialEq, Eq)]
pub enum SignalCode {
    Execution(SimpleExecutionError),
    RemovedFromWaitlist,
}

/// What a reply answers, and how.
#[derive(Clone, Copy, Debug, PartialEq, Eq)]
pub struct ReplyDetails {
    pub to: MessageId,
    pub code: ReplyCode,
}

/// What a signal is about, and its code.
#[derive(Clone, Copy, Debug, PartialEq, Eq)]
pub struct SignalDetails {
    pub to: MessageId,
    pub code: SignalCode,
}

/// Marks a message as a reply or as a signal.
#[derive(Clone, Copy, Debug, PartialEq, Eq)]
pub enum MessageDetails {
    Reply(ReplyDetails),
    Signal(SignalDetails),
}

/// Execution context kept while a dispatch waits, and restored when it resumes.
#[derive(Clone, Debug, PartialEq, Eq)]
pub struct ContextStore {
    /// Programs initialized by the waiting execution.
    pub initialized: Vec<ProgramId>,
    /// Payload of a reply that the execution started to build.
    pub reply: Option<Vec<u8>>,
    pub reservation_nonce: u64,
    /// Gas that the execution set aside for a signal.
    pub system_reservation: Option<u64>,
    pub local_nonce: u32,
}

/// A message as it arrives at a program.
#[derive(Clone, Debug, PartialEq, Eq)]
pub struct IncomingMessage {
    pub id: MessageId,
    pub source: ProgramId,
    pub payload: Vec<u8>,
    pub gas_limit: u64,
    pub value: u128,
    pub details: Option<MessageDetails>,
}

/// A message with its entry point, and the context of an earlier,
/// suspended execution when it resumes after a wait.
#[derive(Clone, Debug, PartialEq, Eq)]
pub struct IncomingDispatch {
    pub kind: DispatchKind,
    pub message: IncomingMessage,
    pub context: Option<ContextStore>,
}

/// A message sent by a program during its execution.
#[derive(Clone, Debug, PartialEq, Eq)]
pub struct Message {
    pub id: MessageId,
    pub source: ProgramId,
    pub destination: ProgramId,
    pub payload: Vec<u8>,
    pub gas_limit: Option<u64>,
    pub value: u128,
    pub details: Option<MessageDetails>,
}

/// A message sent by a program, with its entry point.
#[derive(Clone, Debug, PartialEq, Eq)]
pub struct Dispatch {
    pub kind: DispatchKind,
    pub message: Message,
}

/// A reply produced by the system on a program's behalf.
///
/// The id of a reply is derived from the id of the message it answers,
/// `reply_to`; that derivation belongs to the identifier layer, which
/// applies it when the reply is stored.
#[derive(Clone, Copy, Debug, PartialEq, Eq)]
pub struct ReplyMessage {
    pub reply_to: MessageId,
    pub source: ProgramId,
    pub destination: ProgramId,
    /// The reply's payload, as text; its bytes are sent.
    pub payload: &'static str,
    pub value: u128,
    pub code: ReplyCode,
}

/// A dispatch to be queued.
#[derive(Clone, Debug, PartialEq, Eq)]
pub enum OutgoingDispatch {
    /// Sent by the program during its execution.
    Program(Dispatch),
    /// Produced by the system: an error reply or an automatic reply.
    SystemReply(ReplyMessage),
}

/// A message in the form in which it is kept in storage.
#[derive(Clone, Debug, PartialEq, Eq)]
pub struct StoredMessage {
    pub id: MessageId,
    pub source: ProgramId,
    pub destination: ProgramId,
    pub payload: Vec<u8>,
    pub value: u128,
    pub details: Option<MessageDetails>,
}

/// A dispatch in the form in which it is kept in storage.
#[derive(Clone, Debug, PartialEq, Eq)]
pub struct StoredDispatch {
    pub kind: DispatchKind,
    pub message: StoredMessage,
    pub context: Option<ContextStore>,
}

/// How a program asked to wait.
#[derive(Clone, Copy, Debug, PartialEq, Eq)]
pub enum MessageWaitedType {
    Wait,
    WaitFor,
    WaitUpTo,
    WaitUpToFull,
}

impl IncomingMessage {
    pub open spec fn spec_is_reply(&self) -> bool {
        self.details matches Some(MessageDetails::Reply(_))
    }

    pub open spec fn spec_is_error_reply(&self) -> bool {
        self.details matches Some(MessageDetails::Reply(d)) && d.code is Error
    }

    /// Whether this message is a reply.
    pub fn is_reply(&self) -> (r: bool)
        ensures
            r == self.spec_is_reply(),
    {
        match &self.details {
            Some(MessageDetails::Reply(_)) => true,
            _ => false,
        }
    }

    /// Whether this message is a reply that reports an error.
    pub fn is_error_reply(&self) -> (r: bool)
        ensures
            r == self.spec_is_error_reply(),
    {
        match &self.details {
            Some(MessageDetails::Reply(d)) => match d.code {
                ReplyCode::Error(_) => true,
                _ => false,
            },
            _ => false,
        }
    }

    pub open spec fn spec_into_stored(self, destination: ProgramId) -> StoredMessage {
        StoredMessage {
            id: self.id,
            source: self.source,
            destination,
            payload: self.payload,
            value: self.value,
            details: self.details,
        }
    }

    /// The stored form of this message, addressed to `destination`.
    pub fn into_stored(self, destination: ProgramId) -> (r: StoredMessage)
        ensures
            r == self.spec_into_stored(destination),
    {
        StoredMessage {
            id: self.id,
            source: self.source,
            destination,
            payload: self.payload,
            value: self.value,
            details: self.details,
        }
    }
}

impl IncomingDispatch {
    pub open spec fn spec_into_stored(self, destination: ProgramId, context: Option<ContextStore>) -> StoredDispatch {
        StoredDispatch {
            kind: self.kind,
            message: self.message.spec_into_stored(destination),
            context,
        }
    }

    /// The stored form of this dispatch, addressed to `destination` and
    /// holding `context`.
    pub fn into_stored(self, destination: ProgramId, context: Option<ContextStore>) -> (r: StoredDispatch)
        ensures
            r == self.spec_into_stored(destination, context),
    {
        StoredDispatch {
            kind: self.kind,
            message: self.message.into_stored(destination),
            context,
        }
    }
}

} // verus!

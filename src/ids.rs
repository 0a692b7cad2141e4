//! Identifiers of messages, programs, codes and gas reservations.
use vstd::prelude::*;

verus! {

/// Identifier of a message.
#[derive(Clone, Copy, Debug, PartialEq, Eq)]
pub struct MessageId(pub [u8; 32]);

/// Identifier of an actor: a program or a user.
#[derive(Clone, Copy, Debug, PartialEq, Eq)]
pub struct ProgramId(pub [u8; 32]);

/// Identifier of a program's code.
#[derive(Clone, Copy, Debug, PartialEq, Eq)]
pub struct CodeId(pub [u8; 32]);

/// Identifier of a gas reservation.
#[derive(Clone, Copy, Debug, PartialEq, Eq)]
pub struct ReservationId(pub [u8; 32]);

} // verus!

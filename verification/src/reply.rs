//! Reply slots: the single-use handoff through which the executor answers a
//! query, and what the handler makes of the answer or of its absence.

use vstd::prelude::*;
use tokio::sync::oneshot::error::RecvError;
use tokio::sync::oneshot::Receiver;
use tokio::sync::oneshot::Sender;
use crate::error::{Error, ErrorKind, ErrorView};

verus! {

/// The writing end of a reply slot. Writing consumes it, so a slot is
/// written at most once.
#[verifier::external_type_specification]
#[verifier::external_body]
#[verifier::reject_recursive_types(T)]
pub struct ExSender<T>(Sender<T>);

/// The reading end of a reply slot.
#[verifier::external_type_specification]
#[verifier::external_body]
#[verifier::reject_recursive_types(T)]
pub struct ExReceiver<T>(Receiver<T>);

/// What the reading end gives where the writing end was dropped unwritten.
#[verifier::external_type_specification]
#[verifier::external_body]
pub struct ExRecvError(RecvError);

/// `tokio::sync::oneshot::channel`: a fresh slot, as its writing and its
/// reading end. Nothing is claimed of either.
#[verifier::external_body]
pub(crate) fn open_slot<T>() -> (ends: (Sender<T>, Receiver<T>)) {
    tokio::sync::oneshot::channel()
}

/// `tokio::sync::oneshot::Sender::send`: writes the value into the slot. The
/// call does not block. Where the reading end is gone the value is not
/// written and comes back; whether it is gone is not claimed.
#[verifier::external_body]
pub(crate) fn write_slot<T>(slot: Sender<T>, value: T) -> (returned: Option<T>)
    ensures
        returned matches Some(v) ==> v == value,
{
    slot.send(value).err()
}

/// How the wait for a reply ended.
#[derive(Clone, Debug, PartialEq, Eq)]
pub enum QueryReply<T> {
    /// The executor wrote this value.
    Value(T),
    /// The bound of the wait passed before anything was written.
    TimedOut,
    /// The writing end was dropped without a write.
    Closed,
    /// The query could not be handed to the executor at all.
    NotSent,
}

/// Bound of the wait for one reply, in milliseconds.
pub const QUERY_TIMEOUT_MS: u64 = 1000;

/// What a query gives its caller: the value that was written, a timeout
/// error where the bound passed first, an internal error where the slot was
/// closed unwritten or the query never reached the executor.
pub fn query_result<T>(reply: QueryReply<T>) -> (result: Result<T, Error>)
    ensures
        match reply {
            QueryReply::Value(v) => result == Ok::<T, Error>(v),
            QueryReply::TimedOut => result is Err && result->Err_0@ == (ErrorView {
                kind: ErrorKind::Timeout,
                message: Seq::empty(),
            }),
            QueryReply::Closed | QueryReply::NotSent => result is Err && result->Err_0@ == (
            ErrorView { kind: ErrorKind::Internal, message: Seq::empty() }),
        },
{
    match reply {
        QueryReply::Value(v) => Ok(v),
        QueryReply::TimedOut => Err(Error::bare(ErrorKind::Timeout)),
        QueryReply::Closed => Err(Error::bare(ErrorKind::Internal)),
        QueryReply::NotSent => Err(Error::bare(ErrorKind::Internal)),
    }
}

} // verus!

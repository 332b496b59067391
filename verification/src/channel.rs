//! The bounded channel on which the arms of a race publish their outcomes,
//! taken from `futures`.
//!
//! Nothing here is proved: each function below makes one call into the
//! outside crate, and its contract is taken on trust. What a read finds in
//! the channel depends on what the arms have published by then, so nothing
//! is claimed of it.

use crate::error::Error;
use crate::services::Address;
use crate::race::Read;
use futures::channel::mpsc::{Receiver, Sender};
use vstd::prelude::*;

verus! {

/// `futures::channel::mpsc::Sender`, carried through without a look inside.
#[verifier::external_type_specification]
#[verifier::external_body]
#[verifier::reject_recursive_types(T)]
pub struct ExSender<T>(futures::channel::mpsc::Sender<T>);

/// `futures::channel::mpsc::Receiver`, carried through without a look
/// inside.
#[verifier::external_type_specification]
#[verifier::external_body]
#[verifier::reject_recursive_types(T)]
pub struct ExReceiver<T>(futures::channel::mpsc::Receiver<T>);

/// The number of slots, shared by all senders, that a channel was made
/// with. Each sender has one more slot of its own.
pub uninterp spec fn buffer(rx: Receiver<Result<Address, Error>>) -> nat;

/// `futures::channel::mpsc::channel`: makes a channel with `buffer` shared
/// slots. The outside function panics on a buffer of a quarter of the
/// address space or more, which `requires` leaves out.
#[verifier::external_body]
pub(crate) fn bounded(slots: usize) -> (ends: (
    Sender<Result<Address, Error>>,
    Receiver<Result<Address, Error>>,
))
    requires
        4 * slots + 4 <= usize::MAX,
    ensures
        buffer(ends.1) == slots,
{
    futures::channel::mpsc::channel(slots)
}

/// `futures::channel::mpsc::Receiver::try_next`: takes the next outcome
/// off the channel without waiting. It tells an outcome from a channel
/// that is closed and drained, and from one that is empty but still open.
#[verifier::external_body]
#[allow(deprecated)]
pub(crate) fn try_next(rx: &mut Receiver<Result<Address, Error>>) -> Read {
    match rx.try_next() {
        Ok(Some(outcome)) => Read::Outcome(outcome),
        Ok(None) => Read::Closed,
        Err(_) => Read::Empty,
    }
}

} // verus!

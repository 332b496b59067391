//! Resolves a Brazilian postal code to an address by racing three lookup
//! services and keeping the first one that answers.
//!
//! The library decides; it performs no I/O. A caller runs the three
//! lookups side by side, lets each arm publish its outcome on the channel
//! that [`open_channel`] makes, and asks [`get_address`] for the verdict.

pub mod channel;
pub mod error;
pub mod race;
pub mod services;
pub mod text;
pub mod transport;

use crate::channel::{bounded, buffer, try_next};
use crate::error::{Error, ErrorView};
use crate::race::{Race, RaceView, ReadView};
use crate::services::{Address, AddressView};
use futures::channel::mpsc::{Receiver, Sender};
use vstd::prelude::*;

verus! {

/// The number of services that are raced.
pub const SERVICES: usize = 3;

/// The settle delay, in seconds, used where the caller names none.
pub const DEFAULT_SETTLE_DELAY: u64 = 2;

/// The smallest settle delay, in seconds, that a caller can obtain.
pub const MINIMUM_SETTLE_DELAY: u64 = 1;

/// The settle delay that a request for `requested` seconds obtains.
pub open spec fn effective_delay(requested: Option<u64>) -> u64 {
    match requested {
        None => DEFAULT_SETTLE_DELAY,
        Some(seconds) => if seconds < MINIMUM_SETTLE_DELAY {
            MINIMUM_SETTLE_DELAY
        } else {
            seconds
        },
    }
}

/// Settles the delay, in seconds, that a failed arm waits before it ends:
/// the default where none is asked for, the minimum where less is asked
/// for, and else what is asked for.
pub fn settle_delay(requested: Option<u64>) -> (seconds: u64)
    ensures
        seconds == effective_delay(requested),
{
    match requested {
        None => DEFAULT_SETTLE_DELAY,
        Some(seconds) => if seconds < MINIMUM_SETTLE_DELAY {
            MINIMUM_SETTLE_DELAY
        } else {
            seconds
        },
    }
}

/// An outcome seen through the views of its address and of its failure.
pub open spec fn outcome_view(outcome: Result<Address, Error>) -> Result<AddressView, ErrorView> {
    match outcome {
        Ok(address) => Ok(address@),
        Err(e) => Err(e@),
    }
}

/// What an arm does once its lookup has ended: it publishes `outcome` on
/// the channel at once and then, where `pause` holds a number of seconds,
/// waits that long before it ends.
#[derive(Debug)]
pub struct Publication {
    pub outcome: Result<Address, Error>,
    pub pause: Option<u64>,
}

/// The mathematical content of a [`Publication`].
pub struct PublicationView {
    pub outcome: Result<AddressView, ErrorView>,
    pub pause: Option<u64>,
}

impl View for Publication {
    type V = PublicationView;

    open spec fn view(&self) -> PublicationView {
        PublicationView { outcome: outcome_view(self.outcome), pause: self.pause }
    }
}

/// What an arm does with a lookup that ended in `outcome`, already in
/// canonical form: a success is published and the arm ends; a failure is
/// published and the arm waits for the settle delay.
pub open spec fn publication(
    outcome: Result<AddressView, ErrorView>,
    settle: u64,
) -> PublicationView {
    PublicationView {
        outcome,
        pause: if outcome is Err {
            Some(settle)
        } else {
            None
        },
    }
}

/// The arm of Viacep: what to do once its lookup has ended in `lookup`.
pub fn viacep_arm(lookup: Result<services::viacep::Address, Error>, settle: u64) -> (p: Publication)
    ensures
        p@ == publication(
            match lookup {
                Ok(address) => Ok(address@.normalized()),
                Err(e) => Err(e@),
            },
            settle,
        ),
{
    match lookup {
        Ok(address) => Publication { outcome: Ok(address.to_address()), pause: None },
        Err(e) => Publication { outcome: Err(e), pause: Some(settle) },
    }
}

/// The arm of CepLá: what to do once its lookup has ended in `lookup`.
pub fn cepla_arm(lookup: Result<services::cepla::Address, Error>, settle: u64) -> (p: Publication)
    ensures
        p@ == publication(
            match lookup {
                Ok(address) => Ok(address@.normalized()),
                Err(e) => Err(e@),
            },
            settle,
        ),
{
    match lookup {
        Ok(address) => Publication { outcome: Ok(address.to_address()), pause: None },
        Err(e) => Publication { outcome: Err(e), pause: Some(settle) },
    }
}

/// The arm of Correios: what to do once its lookup has ended in `lookup`.
pub fn correios_arm(lookup: Result<services::correios::Address, Error>, settle: u64) -> (p:
    Publication)
    ensures
        p@ == publication(
            match lookup {
                Ok(address) => Ok(address@.normalized()),
                Err(e) => Err(e@),
            },
            settle,
        ),
{
    match lookup {
        Ok(address) => Publication { outcome: Ok(address.to_address()), pause: None },
        Err(e) => Publication { outcome: Err(e), pause: Some(settle) },
    }
}

/// Makes the channel on which the arms publish: one shared slot for each
/// service, so that no arm ever waits for room.
pub fn open_channel() -> (ends: (Sender<Result<Address, Error>>, Receiver<Result<Address, Error>>))
    ensures
        buffer(ends.1) == SERVICES,
{
    bounded(SERVICES)
}

/// Decides the race from what the arms have published on `rx`. It reads
/// the channel without waiting, three times at most, and stops at the
/// first read that ends the race: the first success wins; three failures
/// end it as the failure of all services; an empty channel ends it as the
/// library's own failure.
pub fn get_address(rx: &mut Receiver<Result<Address, Error>>) -> (r: Result<Address, Error>)
    ensures
        exists|reads: Seq<ReadView>|
            1 <= reads.len() <= SERVICES && #[trigger] RaceView::run(reads).verdict() == Some(
                outcome_view(r),
            ),
{
    let mut race = Race::new();
    let ghost mut reads: Seq<ReadView> = seq![];
    let mut n: usize = 0;
    while n < SERVICES && race.is_racing()
        invariant
            n <= SERVICES,
            reads.len() == n,
            race@ == RaceView::run(reads),
            race@ matches RaceView::Racing(failures) ==> failures.len() == n,
            n == 0 ==> race@ is Racing,
        decreases SERVICES - n,
    {
        let read = try_next(rx);
        proof {
            let before = reads;
            reads = reads.push(read@);
            assert(reads.drop_last() =~= before);
        }
        race = race.step(read);
        n = n + 1;
    }
    match race.verdict() {
        Some(outcome) => outcome,
        // Not reached: a race is over after three reads.
        None => Err(Error::internal()),
    }
}

} // verus!

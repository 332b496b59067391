//! The race as a state machine: what each read of the channel does to it,
//! and what holds of every run.

use crate::error::{Error, ErrorView, KindView, Source};
use crate::services::{Address, AddressView};
use crate::{outcome_view, SERVICES};
use vstd::prelude::*;

verus! {

/// What one read of the channel found.
#[derive(Debug)]
pub enum Read {
    /// The outcome that an arm published.
    Outcome(Result<Address, Error>),
    /// Nothing, and nothing will come: the channel is closed and drained.
    Closed,
    /// Nothing yet: the channel is empty though arms may still publish.
    Empty,
}

/// The mathematical content of a [`Read`].
pub enum ReadView {
    Outcome(Result<AddressView, ErrorView>),
    Closed,
    Empty,
}

impl View for Read {
    type V = ReadView;

    open spec fn view(&self) -> ReadView {
        match *self {
            Read::Outcome(outcome) => ReadView::Outcome(outcome_view(outcome)),
            Read::Closed => ReadView::Closed,
            Read::Empty => ReadView::Empty,
        }
    }
}

/// The failures collected while a race is still open: fewer than three.
#[derive(Debug)]
pub enum Failures {
    Zero,
    One(Error),
    Two(Error, Error),
}

impl View for Failures {
    type V = Seq<ErrorView>;

    open spec fn view(&self) -> Seq<ErrorView> {
        match *self {
            Failures::Zero => seq![],
            Failures::One(first) => seq![first@],
            Failures::Two(first, second) => seq![first@, second@],
        }
    }
}

/// The state of a race. It starts in `Racing` with no failure; the other
/// three states are final.
#[derive(Debug)]
pub enum Race {
    /// No success yet, and fewer than three failures.
    Racing(Failures),
    /// A service answered: the race is won with its address.
    Resolved(Address),
    /// Every service failed; the failures are in the order they were read.
    AllFailed(Error, Error, Error),
    /// A read found the channel empty while outcomes were still owed.
    Internal,
}

/// The mathematical content of a [`Race`].
pub enum RaceView {
    Racing(Seq<ErrorView>),
    Resolved(AddressView),
    AllFailed(ErrorView, ErrorView, ErrorView),
    Internal,
}

impl View for Race {
    type V = RaceView;

    open spec fn view(&self) -> RaceView {
        match *self {
            Race::Racing(failures) => RaceView::Racing(failures@),
            Race::Resolved(address) => RaceView::Resolved(address@),
            Race::AllFailed(first, second, third) => RaceView::AllFailed(first@, second@, third@),
            Race::Internal => RaceView::Internal,
        }
    }
}

impl ReadView {
    /// Whether the read adds a failure to the race, and lets it go on.
    pub open spec fn is_failure(self) -> bool {
        self is Closed || (self matches ReadView::Outcome(outcome) && outcome is Err)
    }

    /// The failure that the read adds: the one an arm published, or the
    /// library's own where the channel was closed before its time.
    pub open spec fn failure(self) -> ErrorView
        recommends
            self.is_failure(),
    {
        match self {
            ReadView::Outcome(Err(e)) => e,
            _ => ErrorView::internal(),
        }
    }
}

impl RaceView {
    /// The state in which every race starts.
    pub open spec fn start() -> RaceView {
        RaceView::Racing(seq![])
    }

    /// Whether the race is over.
    pub open spec fn is_final(self) -> bool {
        !(self is Racing)
    }

    /// The state with one more failure collected: final once there are
    /// three.
    pub open spec fn collect(failures: Seq<ErrorView>, failure: ErrorView) -> RaceView {
        let all = failures.push(failure);
        if all.len() >= SERVICES {
            RaceView::AllFailed(all[0], all[1], all[2])
        } else {
            RaceView::Racing(all)
        }
    }

    /// The state after one more read. The first success wins; a failure is
    /// collected; an empty channel ends the race as the library's own
    /// failure. A final state stays what it is.
    pub open spec fn step(self, read: ReadView) -> RaceView {
        match self {
            RaceView::Racing(failures) => match read {
                ReadView::Outcome(Ok(address)) => RaceView::Resolved(address),
                ReadView::Outcome(Err(e)) => Self::collect(failures, e),
                ReadView::Closed => Self::collect(failures, ErrorView::internal()),
                ReadView::Empty => RaceView::Internal,
            },
            _ => self,
        }
    }

    /// The state after the given reads, taken in order from the start.
    pub open spec fn run(reads: Seq<ReadView>) -> RaceView
        decreases reads.len(),
    {
        if reads.len() == 0 {
            Self::start()
        } else {
            Self::run(reads.drop_last()).step(reads.last())
        }
    }

    /// What the caller is told once the race is over, and nothing before.
    pub open spec fn verdict(self) -> Option<Result<AddressView, ErrorView>> {
        match self {
            RaceView::Racing(_) => None,
            RaceView::Resolved(address) => Some(Ok(address)),
            RaceView::AllFailed(first, second, third) => Some(
                Err(ErrorView::all_failed(first, second, third)),
            ),
            RaceView::Internal => Some(Err(ErrorView::internal())),
        }
    }
}

impl Failures {
    /// Collects one more failure: the race goes on with it, or ends as
    /// `AllFailed` where it is the third.
    pub fn collect(self, failure: Error) -> (race: Race)
        ensures
            race@ == RaceView::collect(self@, failure@),
    {
        match self {
            Failures::Zero => {
                let race = Race::Racing(Failures::One(failure));
                assert(race@->Racing_0 =~= seq![].push(failure@));
                race
            },
            Failures::One(first) => {
                let race = Race::Racing(Failures::Two(first, failure));
                assert(race@->Racing_0 =~= seq![first@].push(failure@));
                race
            },
            Failures::Two(first, second) => Race::AllFailed(first, second, failure),
        }
    }
}

impl Race {
    /// The state in which every race starts: racing, with no failure.
    pub fn new() -> (race: Race)
        ensures
            race@ == RaceView::start(),
    {
        Race::Racing(Failures::Zero)
    }

    /// Whether the race is still open.
    pub fn is_racing(&self) -> (racing: bool)
        ensures
            racing == !self@.is_final(),
    {
        match self {
            Race::Racing(_) => true,
            _ => false,
        }
    }

    /// Takes one more read into account.
    pub fn step(self, read: Read) -> (race: Race)
        ensures
            race@ == self@.step(read@),
    {
        match self {
            Race::Racing(failures) => match read {
                Read::Outcome(Ok(address)) => Race::Resolved(address),
                Read::Outcome(Err(e)) => failures.collect(e),
                Read::Closed => failures.collect(Error::internal()),
                Read::Empty => Race::Internal,
            },
            Race::Resolved(address) => Race::Resolved(address),
            Race::AllFailed(first, second, third) => Race::AllFailed(first, second, third),
            Race::Internal => Race::Internal,
        }
    }

    /// What the caller is told: the winning address, the failure of all
    /// three services with each failure put into words, or the library's
    /// own failure. Nothing while the race is open.
    pub fn verdict(self) -> (verdict: Option<Result<Address, Error>>)
        ensures
            match verdict {
                Some(outcome) => self@.verdict() == Some(outcome_view(outcome)),
                None => self@.verdict() is None,
            },
    {
        match self {
            Race::Racing(_) => None,
            Race::Resolved(address) => Some(Ok(address)),
            Race::AllFailed(first, second, third) => Some(
                Err(Error::all_failed(&first, &second, &third)),
            ),
            Race::Internal => Some(Err(Error::internal())),
        }
    }
}

/// The failures that a run of failed reads adds, in the order of the reads.
pub open spec fn failures_of(reads: Seq<ReadView>) -> Seq<ErrorView> {
    Seq::new(reads.len(), |i: int| reads[i].failure())
}

/// A race that has read fewer than three outcomes, all of them failures,
/// is still open and holds exactly those failures, in the order read.
pub proof fn lemma_failures_keep_racing(reads: Seq<ReadView>)
    requires
        reads.len() < SERVICES,
        forall|i: int| 0 <= i < reads.len() ==> (#[trigger] reads[i]).is_failure(),
    ensures
        RaceView::run(reads) == RaceView::Racing(failures_of(reads)),
    decreases reads.len(),
{
    if reads.len() == 0 {
        assert(failures_of(reads) =~= seq![]);
    } else {
        let before = reads.drop_last();
        lemma_failures_keep_racing(before);
        assert(failures_of(before).push(reads.last().failure()) =~= failures_of(reads));
    }
}

/// A race that is over stays as it is, whatever is read after.
pub proof fn lemma_final_is_kept(reads: Seq<ReadView>, after: Seq<ReadView>)
    requires
        RaceView::run(reads).is_final(),
    ensures
        RaceView::run(reads + after) == RaceView::run(reads),
    decreases after.len(),
{
    if after.len() == 0 {
        assert(reads + after =~= reads);
    } else {
        lemma_final_is_kept(reads, after.drop_last());
        assert((reads + after).drop_last() =~= reads + after.drop_last());
    }
}

/// Every race is over after three reads, so deciding one never takes more:
/// while a race is open it has collected one failure for each read.
pub proof fn lemma_three_reads_decide(reads: Seq<ReadView>)
    ensures
        RaceView::run(reads) matches RaceView::Racing(failures) ==> failures.len() == reads.len()
            && reads.len() < SERVICES,
        reads.len() >= SERVICES ==> RaceView::run(reads).is_final(),
    decreases reads.len(),
{
    if reads.len() > 0 {
        lemma_three_reads_decide(reads.drop_last());
    }
}

/// The first success wins. Where a success is read after fewer than three
/// reads, all of them failures, the verdict is that success, whatever the
/// other arms publish afterwards.
pub proof fn lemma_first_success_wins(
    before: Seq<ReadView>,
    address: AddressView,
    after: Seq<ReadView>,
)
    requires
        before.len() < SERVICES,
        forall|i: int| 0 <= i < before.len() ==> (#[trigger] before[i]).is_failure(),
    ensures
        RaceView::run(before.push(ReadView::Outcome(Ok(address))) + after).verdict() == Some(
            Ok::<AddressView, ErrorView>(address),
        ),
{
    let decisive = before.push(ReadView::Outcome(Ok(address)));
    lemma_failures_keep_racing(before);
    assert(decisive.drop_last() =~= before);
    assert(RaceView::run(decisive) == RaceView::Resolved(address));
    lemma_final_is_kept(decisive, after);
}

/// Where the first three reads are failures, the verdict is the failure of
/// all services. It carries exactly those three failures put into words,
/// in the order they were read, whatever is read afterwards.
pub proof fn lemma_three_failures_fail_all(reads: Seq<ReadView>, after: Seq<ReadView>)
    requires
        reads.len() == SERVICES,
        forall|i: int| 0 <= i < reads.len() ==> (#[trigger] reads[i]).is_failure(),
    ensures
        RaceView::run(reads + after).verdict() == Some(
            Err::<AddressView, ErrorView>(
                ErrorView::all_failed(reads[0].failure(), reads[1].failure(), reads[2].failure()),
            ),
        ),
        RaceView::run(reads + after).verdict() matches Some(Err(e)) && e.source
            == Source::LagoinhaLib && e.kind
            == (KindView::AllServicesRetunedErrors {
            e1: reads[0].failure().message(),
            e2: reads[1].failure().message(),
            e3: reads[2].failure().message(),
        }),
{
    let before = reads.drop_last();
    lemma_failures_keep_racing(before);
    assert(failures_of(before).push(reads.last().failure()) =~= failures_of(reads));
    assert(RaceView::run(reads) == RaceView::AllFailed(
        reads[0].failure(),
        reads[1].failure(),
        reads[2].failure(),
    ));
    lemma_final_is_kept(reads, after);
}

/// A read that finds the channel empty while the race is open ends it as
/// the library's own failure, never as an address.
pub proof fn lemma_empty_read_is_internal(before: Seq<ReadView>, after: Seq<ReadView>)
    requires
        before.len() < SERVICES,
        forall|i: int| 0 <= i < before.len() ==> (#[trigger] before[i]).is_failure(),
    ensures
        RaceView::run(before.push(ReadView::Empty) + after).verdict() == Some(
            Err::<AddressView, ErrorView>(ErrorView::internal()),
        ),
{
    let decisive = before.push(ReadView::Empty);
    lemma_failures_keep_racing(before);
    assert(decisive.drop_last() =~= before);
    lemma_final_is_kept(decisive, after);
}

} // verus!

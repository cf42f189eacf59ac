//! Waiting until the fullnode has observed transactions: each is polled for, with
//! growing pauses, until it is found or the time is up.
use crate::values::TransactionDigest;
use crate::violation::Violation;
use vstd::prelude::*;

verus! {

/// How much longer each pause is than the one before, in milliseconds.
pub const PAUSE_MILLIS: u64 = 300;

/// One look for a transaction, counted from 1.
#[derive(Clone, Copy, Debug, PartialEq, Eq)]
pub struct Poll {
    pub digest: TransactionDigest,
    pub retry_times: u64,
}

/// What came of a poll.
#[derive(Clone, Copy, Debug, PartialEq, Eq)]
pub struct Attempt {
    pub found: bool,
    /// How long to rest before the poll counts as done, in milliseconds.
    pub pause_millis: u64,
    /// The poll itself, where the transaction was found, and the next one
    /// otherwise.
    pub poll: Poll,
}

impl Attempt {
    pub fn same(&self, other: &Attempt) -> (r: bool)
        ensures
            r == (*self == *other),
    {
        self.found == other.found && self.pause_millis == other.pause_millis
            && self.poll.digest.same(&other.poll.digest) && self.poll.retry_times
            == other.poll.retry_times
    }
}

impl Poll {
    /// The first look for a transaction.
    #[verifier::allow_in_spec]
    pub fn first(digest: TransactionDigest) -> Poll
        returns
            (Poll { digest, retry_times: 1 }),
    {
        Poll { digest, retry_times: 1 }
    }

    /// What comes of the poll, by whether the fullnode knew the transaction.
    pub open spec fn attempted(self, found: bool) -> Result<Attempt, Violation> {
        if found {
            Ok(Attempt { found: true, pause_millis: 0, poll: self })
        } else if self.retry_times * PAUSE_MILLIS > u64::MAX {
            Err(Violation::Assertion("attempt to multiply with overflow"))
        } else {
            Ok(
                Attempt {
                    found: false,
                    pause_millis: (self.retry_times * PAUSE_MILLIS) as u64,
                    poll: Poll {
                        digest: self.digest,
                        retry_times: (self.retry_times + 1) as u64,
                    },
                },
            )
        }
    }

    /// Takes note of whether the fullnode knew the transaction.
    pub fn get_tx_with_retry_times(self, found: bool) -> (r: Result<Attempt, Violation>)
        ensures
            r == self.attempted(found),
    {
        if found {
            return Ok(Attempt { found: true, pause_millis: 0, poll: self });
        }
        match self.retry_times.checked_mul(PAUSE_MILLIS) {
            None => Err(Violation::Assertion("attempt to multiply with overflow")),
            Some(pause_millis) => Ok(
                Attempt {
                    found: false,
                    pause_millis,
                    poll: Poll { digest: self.digest, retry_times: self.retry_times + 1 },
                },
            ),
        }
    }
}

/// What happens while transactions are waited for.
#[derive(Clone, Copy, Debug, PartialEq, Eq)]
pub enum SyncEvent {
    /// The time is up.
    TimeUp,
    /// A poll is done: the one for the digest at `position`.
    Polled { position: usize, attempt: Attempt },
    /// No poll is under way any more.
    Drained,
}

/// The transactions that are waited for.
#[derive(Debug, PartialEq, Eq)]
pub struct FullnodeSync {
    pub digests: Vec<TransactionDigest>,
    pub timeout_sec: u64,
    /// For each digest, the count of the poll under way; none once the
    /// transaction has been found.
    pub pending: Vec<Option<u64>>,
}

/// What to do next for transactions that are waited for.
#[derive(Debug, PartialEq, Eq)]
pub enum SyncNext {
    /// Starts another poll for the digest at a position, and waits.
    Poll(FullnodeSync, usize, Poll),
    /// Waits.
    Wait(FullnodeSync),
    /// Ends: the fullnode knows every transaction.
    Synced,
    /// Ends, and the suite with it.
    Panicked(Violation),
}

/// The digests that were asked for, for how long, and the poll under way for
/// each of them, if any.
#[verifier::ext_equal]
pub struct SyncView {
    pub digests: Seq<TransactionDigest>,
    pub timeout_sec: u64,
    pub pending: Seq<Option<u64>>,
}

/// `SyncNext` in terms of `SyncView`.
pub enum SyncStep {
    Poll(SyncView, usize, Poll),
    Wait(SyncView),
    Synced,
    TimedOut,
    /// The event tells of a poll that is not under way, or of none under way
    /// while there is one.
    OutOfTurn,
}

impl SyncStep {
    /// Whether the wait goes on.
    pub open spec fn goes_on(self) -> bool {
        self is Poll || self is Wait
    }

    /// Where the wait stands as it goes on.
    pub open spec fn state(self) -> SyncView {
        match self {
            SyncStep::Poll(state, _, _) => state,
            SyncStep::Wait(state) => state,
            _ => arbitrary(),
        }
    }
}

impl View for FullnodeSync {
    type V = SyncView;

    open spec fn view(&self) -> SyncView {
        SyncView {
            digests: self.digests@,
            timeout_sec: self.timeout_sec,
            pending: self.pending@,
        }
    }
}

impl SyncView {
    /// The first poll is under way for each digest.
    pub open spec fn started(digests: Seq<TransactionDigest>, timeout_sec: u64) -> SyncView {
        SyncView { digests, timeout_sec, pending: Seq::new(digests.len(), |i: int| Some(1u64)) }
    }

    /// There is room for one poll per digest.
    pub open spec fn wf(self) -> bool {
        self.pending.len() == self.digests.len()
    }

    /// Whether `attempt` is what comes of the poll under way at `position`.
    pub open spec fn in_turn(self, position: usize, attempt: Attempt) -> bool {
        &&& position < self.digests.len()
        &&& self.pending[position as int] matches Some(retry_times)
        &&& (Poll { digest: self.digests[position as int], retry_times }).attempted(attempt.found)
            == Ok::<Attempt, Violation>(attempt)
    }

    /// Whether every transaction has been found.
    pub open spec fn all_found(self) -> bool {
        forall|i: int| 0 <= i < self.pending.len() ==> (#[trigger] self.pending[i]) is None
    }

    pub open spec fn next(self, event: SyncEvent) -> SyncStep {
        match event {
            SyncEvent::TimeUp => SyncStep::TimedOut,
            SyncEvent::Polled { position, attempt } => if !self.in_turn(position, attempt) {
                SyncStep::OutOfTurn
            } else if attempt.found {
                SyncStep::Wait(
                    SyncView { pending: self.pending.update(position as int, None), ..self },
                )
            } else {
                SyncStep::Poll(
                    SyncView {
                        pending: self.pending.update(
                            position as int,
                            Some(attempt.poll.retry_times),
                        ),
                        ..self
                    },
                    position,
                    attempt.poll,
                )
            },
            SyncEvent::Drained => if self.all_found() {
                SyncStep::Synced
            } else {
                SyncStep::OutOfTurn
            },
        }
    }
}

impl FullnodeSync {
    /// There is room for one poll per digest.
    pub open spec fn wf(self) -> bool {
        self@.wf()
    }

    /// Begins to wait for `digests`, for `timeout_sec` seconds at most.
    pub fn new(digests: Vec<TransactionDigest>, timeout_sec: u64) -> (r: FullnodeSync)
        ensures
            r.wf(),
            r.digests == digests,
            r@ == SyncView::started(digests@, timeout_sec),
    {
        let mut pending: Vec<Option<u64>> = Vec::new();
        let mut i: usize = 0;
        while i < digests.len()
            invariant
                i <= digests@.len(),
                pending@ == Seq::new(i as nat, |j: int| Some(1u64)),
            decreases digests@.len() - i,
        {
            pending.push(Some(1));
            i += 1;
            assert(pending@ =~= Seq::new(i as nat, |j: int| Some(1u64)));
        }
        FullnodeSync { digests, timeout_sec, pending }
    }

    /// The polls to start with: one for each digest, in order.
    pub fn first_polls(&self) -> (r: Vec<Poll>)
        ensures
            r@ == self.digests@.map_values(|d: TransactionDigest| Poll::first(d)),
    {
        let ghost first = |d: TransactionDigest| Poll::first(d);
        let mut r: Vec<Poll> = Vec::new();
        let mut i: usize = 0;
        while i < self.digests.len()
            invariant
                i <= self.digests@.len(),
                first == (|d: TransactionDigest| Poll::first(d)),
                r@ == self.digests@.take(i as int).map_values(first),
            decreases self.digests@.len() - i,
        {
            r.push(Poll::first(self.digests[i]));
            i += 1;
            assert(r@ =~= self.digests@.take(i as int).map_values(first));
        }
        assert(self.digests@.take(i as int) =~= self.digests@);
        r
    }

    /// Takes an event.
    pub fn step(self, event: SyncEvent) -> (r: SyncNext)
        requires
            self.wf(),
        ensures
            match self@.next(event) {
                SyncStep::Poll(state, at, poll) => r matches SyncNext::Poll(sync, position, again)
                    && sync@ == state && sync.wf() && position == at && again == poll,
                SyncStep::Wait(state) => r matches SyncNext::Wait(sync) && sync@ == state
                    && sync.wf(),
                SyncStep::Synced => r == SyncNext::Synced,
                SyncStep::TimedOut => r == SyncNext::Panicked(
                    Violation::SyncTimeout {
                        digests: self.digests,
                        timeout_sec: self.timeout_sec,
                    },
                ),
                SyncStep::OutOfTurn => r == SyncNext::Panicked(Violation::UnexpectedReply),
            },
    {
        let FullnodeSync { digests, timeout_sec, pending } = self;
        match event {
            SyncEvent::TimeUp => SyncNext::Panicked(
                Violation::SyncTimeout { digests, timeout_sec },
            ),
            SyncEvent::Polled { position, attempt } => {
                if position >= digests.len() {
                    return SyncNext::Panicked(Violation::UnexpectedReply);
                }
                let expected: Result<Attempt, Violation> = match pending[position] {
                    None => Err(Violation::UnexpectedReply),
                    Some(retry_times) => {
                        let poll: Poll = Poll { digest: digests[position], retry_times };
                        poll.get_tx_with_retry_times(attempt.found)
                    },
                };
                match expected {
                    Err(_) => SyncNext::Panicked(Violation::UnexpectedReply),
                    Ok(expected) => {
                        if !expected.same(&attempt) {
                            return SyncNext::Panicked(Violation::UnexpectedReply);
                        }
                        let mut pending: Vec<Option<u64>> = pending;
                        if attempt.found {
                            pending.set(position, None);
                            SyncNext::Wait(FullnodeSync { digests, timeout_sec, pending })
                        } else {
                            pending.set(position, Some(attempt.poll.retry_times));
                            SyncNext::Poll(
                                FullnodeSync { digests, timeout_sec, pending },
                                position,
                                attempt.poll,
                            )
                        }
                    },
                }
            },
            SyncEvent::Drained => {
                if none_pending(&pending) {
                    SyncNext::Synced
                } else {
                    SyncNext::Panicked(Violation::UnexpectedReply)
                }
            },
        }
    }
}

fn none_pending(pending: &Vec<Option<u64>>) -> (r: bool)
    ensures
        r == forall|i: int| 0 <= i < pending@.len() ==> (#[trigger] pending@[i]) is None,
{
    let mut i: usize = 0;
    while i < pending.len()
        invariant
            i <= pending@.len(),
            forall|j: int| 0 <= j < i ==> (#[trigger] pending@[j]) is None,
        decreases pending@.len() - i,
    {
        if pending[i].is_some() {
            assert(pending@[i as int] is Some);
            return false;
        }
        i += 1;
    }
    true
}

/// Where `digests` stand after the events, from the first polls on.
pub open spec fn after(
    digests: Seq<TransactionDigest>,
    timeout_sec: u64,
    events: Seq<SyncEvent>,
) -> SyncStep
    decreases events.len(),
{
    if events.len() == 0 {
        SyncStep::Wait(SyncView::started(digests, timeout_sec))
    } else {
        let before = after(digests, timeout_sec, events.drop_last());
        if before.goes_on() {
            before.state().next(events.last())
        } else {
            before
        }
    }
}

/// Whether the last of the events was a poll for the digest at `position`, in
/// turn, that found the transaction or not, as `found` says.
pub open spec fn last_polled(
    digests: Seq<TransactionDigest>,
    timeout_sec: u64,
    events: Seq<SyncEvent>,
    position: usize,
    found: bool,
) -> bool {
    &&& after(digests, timeout_sec, events).goes_on()
    &&& events.last() matches SyncEvent::Polled { position: p, attempt }
    &&& p == position
    &&& attempt.found == found
}

/// How many polls for the digest at `position` came back, in turn, with this
/// outcome.
pub open spec fn outcomes(
    digests: Seq<TransactionDigest>,
    timeout_sec: u64,
    events: Seq<SyncEvent>,
    position: usize,
    found: bool,
) -> nat
    decreases events.len(),
{
    if events.len() == 0 {
        0
    } else {
        outcomes(digests, timeout_sec, events.drop_last(), position, found) + if last_polled(
            digests,
            timeout_sec,
            events,
            position,
            found,
        ) {
            1nat
        } else {
            0
        }
    }
}

/// How many polls were started for the digest at `position`: the first one, and
/// one for each time that another was called for.
pub open spec fn lookups(
    digests: Seq<TransactionDigest>,
    timeout_sec: u64,
    events: Seq<SyncEvent>,
    position: usize,
) -> nat
    decreases events.len(),
{
    if events.len() == 0 {
        1
    } else {
        lookups(digests, timeout_sec, events.drop_last(), position) + match after(
            digests,
            timeout_sec,
            events,
        ) {
            SyncStep::Poll(_, at, _) if at == position => 1nat,
            _ => 0,
        }
    }
}

/// How long the polls for the digest at `position` have rested, in milliseconds.
pub open spec fn rested(
    digests: Seq<TransactionDigest>,
    timeout_sec: u64,
    events: Seq<SyncEvent>,
    position: usize,
) -> int
    decreases events.len(),
{
    if events.len() == 0 {
        0
    } else {
        rested(digests, timeout_sec, events.drop_last(), position) + match events.last() {
            SyncEvent::Polled { position: p, attempt } if p == position && after(
                digests,
                timeout_sec,
                events,
            ).goes_on() => attempt.pause_millis as int,
            _ => 0,
        }
    }
}

/// Over a whole wait, however it goes on and ends: the digest at a position is
/// looked up once more than it was looked up in vain; it is found at most once,
/// and polled for exactly as long as it has not been found; and how long its
/// polls rest depends on its own failures alone.
pub proof fn each_position_is_polled_on_its_own(
    digests: Seq<TransactionDigest>,
    timeout_sec: u64,
    events: Seq<SyncEvent>,
    position: usize,
)
    requires
        position < digests.len(),
    ensures
        lookups(digests, timeout_sec, events, position) == outcomes(
            digests,
            timeout_sec,
            events,
            position,
            false,
        ) + 1,
        outcomes(digests, timeout_sec, events, position, true) <= 1,
        rested(digests, timeout_sec, events, position) == ({
            let failures = outcomes(digests, timeout_sec, events, position, false);
            150 * (failures * (failures + 1))
        }),
        ({
            let end = after(digests, timeout_sec, events);
            let failures = outcomes(digests, timeout_sec, events, position, false);
            let successes = outcomes(digests, timeout_sec, events, position, true);
            end.goes_on() ==> {
                &&& end.state().wf()
                &&& end.state().digests == digests
                &&& end.state().timeout_sec == timeout_sec
                &&& successes == 0 ==> end.state().pending[position as int] is Some
                    && end.state().pending[position as int]->0 == failures + 1
                &&& successes == 1 ==> end.state().pending[position as int] is None
            }
        }),
    decreases events.len(),
{
    if events.len() > 0 {
        each_position_is_polled_on_its_own(digests, timeout_sec, events.drop_last(), position);
        let before = after(digests, timeout_sec, events.drop_last());
        let failures = outcomes(digests, timeout_sec, events.drop_last(), position, false);
        if last_polled(digests, timeout_sec, events, position, false) {
            assert(before.goes_on());
            assert(150 * (failures * (failures + 1)) + 300 * (failures + 1) == 150 * ((failures
                + 1) * (failures + 2))) by (nonlinear_arith);
        }
    }
}

/// Once the transaction at a position has been found, it is never looked up
/// again, whatever happens.
pub proof fn found_is_not_looked_up_again(
    digests: Seq<TransactionDigest>,
    timeout_sec: u64,
    events: Seq<SyncEvent>,
    more: Seq<SyncEvent>,
    position: usize,
)
    requires
        position < digests.len(),
        outcomes(digests, timeout_sec, events, position, true) > 0,
    ensures
        lookups(digests, timeout_sec, events + more, position) == lookups(
            digests,
            timeout_sec,
            events,
            position,
        ),
        outcomes(digests, timeout_sec, events + more, position, true) == 1,
    decreases more.len(),
{
    each_position_is_polled_on_its_own(digests, timeout_sec, events + more, position);
    if more.len() == 0 {
        assert(events + more =~= events);
    } else {
        let before = events + more.drop_last();
        assert((events + more).drop_last() =~= before);
        found_is_not_looked_up_again(digests, timeout_sec, events, more.drop_last(), position);
        each_position_is_polled_on_its_own(digests, timeout_sec, before, position);
    }
}

/// The wait ends well only once every transaction has been found.
pub proof fn synced_means_all_found(
    digests: Seq<TransactionDigest>,
    timeout_sec: u64,
    events: Seq<SyncEvent>,
    position: usize,
)
    requires
        after(digests, timeout_sec, events) is Synced,
        position < digests.len(),
    ensures
        outcomes(digests, timeout_sec, events, position, true) == 1,
    decreases events.len(),
{
    let before = after(digests, timeout_sec, events.drop_last());
    if before is Synced {
        synced_means_all_found(digests, timeout_sec, events.drop_last(), position);
    } else {
        each_position_is_polled_on_its_own(digests, timeout_sec, events.drop_last(), position);
        assert(before.state().pending[position as int] is None);
    }
}

/// Once every transaction has been found and no poll is under way, the wait ends
/// well.
pub proof fn all_found_means_synced(
    digests: Seq<TransactionDigest>,
    timeout_sec: u64,
    events: Seq<SyncEvent>,
)
    requires
        digests.len() <= usize::MAX,
        after(digests, timeout_sec, events).goes_on(),
        forall|position: usize|
            position < digests.len() ==> #[trigger] outcomes(
                digests,
                timeout_sec,
                events,
                position,
                true,
            ) == 1,
    ensures
        after(digests, timeout_sec, events.push(SyncEvent::Drained)) is Synced,
{
    let state = after(digests, timeout_sec, events).state();
    if digests.len() > 0 {
        each_position_is_polled_on_its_own(digests, timeout_sec, events, 0);
    } else {
        nothing_asked_for(digests, timeout_sec, events);
    }
    assert forall|i: int| 0 <= i < state.pending.len() implies (#[trigger] state.pending[i])
        is None by {
        let position = i as usize;
        each_position_is_polled_on_its_own(digests, timeout_sec, events, position);
        assert(outcomes(digests, timeout_sec, events, position, true) == 1);
    }
    assert(events.push(SyncEvent::Drained).drop_last() =~= events);
}

proof fn nothing_asked_for(
    digests: Seq<TransactionDigest>,
    timeout_sec: u64,
    events: Seq<SyncEvent>,
)
    requires
        digests.len() == 0,
    ensures
        after(digests, timeout_sec, events).goes_on() ==> {
            &&& after(digests, timeout_sec, events).state().pending.len() == 0
            &&& after(digests, timeout_sec, events).state().digests.len() == 0
        },
    decreases events.len(),
{
    if events.len() > 0 {
        nothing_asked_for(digests, timeout_sec, events.drop_last());
    }
}

/// The poll that follows `failures` polls in vain, and the rest taken by then.
pub open spec fn poll_after(digest: TransactionDigest, failures: nat) -> (Poll, int)
    decreases failures,
{
    if failures == 0 {
        (Poll::first(digest), 0)
    } else {
        let (poll, rested) = poll_after(digest, (failures - 1) as nat);
        match poll.attempted(false) {
            Ok(attempt) => (attempt.poll, rested + attempt.pause_millis),
            Err(_) => (poll, rested),
        }
    }
}

/// Polls in vain are counted, and the pauses between them grow evenly: after
/// `failures` of them, 150 milliseconds times `failures` times one more than
/// that have gone into resting.
pub proof fn pauses_grow_evenly(digest: TransactionDigest, failures: nat)
    requires
        failures * PAUSE_MILLIS <= u64::MAX,
    ensures
        poll_after(digest, failures).0 == (Poll { digest, retry_times: (failures + 1) as u64 }),
        poll_after(digest, failures).1 == 150 * (failures * (failures + 1)),
    decreases failures,
{
    if failures > 0 {
        pauses_grow_evenly(digest, (failures - 1) as nat);
        assert(150 * ((failures - 1) * failures) + 300 * failures == 150 * (failures * (failures
            + 1))) by (nonlinear_arith);
    }
}

/// What comes of a poll: if the transaction was found, the poll is done as it is
/// and without a pause; otherwise 300 milliseconds of rest for each poll so far
/// follow, and then the next poll, for the same transaction. Where the pause has
/// no room, that is said.
pub proof fn polls_in_vain_are_repeated(poll: Poll)
    ensures
        poll.attempted(true) matches Ok(a) && a.found && a.pause_millis == 0 && a.poll == poll,
        300 * poll.retry_times <= u64::MAX ==> (poll.attempted(false) matches Ok(a) && !a.found
            && a.pause_millis == 300 * poll.retry_times && a.poll.digest == poll.digest
            && a.poll.retry_times == poll.retry_times + 1),
        300 * poll.retry_times > u64::MAX ==> poll.attempted(false) == Err::<Attempt, Violation>(
            Violation::Assertion("attempt to multiply with overflow"),
        ),
{
}

/// A wait begins with the first poll under way for each digest.
pub proof fn every_digest_is_polled_for(digests: Seq<TransactionDigest>, timeout_sec: u64)
    ensures
        ({
            let state = SyncView::started(digests, timeout_sec);
            &&& state.digests == digests
            &&& state.timeout_sec == timeout_sec
            &&& state.pending.len() == digests.len()
            &&& forall|i: int|
                0 <= i < digests.len() ==> #[trigger] state.pending[i] == Some(1u64)
        }),
{
}

/// Whatever has been found and whatever has not: when the time is up, the wait
/// has timed out.
pub proof fn time_up_ends_the_wait(state: SyncView)
    ensures
        state.next(SyncEvent::TimeUp) is TimedOut,
{
}

/// No wait goes on after events among which the time was up, and none ends well
/// because of it.
pub proof fn no_wait_outlasts_its_time(
    digests: Seq<TransactionDigest>,
    timeout_sec: u64,
    events: Seq<SyncEvent>,
    i: int,
)
    requires
        0 <= i < events.len(),
        events[i] is TimeUp,
    ensures
        !after(digests, timeout_sec, events).goes_on(),
        after(digests, timeout_sec, events.take(i)).goes_on() ==> after(
            digests,
            timeout_sec,
            events,
        ) is TimedOut,
    decreases events.len(),
{
    if i < events.len() - 1 {
        no_wait_outlasts_its_time(digests, timeout_sec, events.drop_last(), i);
        assert(events.drop_last().take(i) =~= events.take(i));
    } else {
        assert(events.drop_last() =~= events.take(i));
    }
}

/// What a poll that is done changes: nothing but its own position. If the
/// transaction was found, no poll is under way for it any more; otherwise the
/// next one is, and it is called for. A poll that is not under way, or whose
/// outcome is not the one it has to be, is refused.
pub proof fn a_poll_changes_its_own_position(
    state: SyncView,
    position: usize,
    attempt: Attempt,
)
    requires
        state.wf(),
    ensures
        ({
            let step = state.next(SyncEvent::Polled { position, attempt });
            let under_way = position < state.digests.len() && state.pending[position as int]
                is Some;
            let count = state.pending[position as int]->0;
            let right = under_way && attempt.poll.digest == state.digests[position as int] && (if
            attempt.found {
                attempt.pause_millis == 0 && attempt.poll.retry_times == count
            } else {
                attempt.pause_millis == 300 * count && attempt.poll.retry_times == count + 1
            });
            &&& !right ==> step is OutOfTurn
            &&& right && attempt.found ==> step is Wait
            &&& right && !attempt.found ==> (step matches SyncStep::Poll(_, at, poll) && at
                == position && poll == attempt.poll)
            &&& right ==> {
                let now = step.state();
                &&& now.digests == state.digests
                &&& now.timeout_sec == state.timeout_sec
                &&& now.pending.len() == state.pending.len()
                &&& now.pending[position as int] == (if attempt.found {
                    None::<u64>
                } else {
                    Some(attempt.poll.retry_times)
                })
                &&& forall|j: int|
                    0 <= j < state.pending.len() && j != position ==> #[trigger] now.pending[j]
                        == state.pending[j]
            }
        }),
{
}

/// With no poll under way the wait ends well if and only if every transaction
/// has been found.
pub proof fn drained_ends_well_exactly_when(state: SyncView)
    ensures
        state.next(SyncEvent::Drained) is Synced <==> forall|i: int|
            0 <= i < state.pending.len() ==> (#[trigger] state.pending[i]) is None,
        !(state.next(SyncEvent::Drained) is Synced) ==> state.next(SyncEvent::Drained)
            is OutOfTurn,
{
}

} // verus!

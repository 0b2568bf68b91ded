use mio::Registry;
use std::task::Waker;
use vstd::hash_map::HashMapWithView;
use vstd::prelude::*;
use vstd::rwlock::{RwLock, RwLockPredicate};

verus! {

#[verifier::external_type_specification]
#[verifier::external_body]
pub struct ExWaker(Waker);

#[verifier::external_type_specification]
#[verifier::external_body]
pub struct ExRegistry(Registry);

/// Relies on `Waker::will_wake`: nothing is promised of its answer, which
/// compares addresses; a `true` only saves replacing an equivalent waker.
pub assume_specification[ Waker::will_wake ](w: &Waker, other: &Waker) -> bool;

/// What is known of one token: a waker waits for its event, or the event
/// came first and waits to be consumed.
pub enum Status {
    Awaited(Waker),
    Happened,
}

/// Result of asking for a token's event.
#[derive(PartialEq, Eq, Structural, Debug, Clone, Copy)]
pub enum Readiness {
    Pending,
    Ready,
}

/// The wait status of every token that is registered or whose event came.
pub struct StatusTable {
    statuses: HashMapWithView<usize, Status>,
}

impl View for StatusTable {
    type V = Map<usize, Status>;

    closed spec fn view(&self) -> Map<usize, Status> {
        self.statuses@
    }
}

/// The table after a poll of `token` that stored `waker` (a first
/// registration, or a replacement of a waker for another task).
pub open spec fn stores(before: Map<usize, Status>, token: usize, waker: Waker) -> Map<usize, Status> {
    before.insert(token, Status::Awaited(waker))
}

/// The step that a poll of `token` takes on the table `before`, given the
/// waker handed in; `keep` tells whether an awaited entry is left as it was.
pub open spec fn poll_step(before: Map<usize, Status>, token: usize, waker: Waker, keep: bool) -> (
    Readiness,
    Map<usize, Status>,
) {
    match before.get(token) {
        None => (Readiness::Pending, stores(before, token, waker)),
        Some(Status::Awaited(_)) => (
            Readiness::Pending,
            if keep {
                before
            } else {
                stores(before, token, waker)
            },
        ),
        Some(Status::Happened) => (Readiness::Ready, before.remove(token)),
    }
}

/// The waker that an event for `token` has to wake, if one waits.
pub open spec fn waiting_waker(before: Map<usize, Status>, token: usize) -> Option<Waker> {
    match before.get(token) {
        Some(Status::Awaited(w)) => Some(w),
        _ => None,
    }
}

/// Polling a token twice with no event in between gives `Pending` both
/// times, and the table then holds exactly one entry for the token: the
/// waker of the second poll, or the one it already held for the same task.
/// No other token's entry changes.
pub proof fn lemma_poll_twice_pending(
    table: Map<usize, Status>,
    token: usize,
    first: Waker,
    second: Waker,
    keep_first: bool,
    keep_second: bool,
)
    requires
        table.get(token) != Some(Status::Happened),
    ensures
        ({
            let (r1, t1) = poll_step(table, token, first, keep_first);
            let (r2, t2) = poll_step(t1, token, second, keep_second);
            &&& r1 == Readiness::Pending
            &&& r2 == Readiness::Pending
            &&& t2.get(token) == Some(Status::Awaited(second)) || t2.get(token) == t1.get(token)
            &&& t2.get(token) matches Some(Status::Awaited(_))
            &&& t2.remove(token) == table.remove(token)
        }),
{
    let (r1, t1) = poll_step(table, token, first, keep_first);
    let (r2, t2) = poll_step(t1, token, second, keep_second);
    assert(t2.remove(token) =~= table.remove(token));
}

/// When the event of a token comes before any poll of it, the first poll is
/// `Ready`, and the table then holds no entry for the token.
pub proof fn lemma_event_before_poll(
    table: Map<usize, Status>,
    token: usize,
    waker: Waker,
    keep: bool,
)
    ensures
        ({
            let after_event = table.insert(token, Status::Happened);
            let (r, t) = poll_step(after_event, token, waker, keep);
            &&& r == Readiness::Ready
            &&& !t.contains_key(token)
            &&& t == table.remove(token)
        }),
{
    let after_event = table.insert(token, Status::Happened);
    assert(after_event.remove(token) =~= table.remove(token));
}

impl StatusTable {
    pub fn new() -> (t: StatusTable)
        ensures
            t@ == Map::<usize, Status>::empty(),
    {
        StatusTable { statuses: HashMapWithView::new() }
    }

    /// Asks whether the event of `token` has come. If it has, the entry is
    /// consumed and the answer is `Ready`; otherwise `waker` is left to be
    /// woken by the event, unless an awaited entry already holds a waker
    /// for the same task.
    pub fn poll(&mut self, token: usize, waker: Waker) -> (r: Readiness)
        ensures
            exists|keep: bool| #[trigger]
                poll_step(old(self)@, token, waker, keep) == (r, final(self)@),
            old(self)@.get(token) is None ==> final(self)@ == stores(old(self)@, token, waker),
            r == Readiness::Ready <==> old(self)@.get(token) == Some(Status::Happened),
    {
        let happened: bool;
        let keep: bool;
        match self.statuses.get(&token) {
            None => {
                happened = false;
                keep = false;
            },
            Some(Status::Happened) => {
                happened = true;
                keep = false;
            },
            Some(Status::Awaited(current)) => {
                happened = false;
                keep = current.will_wake(&waker);
            },
        }
        if happened {
            let _ = self.statuses.remove(&token);
            assert(poll_step(old(self)@, token, waker, keep) == (Readiness::Ready, self@));
            Readiness::Ready
        } else {
            if !keep {
                self.statuses.insert(token, Status::Awaited(waker));
            }
            assert(poll_step(old(self)@, token, waker, keep) == (Readiness::Pending, self@));
            Readiness::Pending
        }
    }

    /// Records that the event of `token` came: the entry becomes `Happened`,
    /// and the waker that waited for it, if any, is handed back to be woken.
    pub fn record_event(&mut self, token: usize) -> (r: Option<Waker>)
        ensures
            final(self)@ == old(self)@.insert(token, Status::Happened),
            r == waiting_waker(old(self)@, token),
    {
        let previous = self.statuses.remove(&token);
        self.statuses.insert(token, Status::Happened);
        match previous {
            Some(Status::Awaited(w)) => Some(w),
            _ => None,
        }
    }
}

/// One issue on a counter whose next token is `c`: the token handed out and
/// the counter after.
pub open spec fn issue_step(c: Option<nat>) -> (Option<usize>, Option<nat>) {
    match c {
        None => (None, None),
        Some(n) => (Some(n as usize), if n < usize::MAX {
            Some((n + 1) as nat)
        } else {
            None
        }),
    }
}

/// The counter `c` after `i` issues.
pub open spec fn counter_after(c: Option<nat>, i: nat) -> Option<nat>
    decreases i,
{
    if i == 0 {
        c
    } else {
        issue_step(counter_after(c, (i - 1) as nat)).1
    }
}

/// The token handed out by the issue after `i` earlier ones.
pub open spec fn token_at(c: Option<nat>, i: nat) -> Option<usize> {
    issue_step(counter_after(c, i)).0
}

proof fn lemma_counter_after(n: nat, i: nat)
    requires
        n <= usize::MAX,
    ensures
        counter_after(Some(n), i) == (if n + i <= usize::MAX {
            Some(n + i)
        } else {
            None::<nat>
        }),
    decreases i,
{
    if i > 0 {
        lemma_counter_after(n, (i - 1) as nat);
    }
}

/// No token is handed out twice: of any two issues on one counter, at most
/// one gives a token, or they give different tokens.
pub proof fn lemma_tokens_unique(c: Option<nat>, i: nat, j: nat)
    requires
        c matches Some(n) ==> n <= usize::MAX,
        i < j,
    ensures
        token_at(c, i) is None || token_at(c, j) is None || token_at(c, i) != token_at(c, j),
{
    if let Some(n) = c {
        lemma_counter_after(n, i);
        lemma_counter_after(n, j);
    } else {
        lemma_counter_after_none(i);
        lemma_counter_after_none(j);
    }
}

proof fn lemma_counter_after_none(i: nat)
    ensures
        counter_after(None, i) is None,
    decreases i,
{
    if i > 0 {
        lemma_counter_after_none((i - 1) as nat);
    }
}

/// Hands out tokens in increasing order. Once every `usize` value has been
/// handed out, no token is given any more: a token is never reused.
pub struct TokenCounter {
    next: usize,
    exhausted: bool,
}

impl View for TokenCounter {
    type V = Option<nat>;

    /// The next token to be handed out, or `None` once none is left.
    closed spec fn view(&self) -> Option<nat> {
        if self.exhausted {
            None
        } else {
            Some(self.next as nat)
        }
    }
}

impl TokenCounter {
    pub fn new() -> (c: TokenCounter)
        ensures
            c@ == Some(0nat),
    {
        TokenCounter { next: 0, exhausted: false }
    }

    /// The next token of a counter is always a `usize`.
    pub proof fn lemma_next_in_range(&self)
        ensures
            self@ matches Some(n) ==> n <= usize::MAX,
    {
    }

    /// Hands out the next token, or `None` once all are used up.
    pub fn issue(&mut self) -> (r: Option<usize>)
        ensures
            (r, final(self)@) == issue_step(old(self)@),
            final(self)@ matches Some(n) ==> n <= usize::MAX,
    {
        if self.exhausted {
            None
        } else {
            let t = self.next;
            if t < usize::MAX {
                self.next = t + 1;
            } else {
                self.exhausted = true;
            }
            Some(t)
        }
    }
}

/// Accepts every value: the lock guards plain exclusive access.
pub struct AnyValue;

impl<V> RwLockPredicate<V> for AnyValue {
    open spec fn inv(self, v: V) -> bool {
        true
    }
}

/// Registry handle for I/O sources, the status table of all tokens, and the
/// token counter, each shared between the polling and the observing thread.
pub struct Reactor {
    pub registry: Registry,
    statuses: RwLock<StatusTable, AnyValue>,
    tokens: RwLock<TokenCounter, AnyValue>,
}

impl Reactor {
    /// A reactor with an empty status table whose first token is 0.
    pub fn new(registry: Registry) -> (r: Reactor) {
        Reactor {
            registry,
            statuses: RwLock::new(StatusTable::new(), Ghost(AnyValue)),
            tokens: RwLock::new(TokenCounter::new(), Ghost(AnyValue)),
        }
    }

    /// `StatusTable::poll` on the shared table, under its lock.
    pub fn poll(&self, token: usize, waker: Waker) -> (r: Readiness) {
        let (mut table, handle) = self.statuses.acquire_write();
        let r = table.poll(token, waker);
        handle.release_write(table);
        r
    }

    /// `StatusTable::record_event` on the shared table, under its lock. The
    /// waker handed back is to be woken after the lock is released.
    pub fn record_event(&self, token: usize) -> (r: Option<Waker>) {
        let (mut table, handle) = self.statuses.acquire_write();
        let r = table.record_event(token);
        handle.release_write(table);
        r
    }

    /// A token that no earlier call handed out, or `None` once none is left.
    pub fn unique_token(&self) -> (r: Option<usize>) {
        let (mut counter, handle) = self.tokens.acquire_write();
        let r = counter.issue();
        handle.release_write(counter);
        r
    }
}

} // verus!

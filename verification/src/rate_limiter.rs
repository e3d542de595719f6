//! Fixed-window request counting per client identity.

use crate::clock::Clock;
use crate::text::str_eq;
use vstd::prelude::*;
use vstd::string::StringExecFns;

verus! {

/// Length of a counting window: 60 seconds, in nanoseconds.
pub const WINDOW_NANOS: u128 = 60_000_000_000;

/// The request count of one client in its current window.
#[derive(Debug, Clone, Copy, PartialEq, Eq, Structural)]
pub struct RateWindow {
    /// Requests admitted in this window.
    pub count: u64,
    /// When the window began, in nanoseconds on the limiter's clock.
    pub window_start: u128,
}

/// Time gone by between `start` and `now`; zero when `start` lies ahead.
pub open spec fn elapsed_since(now: u128, start: u128) -> nat {
    if now >= start {
        (now - start) as nat
    } else {
        0
    }
}

/// A window is over once 60 seconds have gone by since it began.
pub open spec fn window_expired(w: RateWindow, now: u128) -> bool {
    elapsed_since(now, w.window_start) >= WINDOW_NANOS
}

/// The table without the windows that are over at `now`.
pub open spec fn purge(table: Map<Seq<char>, RateWindow>, now: u128) -> Map<Seq<char>, RateWindow> {
    Map::new(
        |k: Seq<char>| table.contains_key(k) && !window_expired(table[k], now),
        |k: Seq<char>| table[k],
    )
}

/// Is a request of `identity` at `now` admitted? It is unless the client has
/// a running window that already holds `limit` requests or more.
pub open spec fn allows(
    table: Map<Seq<char>, RateWindow>,
    limit: u64,
    identity: Seq<char>,
    now: u128,
) -> bool {
    let live = purge(table, now);
    !live.contains_key(identity) || live[identity].count < limit
}

/// The table after a request of `identity` at `now`: windows that are over
/// are dropped; a client without a running window gets a new one that holds
/// this request; an admitted request is counted in the running window; a
/// rejected one is not counted.
pub open spec fn table_after(
    table: Map<Seq<char>, RateWindow>,
    limit: u64,
    identity: Seq<char>,
    now: u128,
) -> Map<Seq<char>, RateWindow> {
    let live = purge(table, now);
    if !live.contains_key(identity) {
        live.insert(identity, RateWindow { count: 1, window_start: now })
    } else if live[identity].count < limit {
        live.insert(
            identity,
            RateWindow {
                count: (live[identity].count + 1) as u64,
                window_start: live[identity].window_start,
            },
        )
    } else {
        live
    }
}

/// The answers to a series of requests of one client, made at `times` in
/// this order, each decided on the table that the one before it left.
pub open spec fn answers(
    table: Map<Seq<char>, RateWindow>,
    limit: u64,
    identity: Seq<char>,
    times: Seq<u128>,
) -> Seq<bool>
    decreases times.len(),
{
    if times.len() == 0 {
        Seq::empty()
    } else {
        seq![allows(table, limit, identity, times[0])] + answers(
            table_after(table, limit, identity, times[0]),
            limit,
            identity,
            times.drop_first(),
        )
    }
}

/// A client without a running window is admitted, whatever the limit, and
/// the request opens a window that begins now and holds this one request.
pub proof fn lemma_request_without_window_is_admitted(
    table: Map<Seq<char>, RateWindow>,
    limit: u64,
    identity: Seq<char>,
    now: u128,
)
    requires
        !table.contains_key(identity) || window_expired(table[identity], now),
    ensures
        allows(table, limit, identity, now),
        table_after(table, limit, identity, now).contains_key(identity),
        table_after(table, limit, identity, now)[identity] == (RateWindow {
            count: 1,
            window_start: now,
        }),
{
}

/// A rejected request is not counted: it leaves the client's window as it
/// was, and changes the table only by dropping the windows that are over.
pub proof fn lemma_rejected_request_is_not_counted(
    table: Map<Seq<char>, RateWindow>,
    limit: u64,
    identity: Seq<char>,
    now: u128,
)
    requires
        !allows(table, limit, identity, now),
    ensures
        table_after(table, limit, identity, now) == purge(table, now),
        table.contains_key(identity),
        table[identity].count >= limit,
        table_after(table, limit, identity, now)[identity] == table[identity],
{
}

/// After a request the table holds running windows only: whatever was over
/// at the time of the request is gone, so the table does not grow with
/// clients that have stopped asking.
pub proof fn lemma_table_holds_running_windows_only(
    table: Map<Seq<char>, RateWindow>,
    limit: u64,
    identity: Seq<char>,
    now: u128,
)
    ensures
        forall|k: Seq<char>| #[trigger]
            table_after(table, limit, identity, now).contains_key(k) ==> !window_expired(
                table_after(table, limit, identity, now)[k],
                now,
            ),
{
}

/// A request changes the window of no other client that has one running.
pub proof fn lemma_other_clients_untouched(
    table: Map<Seq<char>, RateWindow>,
    limit: u64,
    identity: Seq<char>,
    now: u128,
    other: Seq<char>,
)
    requires
        other != identity,
    ensures
        table_after(table, limit, identity, now).contains_key(other) <==> (table.contains_key(other)
            && !window_expired(table[other], now)),
        table_after(table, limit, identity, now).contains_key(other) ==> table_after(
            table,
            limit,
            identity,
            now,
        )[other] == table[other],
{
}

/// No window ever counts more than the limit, or more than one request where
/// the limit is zero.
pub proof fn lemma_counts_stay_within_limit(
    table: Map<Seq<char>, RateWindow>,
    limit: u64,
    identity: Seq<char>,
    now: u128,
)
    requires
        forall|k: Seq<char>| table.contains_key(k) ==> (#[trigger] table[k]).count <= limit || table[k].count <= 1,
    ensures
        forall|k: Seq<char>|
            table_after(table, limit, identity, now).contains_key(k) ==> (#[trigger] table_after(
                table,
                limit,
                identity,
                now,
            )[k]).count <= limit || table_after(table, limit, identity, now)[k].count <= 1,
{
}

proof fn lemma_answers_in_running_window(
    table: Map<Seq<char>, RateWindow>,
    limit: u64,
    identity: Seq<char>,
    times: Seq<u128>,
)
    requires
        table.contains_key(identity),
        forall|i: int|
            0 <= i < times.len() ==> table[identity].window_start <= #[trigger] times[i]
                < table[identity].window_start + WINDOW_NANOS,
    ensures
        answers(table, limit, identity, times).len() == times.len(),
        forall|i: int|
            0 <= i < times.len() ==> #[trigger] answers(table, limit, identity, times)[i] == (
            table[identity].count + i < limit),
    decreases times.len(),
{
    if times.len() > 0 {
        let next = table_after(table, limit, identity, times[0]);
        let rest = times.drop_first();
        assert(!window_expired(table[identity], times[0]));
        assert forall|i: int| 0 <= i < rest.len() implies next[identity].window_start
            <= #[trigger] rest[i] < next[identity].window_start + WINDOW_NANOS by {
            assert(rest[i] == times[i + 1]);
        }
        lemma_answers_in_running_window(next, limit, identity, rest);
        assert forall|i: int| 0 <= i < times.len() implies #[trigger] answers(
            table,
            limit,
            identity,
            times,
        )[i] == (table[identity].count + i < limit) by {
            if i > 0 {
                assert(answers(table, limit, identity, times)[i] == answers(
                    next,
                    limit,
                    identity,
                    rest,
                )[i - 1]);
            }
        }
    }
}

/// The budget of a window: when a client without a running window makes a
/// series of requests that all fall within 60 seconds of the first, the
/// first is admitted, and after it exactly those that bring the count up to
/// at most `limit`: request number `i` (counting from zero) is admitted when
/// `i` is zero or `i < limit`.
pub proof fn lemma_window_budget(
    table: Map<Seq<char>, RateWindow>,
    limit: u64,
    identity: Seq<char>,
    times: Seq<u128>,
)
    requires
        times.len() > 0,
        !table.contains_key(identity) || window_expired(table[identity], times[0]),
        forall|i: int| 0 <= i < times.len() ==> times[0] <= #[trigger] times[i] < times[0] + WINDOW_NANOS,
    ensures
        answers(table, limit, identity, times).len() == times.len(),
        forall|i: int|
            0 <= i < times.len() ==> #[trigger] answers(table, limit, identity, times)[i] == (i == 0
                || i < limit),
{
    let next = table_after(table, limit, identity, times[0]);
    let rest = times.drop_first();
    assert forall|i: int| 0 <= i < rest.len() implies next[identity].window_start
        <= #[trigger] rest[i] < next[identity].window_start + WINDOW_NANOS by {
        assert(rest[i] == times[i + 1]);
    }
    lemma_answers_in_running_window(next, limit, identity, rest);
    assert forall|i: int| 0 <= i < times.len() implies #[trigger] answers(
        table,
        limit,
        identity,
        times,
    )[i] == (i == 0 || i < limit) by {
        if i > 0 {
            assert(answers(table, limit, identity, times)[i] == answers(next, limit, identity, rest)[i
                - 1]);
        }
    }
}

#[derive(Debug)]
struct RateEntry {
    identity: String,
    count: u64,
    window_start: u128,
}

spec fn window_of(e: RateEntry) -> RateWindow {
    RateWindow { count: e.count, window_start: e.window_start }
}

spec fn distinct(entries: Seq<RateEntry>) -> bool {
    forall|i: int, j: int|
        0 <= i < j < entries.len() ==> (#[trigger] entries[i]).identity@ != (
        #[trigger] entries[j]).identity@
}

spec fn holds(entries: Seq<RateEntry>, k: Seq<char>) -> bool {
    exists|i: int| 0 <= i < entries.len() && (#[trigger] entries[i]).identity@ == k
}

spec fn position(entries: Seq<RateEntry>, k: Seq<char>) -> int {
    choose|i: int| 0 <= i < entries.len() && (#[trigger] entries[i]).identity@ == k
}

spec fn table_of(entries: Seq<RateEntry>) -> Map<Seq<char>, RateWindow> {
    Map::new(
        |k: Seq<char>| holds(entries, k),
        |k: Seq<char>| window_of(entries[position(entries, k)]),
    )
}

proof fn lemma_table_at(entries: Seq<RateEntry>, i: int)
    requires
        distinct(entries),
        0 <= i < entries.len(),
    ensures
        table_of(entries).contains_key(entries[i].identity@),
        table_of(entries)[entries[i].identity@] == window_of(entries[i]),
{
    let k = entries[i].identity@;
    assert(holds(entries, k));
    let p = position(entries, k);
    assert(p == i);
}

proof fn lemma_table_keys(entries: Seq<RateEntry>, k: Seq<char>)
    requires
        distinct(entries),
        table_of(entries).contains_key(k),
    ensures
        0 <= position(entries, k) < entries.len(),
        entries[position(entries, k)].identity@ == k,
        table_of(entries)[k] == window_of(entries[position(entries, k)]),
{
    assert(holds(entries, k));
}

spec fn swap_removed(entries: Seq<RateEntry>, i: int) -> Seq<RateEntry> {
    entries.update(i, entries.last()).drop_last()
}

proof fn lemma_swap_remove_table(entries: Seq<RateEntry>, i: int)
    requires
        distinct(entries),
        0 <= i < entries.len(),
    ensures
        distinct(swap_removed(entries, i)),
        table_of(swap_removed(entries, i)) == table_of(entries).remove(entries[i].identity@),
{
    let cur = swap_removed(entries, i);
    let last = entries.len() - 1;
    assert forall|a: int| 0 <= a < cur.len() implies #[trigger] cur[a] == entries[if a == i {
        last
    } else {
        a
    }] by {}
    assert forall|a: int, c: int| 0 <= a < c < cur.len() implies (#[trigger] cur[a]).identity@ != (
    #[trigger] cur[c]).identity@ by {
        let pa = if a == i { last } else { a };
        let pc = if c == i { last } else { c };
        assert(cur[a] == entries[pa]);
        assert(cur[c] == entries[pc]);
        if pa < pc {
            assert(entries[pa].identity@ != entries[pc].identity@);
        } else {
            assert(entries[pc].identity@ != entries[pa].identity@);
        }
    }
    let gone = entries[i].identity@;
    assert forall|k: Seq<char>| table_of(cur).contains_key(k) <==> table_of(entries).remove(
        gone,
    ).contains_key(k) by {
        if table_of(cur).contains_key(k) {
            let a = position(cur, k);
            let pa = if a == i { last } else { a };
            assert(cur[a] == entries[pa]);
            assert(holds(entries, k));
            if pa < i {
                assert(entries[pa].identity@ != entries[i].identity@);
            } else {
                assert(entries[i].identity@ != entries[pa].identity@);
            }
        }
        if table_of(entries).remove(gone).contains_key(k) {
            let b = position(entries, k);
            assert(b != i);
            if b == last {
                assert(cur[i] == entries[b]);
            } else {
                assert(cur[b] == entries[b]);
            }
            assert(holds(cur, k));
        }
    }
    assert forall|k: Seq<char>| table_of(cur).contains_key(k) implies table_of(cur)[k] == table_of(
        entries,
    ).remove(gone)[k] by {
        lemma_table_keys(cur, k);
        let a = position(cur, k);
        let pa = if a == i { last } else { a };
        assert(cur[a] == entries[pa]);
        lemma_table_at(entries, pa);
    }
    assert(table_of(cur) =~= table_of(entries).remove(gone));
}

proof fn lemma_push_table(entries: Seq<RateEntry>, e: RateEntry)
    requires
        distinct(entries),
        !table_of(entries).contains_key(e.identity@),
    ensures
        distinct(entries.push(e)),
        table_of(entries.push(e)) == table_of(entries).insert(e.identity@, window_of(e)),
{
    let cur = entries.push(e);
    assert forall|a: int, c: int| 0 <= a < c < cur.len() implies (#[trigger] cur[a]).identity@ != (
    #[trigger] cur[c]).identity@ by {
        if c == entries.len() {
            assert(cur[a] == entries[a]);
            if entries[a].identity@ == e.identity@ {
                assert(holds(entries, e.identity@));
            }
        } else {
            assert(cur[a] == entries[a]);
            assert(cur[c] == entries[c]);
        }
    }
    let target = table_of(entries).insert(e.identity@, window_of(e));
    assert forall|k: Seq<char>| table_of(cur).contains_key(k) <==> target.contains_key(k) by {
        if table_of(cur).contains_key(k) {
            let a = position(cur, k);
            if a < entries.len() {
                assert(cur[a] == entries[a]);
                assert(holds(entries, k));
            }
        }
        if target.contains_key(k) {
            if k == e.identity@ {
                assert(cur[entries.len() as int] == e);
                assert(holds(cur, k));
            } else {
                let b = position(entries, k);
                assert(cur[b] == entries[b]);
                assert(holds(cur, k));
            }
        }
    }
    assert forall|k: Seq<char>| table_of(cur).contains_key(k) implies table_of(cur)[k] == target[k] by {
        lemma_table_keys(cur, k);
        let a = position(cur, k);
        if a < entries.len() {
            assert(cur[a] == entries[a]);
            lemma_table_at(entries, a);
        }
    }
    assert(table_of(cur) =~= target);
}

/// A per-client request counter with a fixed window of 60 seconds.
#[derive(Debug)]
pub struct RateLimiter {
    entries: Vec<RateEntry>,
    max_requests_per_minute: u64,
    clock: Clock,
}

impl View for RateLimiter {
    type V = Map<Seq<char>, RateWindow>;

    /// The running windows, by client identity.
    closed spec fn view(&self) -> Map<Seq<char>, RateWindow> {
        table_of(self.entries@)
    }
}

impl RateLimiter {
    #[verifier::type_invariant]
    spec fn well_formed(self) -> bool {
        distinct(self.entries@)
    }

    /// The number of requests admitted per client and window.
    pub closed spec fn limit(&self) -> u64 {
        self.max_requests_per_minute
    }

    /// The clock that the limiter reads the time of a request from.
    pub closed spec fn clock(&self) -> Clock {
        self.clock
    }

    /// A limiter that knows no client yet.
    pub fn new(max_requests_per_minute: u64) -> (limiter: Self)
        ensures
            limiter@ == Map::<Seq<char>, RateWindow>::empty(),
            limiter.limit() == max_requests_per_minute,
    {
        let limiter = RateLimiter {
            entries: Vec::new(),
            max_requests_per_minute,
            clock: Clock::start(),
        };
        assert(limiter@ =~= Map::<Seq<char>, RateWindow>::empty());
        limiter
    }

    /// The reading of the limiter's clock: nanoseconds since it was made.
    pub fn now(&self) -> (nanos: u128) {
        self.clock.now()
    }

    /// The number of requests admitted per client and window.
    pub fn max_requests(&self) -> (limit: u64)
        ensures
            limit == self.limit(),
    {
        self.max_requests_per_minute
    }

    /// Drops the windows that are over at `now`.
    fn purge_expired(&mut self, now: u128)
        ensures
            final(self)@ == purge(old(self)@, now),
            final(self).limit() == old(self).limit(),
            final(self).clock() == old(self).clock(),
    {
        proof {
            use_type_invariant(&*self);
        }
        let ghost before = table_of(self.entries@);
        let mut entries: Vec<RateEntry> = Vec::new();
        core::mem::swap(&mut self.entries, &mut entries);
        let mut i: usize = 0;
        while i < entries.len()
            invariant
                i <= entries.len(),
                distinct(entries@),
                forall|j: int|
                    0 <= j < i ==> !window_expired(window_of(#[trigger] entries@[j]), now),
                forall|k: Seq<char>| #[trigger]
                    table_of(entries@).contains_key(k) ==> before.contains_key(k) && before[k]
                        == table_of(entries@)[k],
                forall|k: Seq<char>|
                    before.contains_key(k) && !window_expired(before[k], now) ==> #[trigger] table_of(
                        entries@,
                    ).contains_key(k),
            decreases entries.len() - i,
        {
            let start = entries[i].window_start;
            let elapsed = if now >= start {
                now - start
            } else {
                0
            };
            if elapsed >= WINDOW_NANOS {
                proof {
                    lemma_table_at(entries@, i as int);
                    lemma_swap_remove_table(entries@, i as int);
                }
                let ghost prev = entries@;
                entries.swap_remove(i);
                proof {
                    assert(entries@ == swap_removed(prev, i as int));
                    assert forall|j: int| 0 <= j < i implies !window_expired(
                        window_of(#[trigger] entries@[j]),
                        now,
                    ) by {
                        assert(entries@[j] == prev[j]);
                    }
                }
            } else {
                i = i + 1;
            }
        }
        self.entries = entries;
        proof {
            let cur = self.entries@;
            assert forall|k: Seq<char>| table_of(cur).contains_key(k) implies !window_expired(
                table_of(cur)[k],
                now,
            ) by {
                lemma_table_keys(cur, k);
            }
            assert(table_of(cur) =~= purge(before, now));
        }
    }

    /// The position of the entry of `identity`, if there is one.
    fn find(entries: &Vec<RateEntry>, identity: &str) -> (found: Option<usize>)
        requires
            distinct(entries@),
        ensures
            match found {
                Some(i) => i < entries.len() && entries@[i as int].identity@ == identity@,
                None => !table_of(entries@).contains_key(identity@),
            },
    {
        let mut i: usize = 0;
        while i < entries.len()
            invariant
                i <= entries.len(),
                forall|j: int| 0 <= j < i ==> (#[trigger] entries@[j]).identity@ != identity@,
            decreases entries.len() - i,
        {
            if str_eq(entries[i].identity.as_str(), identity) {
                return Some(i);
            }
            i = i + 1;
        }
        assert(!holds(entries@, identity@));
        None
    }

    /// Decides on a request of `client_ip` made at `now` (nanoseconds on the
    /// limiter's clock) and records it.
    pub fn is_allowed_at(&mut self, client_ip: &str, now: u128) -> (allowed: bool)
        ensures
            allowed == allows(old(self)@, old(self).limit(), client_ip@, now),
            final(self)@ == table_after(old(self)@, old(self).limit(), client_ip@, now),
            final(self).limit() == old(self).limit(),
            final(self).clock() == old(self).clock(),
    {
        self.purge_expired(now);
        proof {
            use_type_invariant(&*self);
        }
        let ghost live = self@;
        let mut entries: Vec<RateEntry> = Vec::new();
        core::mem::swap(&mut self.entries, &mut entries);
        let allowed = match Self::find(&entries, client_ip) {
            Some(i) => {
                proof {
                    lemma_table_at(entries@, i as int);
                    lemma_swap_remove_table(entries@, i as int);
                }
                let start = entries[i].window_start;
                let count = entries[i].count;
                let elapsed = if now >= start {
                    now - start
                } else {
                    0
                };
                if elapsed >= WINDOW_NANOS {
                    let mut entry = entries.swap_remove(i);
                    entry.count = 1;
                    entry.window_start = now;
                    proof {
                        lemma_push_table(entries@, entry);
                    }
                    entries.push(entry);
                    true
                } else if count < self.max_requests_per_minute {
                    let mut entry = entries.swap_remove(i);
                    entry.count = count + 1;
                    proof {
                        lemma_push_table(entries@, entry);
                    }
                    entries.push(entry);
                    true
                } else {
                    false
                }
            },
            None => {
                let entry = RateEntry {
                    identity: String::from_str(client_ip),
                    count: 1,
                    window_start: now,
                };
                proof {
                    lemma_push_table(entries@, entry);
                }
                entries.push(entry);
                true
            },
        };
        self.entries = entries;
        assert(self@ =~= table_after(old(self)@, old(self).limit(), client_ip@, now));
        allowed
    }

    /// Decides on a request of `client_ip` made now, by the limiter's own
    /// clock, and records it.
    pub fn is_allowed(&mut self, client_ip: &str) -> (allowed: bool)
        ensures
            exists|now: u128|
                allowed == #[trigger] allows(old(self)@, old(self).limit(), client_ip@, now)
                    && final(self)@ == table_after(old(self)@, old(self).limit(), client_ip@, now),
            final(self).limit() == old(self).limit(),
            final(self).clock() == old(self).clock(),
    {
        let now = self.now();
        self.is_allowed_at(client_ip, now)
    }

    /// The running window of `identity`, if the table holds one.
    pub fn window(&self, identity: &str) -> (w: Option<RateWindow>)
        ensures
            w == if self@.contains_key(identity@) {
                Some(self@[identity@])
            } else {
                None
            },
    {
        proof {
            use_type_invariant(self);
        }
        match Self::find(&self.entries, identity) {
            Some(i) => {
                proof {
                    lemma_table_at(self.entries@, i as int);
                }
                Some(
                    RateWindow {
                        count: self.entries[i].count,
                        window_start: self.entries[i].window_start,
                    },
                )
            },
            None => None,
        }
    }
}

} // verus!

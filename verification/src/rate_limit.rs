//! Sliding-window rate limits, per key, in a table of bounded size.
//!
//! Instants and windows are nanoseconds; the caller reads the clock.

use vstd::prelude::*;
use crate::error::AppError;
use crate::text::same;

verus! {

/// Nanoseconds per second.
pub const SECOND: u64 = 1_000_000_000;

/// The window of limits that name no other: five minutes.
pub const WINDOW: u64 = 300_000_000_000;

/// The most keys that the table holds.
pub const MAX_KEYS: usize = 10_000;

/// The window that writes of bodies, blocks and revisions share.
pub const REVISION_WRITE_WINDOW: u64 = 60_000_000_000;

/// The number of such writes in one window.
pub const REVISION_WRITE_LIMIT: u32 = 30;

/// The grants that count against one key.
struct Slot {
    key: String,
    times: Vec<u64>,
}

/// The grants that count against each key.
pub struct RateLimiter {
    slots: Vec<Slot>,
}

/// How long before `now` the instant `t` lies; zero where it does not.
pub open spec fn age(now: u64, t: u64) -> int {
    if now >= t {
        now - t
    } else {
        0
    }
}

/// The instants that lie less than `window` before `now`.
pub open spec fn live(times: Seq<u64>, now: u64, window: u64) -> Seq<u64> {
    times.filter(|t: u64| age(now, t) < window)
}

/// Whole seconds until the first of the live grants leaves the window, at least one.
pub open spec fn retry_after(grants: Seq<u64>, now: u64, window: u64) -> u32 {
    if grants.len() == 0 {
        1
    } else {
        let seconds = (window - age(now, grants[0])) / (SECOND as int);
        if seconds < 1 {
            1
        } else {
            seconds as u32
        }
    }
}

/// The grants of `key` in a table.
pub open spec fn grants_of(table: Map<Seq<char>, Seq<u64>>, key: Seq<char>) -> Seq<u64> {
    if table.contains_key(key) {
        table[key]
    } else {
        Seq::empty()
    }
}

/// The table with every grant outside the window dropped, and every key left without grants.
pub open spec fn without_stale(
    table: Map<Seq<char>, Seq<u64>>,
    now: u64,
    window: u64,
) -> Map<Seq<char>, Seq<u64>> {
    Map::new(
        |k: Seq<char>| table.contains_key(k) && live(table[k], now, window).len() > 0,
        |k: Seq<char>| live(table[k], now, window),
    )
}

/// What room is made before `key` enters: nothing where it is there or the table is not full,
/// else the stale grants go, and where that is not enough one key, whichever.
pub open spec fn room_made(
    before: Map<Seq<char>, Seq<u64>>,
    after: Map<Seq<char>, Seq<u64>>,
    key: Seq<char>,
    now: u64,
    window: u64,
) -> bool {
    if before.contains_key(key) || before.dom().len() < MAX_KEYS {
        after == before
    } else {
        let pruned = without_stale(before, now, window);
        if pruned.dom().len() < MAX_KEYS {
            after == pruned
        } else {
            exists|k: Seq<char>| #[trigger]
                pruned.contains_key(k) && after == pruned.remove(k)
        }
    }
}

/// The table after a request of `key` was decided at `now`: the live grants of the key, with
/// this one where it was granted.
pub open spec fn decided(
    table: Map<Seq<char>, Seq<u64>>,
    key: Seq<char>,
    limit: u32,
    window: u64,
    now: u64,
) -> Map<Seq<char>, Seq<u64>> {
    let grants = live(grants_of(table, key), now, window);
    table.insert(
        key,
        if grants.len() < limit {
            grants.push(now)
        } else {
            grants
        },
    )
}

spec fn keys_of(slots: Seq<Slot>) -> Seq<Seq<char>> {
    slots.map_values(|s: Slot| s.key@)
}

spec fn table_of(slots: Seq<Slot>) -> Map<Seq<char>, Seq<u64>> {
    Map::new(
        |k: Seq<char>| keys_of(slots).contains(k),
        |k: Seq<char>| slots[keys_of(slots).index_of(k)].times@,
    )
}

proof fn lemma_table_at(slots: Seq<Slot>, i: int)
    requires
        keys_of(slots).no_duplicates(),
        0 <= i < slots.len(),
    ensures
        table_of(slots).contains_key(slots[i].key@),
        table_of(slots)[slots[i].key@] == slots[i].times@,
{
    let keys = keys_of(slots);
    assert(keys[i] == slots[i].key@);
    assert(keys.contains(slots[i].key@));
    let j = keys.index_of(slots[i].key@);
    assert(0 <= j < keys.len() && keys[j] == keys[i]);
    assert(i == j);
}

proof fn lemma_table_len(slots: Seq<Slot>)
    requires
        keys_of(slots).no_duplicates(),
    ensures
        table_of(slots).dom().len() == slots.len(),
        table_of(slots).dom().finite(),
{
    keys_of(slots).unique_seq_to_set();
    assert(table_of(slots).dom() =~= keys_of(slots).to_set());
    vstd::seq_lib::seq_to_set_is_finite(keys_of(slots));
}

/// The instants of `times` that lie less than `window` before `now`.
fn retain_live(times: &Vec<u64>, now: u64, window: u64) -> (r: Vec<u64>)
    ensures
        r@ == live(times@, now, window),
{
    let mut out: Vec<u64> = Vec::new();
    let mut i: usize = 0;
    let ghost keep = |t: u64| age(now, t) < window;
    proof {
        reveal(Seq::filter);
        assert(times@.subrange(0, 0).filter(keep) == Seq::<u64>::empty());
    }
    while i < times.len()
        invariant
            i <= times@.len(),
            keep == (|t: u64| age(now, t) < window),
            out@ == times@.subrange(0, i as int).filter(keep),
        decreases times.len() - i,
    {
        let t: u64 = times[i];
        proof {
            reveal(Seq::filter);
            assert(times@.subrange(0, i + 1).drop_last() == times@.subrange(0, i as int));
        }
        let passed: u64 = if now >= t {
            now - t
        } else {
            0
        };
        if passed < window {
            out.push(t);
        }
        i = i + 1;
    }
    assert(times@.subrange(0, i as int) == times@);
    out
}

impl View for RateLimiter {
    type V = Map<Seq<char>, Seq<u64>>;

    closed spec fn view(&self) -> Map<Seq<char>, Seq<u64>> {
        table_of(self.slots@)
    }
}

impl RateLimiter {
    /// No key occurs twice, and there are no more keys than the table may hold.
    pub closed spec fn wf(&self) -> bool {
        &&& keys_of(self.slots@).no_duplicates()
        &&& self.slots@.len() <= MAX_KEYS
    }

    /// A table without grants.
    pub fn new() -> (r: Self)
        ensures
            r.wf(),
            r@ == Map::<Seq<char>, Seq<u64>>::empty(),
    {
        let r = RateLimiter { slots: Vec::new() };
        assert(r@ =~= Map::<Seq<char>, Seq<u64>>::empty());
        r
    }

    /// A limiter never keeps more than `MAX_KEYS` keys.
    pub proof fn law_table_stays_bounded(&self)
        requires
            self.wf(),
        ensures
            self@.dom().finite(),
            self@.dom().len() <= MAX_KEYS,
    {
        lemma_table_len(self.slots@);
    }

    fn position(&self, key: &str) -> (r: Option<usize>)
        requires
            self.wf(),
        ensures
            match r {
                Some(i) => i < self.slots@.len() && self.slots@[i as int].key@ == key@,
                None => !self@.contains_key(key@),
            },
    {
        let mut i: usize = 0;
        while i < self.slots.len()
            invariant
                i <= self.slots@.len(),
                forall|j: int| 0 <= j < i ==> #[trigger] self.slots@[j].key@ != key@,
            decreases self.slots.len() - i,
        {
            if same(self.slots[i].key.as_str(), key) {
                return Some(i);
            }
            i = i + 1;
        }
        assert(!keys_of(self.slots@).contains(key@)) by {
            if keys_of(self.slots@).contains(key@) {
                let j = keys_of(self.slots@).index_of(key@);
                assert(self.slots@[j].key@ == key@);
            }
        }
        None
    }

    /// Drops every grant outside the window, and every key left without grants.
    fn evict_stale(&mut self, now: u64, window: u64)
        requires
            old(self).wf(),
        ensures
            final(self).wf(),
            final(self)@ == without_stale(old(self)@, now, window),
    {
        let mut out: Vec<Slot> = Vec::new();
        let mut i: usize = 0;
        let ghost slots = self.slots@;
        let ghost mut src: Seq<int> = Seq::empty();
        while i < self.slots.len()
            invariant
                i <= slots.len(),
                self.slots@ == slots,
                slots.len() <= MAX_KEYS,
                src.len() == out@.len() <= i,
                forall|a: int|
                    0 <= a < src.len() ==> {
                        &&& 0 <= #[trigger] src[a] < i
                        &&& out@[a].key@ == slots[src[a]].key@
                        &&& out@[a].times@ == live(slots[src[a]].times@, now, window)
                        &&& out@[a].times@.len() > 0
                    },
                forall|a: int, b: int| 0 <= a < b < src.len() ==> src[a] < src[b],
                forall|j: int|
                    0 <= j < i && live((#[trigger] slots[j]).times@, now, window).len() > 0
                        ==> src.contains(j),
            decreases self.slots.len() - i,
        {
            let kept = retain_live(&self.slots[i].times, now, window);
            let ghost src0 = src;
            if kept.len() > 0 {
                out.push(Slot { key: self.slots[i].key.clone(), times: kept });
                proof {
                    src = src.push(i as int);
                    assert(src[src0.len() as int] == i as int);
                }
            }
            proof {
                assert forall|j: int| 0 <= j < i + 1 && live((#[trigger] slots[j]).times@, now, window).len()
                    > 0 implies src.contains(j) by {
                    if j < i {
                        assert(src0.contains(j));
                        let a = src0.index_of(j);
                        assert(src[a] == j);
                    } else {
                        assert(src[src0.len() as int] == j);
                    }
                }
            }
            i = i + 1;
        }
        proof {
            let before = table_of(slots);
            let after = table_of(out@);
            let want = without_stale(before, now, window);
            assert forall|a: int, b: int| 0 <= a < out@.len() && 0 <= b < out@.len() && a != b implies keys_of(
                out@,
            )[a] != keys_of(out@)[b] by {
                assert(src[a] != src[b]);
                assert(keys_of(slots)[src[a]] != keys_of(slots)[src[b]]);
            }
            assert(keys_of(out@).no_duplicates());
            assert forall|k: Seq<char>| #[trigger] after.dom().contains(k) implies want.dom().contains(k) && after[k]
                == want[k] by {
                let a = keys_of(out@).index_of(k);
                assert(keys_of(out@)[a] == k);
                lemma_table_at(slots, src[a]);
                lemma_table_at(out@, a);
            }
            assert forall|k: Seq<char>| #[trigger] want.dom().contains(k) implies after.dom().contains(k) by {
                let j = keys_of(slots).index_of(k);
                assert(keys_of(slots)[j] == k);
                lemma_table_at(slots, j);
                assert(live(slots[j].times@, now, window).len() > 0);
                assert(src.contains(j));
                let a = src.index_of(j);
                lemma_table_at(out@, a);
            }
            assert(after.dom() =~= want.dom());
    assert(after =~= want);
        }
        self.slots = out;
    }

    /// Drops one key.
    fn evict_one(&mut self)
        requires
            old(self).wf(),
            old(self)@.dom().len() > 0,
        ensures
            final(self).wf(),
            exists|k: Seq<char>| #[trigger]
                old(self)@.contains_key(k) && final(self)@ == old(self)@.remove(k),
    {
        let ghost slots = self.slots@;
        proof {
            lemma_table_len(slots);
        }
        let last = self.slots.pop();
        proof {
            let n = slots.len() - 1;
            let k = slots[n].key@;
            let rest = self.slots@;
            assert(rest == slots.subrange(0, n));
            assert forall|a: int, b: int| 0 <= a < rest.len() && 0 <= b < rest.len() && a != b implies keys_of(
                rest,
            )[a] != keys_of(rest)[b] by {
                assert(keys_of(slots)[a] != keys_of(slots)[b]);
            }
            assert(keys_of(rest).no_duplicates());
            lemma_table_at(slots, n);
            let before = table_of(slots);
            let after = table_of(rest);
            let want = before.remove(k);
            assert forall|x: Seq<char>| #[trigger] after.dom().contains(x) implies want.dom().contains(x) && after[x]
                == want[x] by {
                let a = keys_of(rest).index_of(x);
                assert(keys_of(rest)[a] == x);
                lemma_table_at(rest, a);
                lemma_table_at(slots, a);
                assert(keys_of(slots)[a] != keys_of(slots)[n]);
            }
            assert forall|x: Seq<char>| #[trigger] want.dom().contains(x) implies after.dom().contains(x) by {
                let a = keys_of(slots).index_of(x);
                assert(keys_of(slots)[a] == x);
                assert(a != n);
                lemma_table_at(rest, a);
            }
            assert(after.dom() =~= want.dom());
    assert(after =~= want);
            assert(before.contains_key(k));
        }
    }

    /// Decides a request of `key` at `now`: granted while fewer than `limit` grants of the key
    /// lie in the window before it, else refused with the seconds after which to try again.
    pub fn allow_window(&mut self, key: &str, limit: u32, window: u64, now: u64) -> (r: Result<
        (),
        u32,
    >)
        requires
            old(self).wf(),
        ensures
            final(self).wf(),
            exists|room: Map<Seq<char>, Seq<u64>>| #[trigger]
                room_made(old(self)@, room, key@, now, window) && final(self)@ == decided(
                    room,
                    key@,
                    limit,
                    window,
                    now,
                ),
            r == request_outcome(old(self)@, key@, limit, window, now),
    {
        let found = self.position(key);
        proof {
            lemma_table_len(self.slots@);
            if found is Some {
                lemma_table_at(self.slots@, found->0 as int);
            }
        }
        let ghost before = self@;
        if found.is_none() && self.slots.len() >= MAX_KEYS {
            self.evict_stale(now, window);
            proof {
                lemma_table_len(self.slots@);
            }
            if self.slots.len() >= MAX_KEYS {
                self.evict_one();
                proof {
                    lemma_table_len(self.slots@);
                }
            }
        }
        let ghost room = self@;
        assert(room_made(before, room, key@, now, window));
        assert(grants_of(room, key@) == grants_of(before, key@));
        let at: usize = match found {
            Some(i) => i,
            None => {
                let i: usize = self.slots.len();
                let ghost slots = self.slots@;
                self.slots.push(Slot { key: key.to_owned(), times: Vec::new() });
                proof {
                    assert(self.slots@.drop_last() =~= slots);
                    lemma_push_key(slots, self.slots@);
                }
                i
            },
        };
        let ghost slots1 = self.slots@;
        let grants = retain_live(&self.slots[at].times, now, window);
        proof {
            lemma_table_at(slots1, at as int);
        }
        assert(grants@ == live(grants_of(room, key@), now, window));
        let refused: bool = grants.len() >= limit as usize;
        let wait: u32 = if grants.len() == 0 {
            1
        } else {
            let oldest: u64 = grants[0];
            proof {
                live_is_live(self.slots@[at as int].times@, now, window);
            }
            let passed: u64 = if now >= oldest {
                now - oldest
            } else {
                0
            };
            let seconds: u64 = (window - passed) / SECOND;
            if seconds < 1 {
                1
            } else {
                seconds as u32
            }
        };
        let mut times = grants;
        if !refused {
            times.push(now);
        }
        let ghost times_now = times@;
        let slot = Slot { key: key.to_owned(), times };
        self.slots.set(at, slot);
        proof {
            lemma_set_times(slots1, self.slots@, at as int, key@);
            assert(self@ =~= decided(room, key@, limit, window, now));
        }
        if refused {
            Err(wait)
        } else {
            Ok(())
        }
    }

    /// Decides a request of `key` at `now` over the window of five minutes.
    pub fn allow(&mut self, key: &str, limit: u32, now: u64) -> (r: Result<(), u32>)
        requires
            old(self).wf(),
        ensures
            final(self).wf(),
            exists|room: Map<Seq<char>, Seq<u64>>| #[trigger]
                room_made(old(self)@, room, key@, now, WINDOW) && final(self)@ == decided(
                    room,
                    key@,
                    limit,
                    WINDOW,
                    now,
                ),
            r == request_outcome(old(self)@, key@, limit, WINDOW, now),
    {
        self.allow_window(key, limit, WINDOW, now)
    }
}

/// What a request of `key` at `now` is told.
pub open spec fn request_outcome(
    table: Map<Seq<char>, Seq<u64>>,
    key: Seq<char>,
    limit: u32,
    window: u64,
    now: u64,
) -> Result<(), u32> {
    let grants = live(grants_of(table, key), now, window);
    if grants.len() < limit {
        Ok(())
    } else {
        Err(retry_after(grants, now, window))
    }
}

/// The table after a request of `key` was decided at `now`, with room made for the key.
pub open spec fn charged(
    before: Map<Seq<char>, Seq<u64>>,
    after: Map<Seq<char>, Seq<u64>>,
    key: Seq<char>,
    limit: u32,
    window: u64,
    now: u64,
) -> bool {
    exists|room: Map<Seq<char>, Seq<u64>>| #[trigger]
        room_made(before, room, key, now, window) && after == decided(
            room,
            key,
            limit,
            window,
            now,
        )
}

/// A request was charged to one key; `told` is what it was told.
pub open spec fn charged_once(
    before: Map<Seq<char>, Seq<u64>>,
    after: Map<Seq<char>, Seq<u64>>,
    key: Seq<char>,
    limit: u32,
    window: u64,
    now: u64,
    told: Result<(), crate::error::ErrorView>,
) -> bool {
    &&& charged(before, after, key, limit, window, now)
    &&& match request_outcome(before, key, limit, window, now) {
        Ok(_) => told is Ok,
        Err(wait) => told == Err::<(), _>(crate::error::too_many(wait)),
    }
}

/// Charges a request to `key`; one too many is refused.
pub fn charge(limiter: &mut RateLimiter, key: &str, limit: u32, window: u64, now: u64) -> (r: Result<
    (),
    AppError,
>)
    requires
        old(limiter).wf(),
    ensures
        final(limiter).wf(),
        charged_once(
            old(limiter)@,
            final(limiter)@,
            key@,
            limit,
            window,
            now,
            crate::error::told(r),
        ),
{
    match limiter.allow_window(key, limit, window, now) {
        Ok(_) => Ok(()),
        Err(wait) => Err(AppError::rate_limited(wait)),
    }
}

/// A request was charged to two keys in turn, to the second only where the first let it pass;
/// `told` is what the request was told.
pub open spec fn charged_twice(
    before: Map<Seq<char>, Seq<u64>>,
    after: Map<Seq<char>, Seq<u64>>,
    first: (Seq<char>, u32),
    second: (Seq<char>, u32),
    window: u64,
    now: u64,
    told: Result<(), crate::error::ErrorView>,
) -> bool {
    exists|mid: Map<Seq<char>, Seq<u64>>| #[trigger]
        charged(before, mid, first.0, first.1, window, now) && match request_outcome(
            before,
            first.0,
            first.1,
            window,
            now,
        ) {
            Err(wait) => after == mid && told == Err::<(), _>(crate::error::too_many(wait)),
            Ok(_) => charged(mid, after, second.0, second.1, window, now)
                && match request_outcome(mid, second.0, second.1, window, now) {
                Err(wait) => told == Err::<(), _>(crate::error::too_many(wait)),
                Ok(_) => told is Ok,
            },
        }
}

/// Charges a request to two keys in turn.
pub fn charge_both(
    limiter: &mut RateLimiter,
    first: &str,
    first_limit: u32,
    second: &str,
    second_limit: u32,
    window: u64,
    now: u64,
) -> (r: Result<(), AppError>)
    requires
        old(limiter).wf(),
    ensures
        final(limiter).wf(),
        charged_twice(
            old(limiter)@,
            final(limiter)@,
            (first@, first_limit),
            (second@, second_limit),
            window,
            now,
            crate::error::told(r),
        ),
{
    if let Err(e) = charge(limiter, first, first_limit, window, now) {
        return Err(e);
    }
    let ghost mid = limiter@;
    let r = charge(limiter, second, second_limit, window, now);
    assert(charged(old(limiter)@, mid, first@, first_limit, window, now));
    r
}

proof fn live_is_live(times: Seq<u64>, now: u64, window: u64)
    ensures
        forall|i: int|
            0 <= i < live(times, now, window).len() ==> age(now, #[trigger] live(times, now, window)[i])
                < window,
{
    let keep = |t: u64| age(now, t) < window;
    assert forall|i: int| 0 <= i < live(times, now, window).len() implies age(
        now,
        #[trigger] live(times, now, window)[i],
    ) < window by {
        times.lemma_filter_pred(keep, i);
    }
}

proof fn lemma_push_key(slots: Seq<Slot>, more: Seq<Slot>)
    requires
        keys_of(slots).no_duplicates(),
        more.len() == slots.len() + 1,
        more.drop_last() == slots,
        !table_of(slots).contains_key(more.last().key@),
        more.last().times@ == Seq::<u64>::empty(),
    ensures
        keys_of(more).no_duplicates(),
        table_of(more) == table_of(slots).insert(more.last().key@, Seq::empty()),
{
    let n = slots.len() as int;
    let k = more.last().key@;
    assert forall|a: int, b: int| 0 <= a < more.len() && 0 <= b < more.len() && a != b implies keys_of(
        more,
    )[a] != keys_of(more)[b] by {
        assert(a < n ==> keys_of(more)[a] == keys_of(slots)[a]);
        assert(b < n ==> keys_of(more)[b] == keys_of(slots)[b]);
        assert(a < n ==> keys_of(slots).contains(keys_of(slots)[a]));
        assert(b < n ==> keys_of(slots).contains(keys_of(slots)[b]));
    }
    assert(keys_of(more).no_duplicates());
    let after = table_of(more);
    let want = table_of(slots).insert(k, Seq::empty());
    assert forall|x: Seq<char>| #[trigger] after.dom().contains(x) implies want.dom().contains(x) && after[x]
        == want[x] by {
        let a = keys_of(more).index_of(x);
        assert(keys_of(more)[a] == x);
        lemma_table_at(more, a);
        if a < n {
            assert(slots[a] == more[a]);
            lemma_table_at(slots, a);
        }
    }
    assert forall|x: Seq<char>| #[trigger] want.dom().contains(x) implies after.dom().contains(x) by {
        if x == k {
            lemma_table_at(more, n);
        } else {
            let a = keys_of(slots).index_of(x);
            assert(keys_of(slots)[a] == x);
            assert(slots[a] == more[a]);
            lemma_table_at(more, a);
        }
    }
    assert(after.dom() =~= want.dom());
    assert(after =~= want);
}

proof fn lemma_set_times(slots: Seq<Slot>, changed: Seq<Slot>, at: int, key: Seq<char>)
    requires
        keys_of(slots).no_duplicates(),
        0 <= at < slots.len(),
        slots[at].key@ == key,
        changed == slots.update(at, changed[at]),
        changed[at].key@ == key,
    ensures
        keys_of(changed) == keys_of(slots),
        table_of(changed) == table_of(slots).insert(key, changed[at].times@),
{
    assert(keys_of(changed) =~= keys_of(slots));
    let after = table_of(changed);
    let want = table_of(slots).insert(key, changed[at].times@);
    lemma_table_at(slots, at);
    lemma_table_at(changed, at);
    assert forall|x: Seq<char>| #[trigger] after.dom().contains(x) implies want.dom().contains(x) && after[x]
        == want[x] by {
        let a = keys_of(changed).index_of(x);
        assert(keys_of(changed)[a] == x);
        lemma_table_at(changed, a);
        lemma_table_at(slots, a);
    }
    assert(after.dom() =~= want.dom());
    assert(after =~= want);
}

/// No more than `limit` grants of a key ever lie in one window: right after a request was
/// granted, the live grants of its key, this one with them, are at most `limit`.
pub proof fn law_grants_stay_within_limit(
    table: Map<Seq<char>, Seq<u64>>,
    key: Seq<char>,
    limit: u32,
    window: u64,
    now: u64,
)
    requires
        request_outcome(table, key, limit, window, now) is Ok,
    ensures
        live(decided(table, key, limit, window, now)[key], now, window).len() <= limit,
{
    let grants = live(grants_of(table, key), now, window);
    let keep = |t: u64| age(now, t) < window;
    grants.push(now).lemma_filter_len(keep);
}

/// A refusal asks for at least one second of patience, and the grant that stood first has left
/// the window once that many whole seconds and one more have passed.
pub proof fn law_refusal_ends(grants: Seq<u64>, now: u64, later: u64, window: u64)
    requires
        window < 0x1_0000_0000 * SECOND,
        grants.len() > 0,
        age(now, grants[0]) < window,
        grants[0] <= now,
        later >= now + (retry_after(grants, now, window) + 1) * SECOND,
    ensures
        retry_after(grants, now, window) >= 1,
        age(later, grants[0]) >= window,
{
    let left = window - age(now, grants[0]);
    let seconds = left / (SECOND as int);
    assert(seconds * SECOND <= left < (seconds + 1) * SECOND) by (nonlinear_arith)
        requires
            seconds == left / 1_000_000_000int,
            SECOND == 1_000_000_000,
    ;
    assert(seconds < 0x1_0000_0000) by (nonlinear_arith)
        requires
            seconds * SECOND <= left,
            left <= window,
            window < 0x1_0000_0000 * SECOND,
            SECOND == 1_000_000_000,
    ;
    let r = retry_after(grants, now, window);
    assert(r >= seconds);
    assert((r + 1) * SECOND >= (seconds + 1) * SECOND) by (nonlinear_arith)
        requires
            r >= seconds,
            SECOND == 1_000_000_000,
    ;
}

/// What one key is told does not depend on the requests of another.
pub proof fn law_keys_are_independent(
    table: Map<Seq<char>, Seq<u64>>,
    key: Seq<char>,
    limit: u32,
    window: u64,
    now: u64,
    other: Seq<char>,
    other_limit: u32,
    other_window: u64,
    later: u64,
)
    requires
        key != other,
    ensures
        request_outcome(
            decided(table, key, limit, window, now),
            other,
            other_limit,
            other_window,
            later,
        ) == request_outcome(table, other, other_limit, other_window, later),
{
}

/// A key whose grants have all left the window is granted again, whatever was refused before.
pub proof fn law_idle_key_is_granted(
    table: Map<Seq<char>, Seq<u64>>,
    key: Seq<char>,
    limit: u32,
    window: u64,
    now: u64,
)
    requires
        limit > 0,
        forall|i: int|
            0 <= i < grants_of(table, key).len() ==> age(now, #[trigger] grants_of(table, key)[i])
                >= window,
    ensures
        request_outcome(table, key, limit, window, now) is Ok,
{
    let times = grants_of(table, key);
    let kept = live(times, now, window);
    if kept.len() > 0 {
        let keep = |t: u64| age(now, t) < window;
        times.lemma_filter_pred(keep, 0);
        lemma_filter_subset(times, keep, 0);
        assert(false);
    }
}

proof fn lemma_filter_subset(s: Seq<u64>, keep: spec_fn(u64) -> bool, i: int)
    requires
        0 <= i < s.filter(keep).len(),
    ensures
        exists|j: int| 0 <= j < s.len() && #[trigger] s[j] == s.filter(keep)[i],
    decreases s.len(),
{
    reveal(Seq::filter);
    let rest = s.drop_last();
    if i < rest.filter(keep).len() {
        lemma_filter_subset(rest, keep, i);
        let j = choose|j: int| 0 <= j < rest.len() && #[trigger] rest[j] == rest.filter(keep)[i];
        assert(s[j] == s.filter(keep)[i]);
    } else {
        assert(s[s.len() - 1] == s.filter(keep)[i]);
    }
}

/// Requests of one key were decided in turn at `instants`, with one limit and one window: before
/// each the limiter held the table of that place, and after it the next.
pub open spec fn decided_in_turn(
    tables: Seq<Map<Seq<char>, Seq<u64>>>,
    key: Seq<char>,
    limit: u32,
    window: u64,
    instants: Seq<u64>,
) -> bool {
    &&& tables.len() == instants.len() + 1
    &&& forall|i: int, j: int|
        0 <= i <= j < instants.len() ==> #[trigger] instants[i] <= #[trigger] instants[j]
    &&& forall|i: int|
        0 <= i < instants.len() ==> charged(
            #[trigger] tables[i],
            tables[i + 1],
            key,
            limit,
            window,
            instants[i],
        )
}

/// The instants of those requests that were told yes.
pub open spec fn told_yes(
    tables: Seq<Map<Seq<char>, Seq<u64>>>,
    key: Seq<char>,
    limit: u32,
    window: u64,
    instants: Seq<u64>,
) -> Seq<u64>
    decreases instants.len(),
{
    if instants.len() == 0 {
        Seq::empty()
    } else {
        let n = instants.len() - 1;
        let before = told_yes(tables, key, limit, window, instants.drop_last());
        if request_outcome(tables[n], key, limit, window, instants[n]) is Ok {
            before.push(instants[n])
        } else {
            before
        }
    }
}

/// The instants that are not behind `at` and lie less than `window` before it.
pub open spec fn lately(times: Seq<u64>, at: u64, window: u64) -> Seq<u64> {
    times.filter(|t: u64| t <= at && at - t < window)
}

/// What is told yes depends on the requests and the tables before them alone.
proof fn lemma_told_yes_of_front(
    tables: Seq<Map<Seq<char>, Seq<u64>>>,
    more: Seq<Map<Seq<char>, Seq<u64>>>,
    key: Seq<char>,
    limit: u32,
    window: u64,
    instants: Seq<u64>,
)
    requires
        instants.len() <= tables.len(),
        instants.len() <= more.len(),
        forall|i: int| 0 <= i < instants.len() ==> tables[i] == more[i],
    ensures
        told_yes(tables, key, limit, window, instants) == told_yes(
            more,
            key,
            limit,
            window,
            instants,
        ),
    decreases instants.len(),
{
    if instants.len() > 0 {
        lemma_told_yes_of_front(tables, more, key, limit, window, instants.drop_last());
    }
}

proof fn lemma_front_decided(
    tables: Seq<Map<Seq<char>, Seq<u64>>>,
    key: Seq<char>,
    limit: u32,
    window: u64,
    instants: Seq<u64>,
)
    requires
        instants.len() > 0,
        decided_in_turn(tables, key, limit, window, instants),
    ensures
        decided_in_turn(tables.drop_last(), key, limit, window, instants.drop_last()),
        told_yes(tables.drop_last(), key, limit, window, instants.drop_last()) == told_yes(
            tables,
            key,
            limit,
            window,
            instants.drop_last(),
        ),
{
    let front = tables.drop_last();
    let times = instants.drop_last();
    assert forall|i: int| 0 <= i < times.len() implies charged(
        #[trigger] front[i],
        front[i + 1],
        key,
        limit,
        window,
        times[i],
    ) by {
        assert(charged(tables[i], tables[i + 1], key, limit, window, instants[i]));
    }
    lemma_told_yes_of_front(front, tables, key, limit, window, times);
}

/// Two conditions that agree on all elements of a sequence pick the same ones.
proof fn lemma_filters_agree(s: Seq<u64>, p: spec_fn(u64) -> bool, q: spec_fn(u64) -> bool)
    requires
        forall|i: int| 0 <= i < s.len() ==> p(#[trigger] s[i]) == q(s[i]),
    ensures
        s.filter(p) == s.filter(q),
    decreases s.len(),
{
    reveal(Seq::filter);
    if s.len() > 0 {
        let front = s.drop_last();
        assert forall|i: int| 0 <= i < front.len() implies p(#[trigger] front[i]) == q(front[i]) by {
            assert(front[i] == s[i]);
        }
        lemma_filters_agree(front, p, q);
        assert(p(s[s.len() - 1]) == q(s[s.len() - 1]));
    }
}

/// Picking by a condition and then by a narrower one is picking by the narrower one.
proof fn lemma_filter_narrows(s: Seq<u64>, wide: spec_fn(u64) -> bool, narrow: spec_fn(u64) -> bool)
    requires
        forall|i: int| 0 <= i < s.len() && narrow(#[trigger] s[i]) ==> wide(s[i]),
    ensures
        s.filter(wide).filter(narrow) == s.filter(narrow),
        s.filter(narrow).len() <= s.filter(wide).len(),
    decreases s.len(),
{
    reveal(Seq::filter);
    if s.len() > 0 {
        let front = s.drop_last();
        assert forall|i: int| 0 <= i < front.len() && narrow(#[trigger] front[i]) implies wide(
            front[i],
        ) by {
            assert(front[i] == s[i]);
        }
        lemma_filter_narrows(front, wide, narrow);
        assert(narrow(s[s.len() - 1]) ==> wide(s[s.len() - 1]));
        if wide(s.last()) {
            assert(s.filter(wide).drop_last() =~= front.filter(wide));
        }
    }
}

/// Everything told yes was told so at one of the instants.
proof fn lemma_told_yes_is_past(
    tables: Seq<Map<Seq<char>, Seq<u64>>>,
    key: Seq<char>,
    limit: u32,
    window: u64,
    instants: Seq<u64>,
    now: u64,
)
    requires
        forall|i: int| 0 <= i < instants.len() ==> #[trigger] instants[i] <= now,
    ensures
        forall|i: int|
            0 <= i < told_yes(tables, key, limit, window, instants).len() ==> #[trigger] told_yes(
                tables,
                key,
                limit,
                window,
                instants,
            )[i] <= now,
    decreases instants.len(),
{
    if instants.len() > 0 {
        let front = instants.drop_last();
        assert forall|i: int| 0 <= i < front.len() implies #[trigger] front[i] <= now by {
            assert(front[i] == instants[i]);
        }
        lemma_told_yes_is_past(tables, key, limit, window, front, now);
        let before = told_yes(tables, key, limit, window, front);
        let out = told_yes(tables, key, limit, window, instants);
        assert forall|i: int| 0 <= i < out.len() implies #[trigger] out[i] <= now by {
            if i < before.len() {
                assert(out[i] == before[i]);
            } else {
                assert(out[i] == instants[instants.len() - 1]);
            }
        }
    }
}

/// The live grants of a key in the table are the requests that were told yes lately.
proof fn lemma_grants_are_what_was_told_yes(
    tables: Seq<Map<Seq<char>, Seq<u64>>>,
    key: Seq<char>,
    limit: u32,
    window: u64,
    instants: Seq<u64>,
    now: u64,
)
    requires
        decided_in_turn(tables, key, limit, window, instants),
        grants_of(tables[0], key).len() == 0,
        forall|i: int| 0 <= i < instants.len() ==> #[trigger] instants[i] <= now,
    ensures
        live(grants_of(tables.last(), key), now, window) == lately(
            told_yes(tables, key, limit, window, instants),
            now,
            window,
        ),
    decreases instants.len(),
{
    reveal(Seq::filter);
    let keep = |t: u64| age(now, t) < window;
    let late = |t: u64| t <= now && now - t < window;
    if instants.len() == 0 {
        assert(grants_of(tables.last(), key) =~= Seq::<u64>::empty());
    } else {
        let n = instants.len() - 1;
        let last = instants[n];
        let front = tables.drop_last();
        let times = instants.drop_last();
        lemma_front_decided(tables, key, limit, window, instants);
        assert forall|i: int| 0 <= i < times.len() implies #[trigger] times[i] <= last by {
            assert(instants[i] <= instants[n]);
        }
        lemma_grants_are_what_was_told_yes(front, key, limit, window, times, last);
        let before = told_yes(tables, key, limit, window, times);
        lemma_told_yes_is_past(tables, key, limit, window, times, last);
        assert(front.last() == tables[n]);
        assert(charged(tables[n], tables[n + 1], key, limit, window, last));
        let room = choose|room: Map<Seq<char>, Seq<u64>>| #[trigger]
            room_made(tables[n], room, key, last, window) && tables[n + 1] == decided(
                room,
                key,
                limit,
                window,
                last,
            );
        assert(grants_of(room, key) == grants_of(tables[n], key));
        let old_keep = |t: u64| age(last, t) < window;
        let old_late = |t: u64| t <= last && last - t < window;
        let grants = live(grants_of(tables[n], key), last, window);
        assert(grants == before.filter(old_late));
        lemma_filter_narrows(before, old_late, late);
        assert(grants.filter(late) == before.filter(late));
        let kept = grants_of(tables[n + 1], key);
        assert forall|i: int| 0 <= i < kept.len() implies keep(#[trigger] kept[i]) == late(
            kept[i],
        ) by {
            if i < grants.len() {
                before.lemma_filter_pred(old_late, i);
            }
        }
        lemma_filters_agree(kept, keep, late);
        if request_outcome(tables[n], key, limit, window, last) is Ok {
            assert(kept == grants.push(last));
            assert(kept.drop_last() =~= grants);
            assert(before.push(last).drop_last() =~= before);
        } else {
            assert(kept == grants);
        }
    }
}

/// A request is told yes exactly where fewer than `limit` of the earlier requests of its key were
/// told yes less than `window` before it.
pub proof fn law_answer_follows_earlier_answers(
    tables: Seq<Map<Seq<char>, Seq<u64>>>,
    key: Seq<char>,
    limit: u32,
    window: u64,
    instants: Seq<u64>,
    now: u64,
)
    requires
        decided_in_turn(tables, key, limit, window, instants),
        !tables[0].contains_key(key),
        forall|i: int| 0 <= i < instants.len() ==> #[trigger] instants[i] <= now,
    ensures
        request_outcome(tables.last(), key, limit, window, now) is Ok <==> lately(
            told_yes(tables, key, limit, window, instants),
            now,
            window,
        ).len() < limit,
{
    lemma_grants_are_what_was_told_yes(tables, key, limit, window, instants, now);
}

/// Over any requests of one key with one limit and window, at instants that do not go back, no
/// more than `limit` of those told yes lie less than `window` before any instant.
pub proof fn law_no_window_holds_more_than_the_limit(
    tables: Seq<Map<Seq<char>, Seq<u64>>>,
    key: Seq<char>,
    limit: u32,
    window: u64,
    instants: Seq<u64>,
    at: u64,
)
    requires
        decided_in_turn(tables, key, limit, window, instants),
        !tables[0].contains_key(key),
    ensures
        lately(told_yes(tables, key, limit, window, instants), at, window).len() <= limit,
    decreases instants.len(),
{
    reveal(Seq::filter);
    let late = |t: u64| t <= at && at - t < window;
    if instants.len() > 0 {
        let n = instants.len() - 1;
        let last = instants[n];
        let front = tables.drop_last();
        let times = instants.drop_last();
        lemma_front_decided(tables, key, limit, window, instants);
        law_no_window_holds_more_than_the_limit(front, key, limit, window, times, at);
        let before = told_yes(tables, key, limit, window, times);
        let out = told_yes(tables, key, limit, window, instants);
        if request_outcome(tables[n], key, limit, window, last) is Ok {
            assert(out.drop_last() =~= before);
            if late(last) {
                assert forall|i: int| 0 <= i < times.len() implies #[trigger] times[i] <= last by {
                    assert(instants[i] <= instants[n]);
                }
                assert(front.last() == tables[n]);
                law_answer_follows_earlier_answers(front, key, limit, window, times, last);
                lemma_told_yes_is_past(tables, key, limit, window, times, last);
                let now_late = |t: u64| t <= last && last - t < window;
                lemma_filter_narrows(before, now_late, late);
            }
        }
    }
}

/// Every request told yes adds one to the live grants of its key, and one that is refused adds
/// none; both leave those of the other keys as they were, unless room had to be made.
pub proof fn law_granted_request_is_recorded(
    before: Map<Seq<char>, Seq<u64>>,
    after: Map<Seq<char>, Seq<u64>>,
    key: Seq<char>,
    limit: u32,
    window: u64,
    now: u64,
)
    requires
        charged(before, after, key, limit, window, now),
        window > 0,
    ensures
        live(grants_of(after, key), now, window).len() == live(
            grants_of(before, key),
            now,
            window,
        ).len() + if request_outcome(before, key, limit, window, now) is Ok {
            1int
        } else {
            0int
        },
        before.contains_key(key) || before.dom().len() < MAX_KEYS ==> forall|other: Seq<char>|
            other != key ==> #[trigger] grants_of(after, other) == grants_of(before, other),
{
    reveal(Seq::filter);
    let room = choose|room: Map<Seq<char>, Seq<u64>>| #[trigger]
        room_made(before, room, key, now, window) && after == decided(
            room,
            key,
            limit,
            window,
            now,
        );
    assert(grants_of(room, key) == grants_of(before, key));
    let keep = |t: u64| age(now, t) < window;
    let grants = live(grants_of(before, key), now, window);
    lemma_filter_narrows(grants_of(before, key), keep, keep);
    assert(grants.filter(keep) == grants);
    assert(grants.push(now).drop_last() =~= grants);
    assert(grants_of(after, key) == if grants.len() < limit {
        grants.push(now)
    } else {
        grants
    });
}

/// Making room drops live grants of one key at most, and of none while fewer keys than the table
/// may hold have live grants.
pub proof fn law_room_costs_one_key_at_most(
    before: Map<Seq<char>, Seq<u64>>,
    after: Map<Seq<char>, Seq<u64>>,
    key: Seq<char>,
    limit: u32,
    window: u64,
    now: u64,
) -> (lost: Seq<char>)
    requires
        charged(before, after, key, limit, window, now),
    ensures
        forall|other: Seq<char>|
            other != key && other != lost ==> #[trigger] live(
                grants_of(after, other),
                now,
                window,
            ) == live(grants_of(before, other), now, window),
        Set::new(
            |k: Seq<char>|
                before.contains_key(k) && live(grants_of(before, k), now, window).len() > 0,
        ).len() < MAX_KEYS ==> forall|other: Seq<char>|
            other != key ==> #[trigger] live(grants_of(after, other), now, window) == live(
                grants_of(before, other),
                now,
                window,
            ),
{
    let room = choose|room: Map<Seq<char>, Seq<u64>>| #[trigger]
        room_made(before, room, key, now, window) && after == decided(
            room,
            key,
            limit,
            window,
            now,
        );
    let pruned = without_stale(before, now, window);
    let keep = |t: u64| age(now, t) < window;
    assert(pruned.dom() =~= Set::new(
        |k: Seq<char>| before.contains_key(k) && live(grants_of(before, k), now, window).len() > 0,
    ));
    assert forall|other: Seq<char>| true implies #[trigger] live(
        grants_of(pruned, other),
        now,
        window,
    ) == live(grants_of(before, other), now, window) by {
        lemma_filter_narrows(grants_of(before, other), keep, keep);
        if !pruned.contains_key(other) {
            reveal(Seq::filter);
            assert(live(grants_of(before, other), now, window) =~= Seq::<u64>::empty());
        }
    }
    if room == before || room == pruned {
        assert forall|other: Seq<char>| other != key implies #[trigger] live(
            grants_of(after, other),
            now,
            window,
        ) == live(grants_of(before, other), now, window) by {
            assert(grants_of(after, other) == grants_of(room, other));
            assert(live(grants_of(pruned, other), now, window) == live(
                grants_of(before, other),
                now,
                window,
            ));
        }
        key
    } else {
        let lost = choose|k: Seq<char>| #[trigger] pruned.contains_key(k) && room == pruned.remove(k);
        assert forall|other: Seq<char>| other != key && other != lost implies #[trigger] live(
            grants_of(after, other),
            now,
            window,
        ) == live(grants_of(before, other), now, window) by {
            assert(grants_of(after, other) == grants_of(pruned, other));
            assert(live(grants_of(pruned, other), now, window) == live(
                grants_of(before, other),
                now,
                window,
            ));
        }
        lost
    }
}

/// A refusal names the whole seconds until the first live grant leaves the window, at least one: no
/// fewer, and no more.
pub proof fn law_refusal_names_the_seconds_left(grants: Seq<u64>, now: u64, window: u64)
    requires
        window < 0x1_0000_0000 * SECOND,
        grants.len() > 0,
        grants[0] <= now < grants[0] + window,
    ensures
        ({
            let left = grants[0] + window - now;
            let wait = retry_after(grants, now, window);
            &&& left < SECOND ==> wait == 1
            &&& left >= SECOND ==> wait * SECOND <= left < (wait + 1) * SECOND
        }),
{
    let left = grants[0] + window - now;
    let seconds = left / (SECOND as int);
    assert(seconds * SECOND <= left < (seconds + 1) * SECOND) by (nonlinear_arith)
        requires
            seconds == left / 1_000_000_000int,
            SECOND == 1_000_000_000,
    ;
    assert(seconds < 0x1_0000_0000) by (nonlinear_arith)
        requires
            seconds * SECOND <= left,
            left <= window,
            window < 0x1_0000_0000 * SECOND,
            SECOND == 1_000_000_000,
    ;
    assert(left >= SECOND ==> seconds >= 1) by (nonlinear_arith)
        requires
            left < (seconds + 1) * SECOND,
            SECOND == 1_000_000_000,
    ;
    assert(left < SECOND ==> seconds < 1) by (nonlinear_arith)
        requires
            seconds * SECOND <= left,
            SECOND == 1_000_000_000,
    ;
}

/// A request is told yes exactly where fewer than `limit` grants of its key are live, and then it is
/// one more of them; one that is refused leaves them as they are.
pub proof fn law_limiter_counts_what_it_grants(
    limiter: &mut RateLimiter,
    key: &str,
    limit: u32,
    window: u64,
    now: u64,
    r: Result<(), u32>,
)
    requires
        limiter.wf(),
        window > 0,
        call_ensures(RateLimiter::allow_window, (limiter, key, limit, window, now), r),
    ensures
        ({
            let before = live(grants_of(old(limiter)@, key@), now, window);
            let after = live(grants_of(final(limiter)@, key@), now, window);
            &&& r is Ok <==> before.len() < limit
            &&& r is Ok ==> after.len() == before.len() + 1 && after.last() == now
            &&& r is Err ==> after == before
            &&& charged(old(limiter)@, final(limiter)@, key@, limit, window, now)
        }),
{
    reveal(Seq::filter);
    law_granted_request_is_recorded(limiter@, final(limiter)@, key@, limit, window, now);
    let room = choose|room: Map<Seq<char>, Seq<u64>>| #[trigger]
        room_made(limiter@, room, key@, now, window) && final(limiter)@ == decided(
            room,
            key@,
            limit,
            window,
            now,
        );
    assert(grants_of(room, key@) == grants_of(limiter@, key@));
    let keep = |t: u64| age(now, t) < window;
    let grants = live(grants_of(limiter@, key@), now, window);
    lemma_filter_narrows(grants_of(limiter@, key@), keep, keep);
    assert(grants.push(now).drop_last() =~= grants);
    assert(grants_of(final(limiter)@, key@) == if grants.len() < limit {
        grants.push(now)
    } else {
        grants
    });
}

/// A request that is charged to a key is refused exactly where the limiter refuses it, and then
/// told how long to wait.
pub proof fn law_charge_follows_the_limiter(
    limiter: &mut RateLimiter,
    key: &str,
    limit: u32,
    window: u64,
    now: u64,
    r: Result<(), AppError>,
)
    requires
        limiter.wf(),
        call_ensures(charge, (limiter, key, limit, window, now), r),
    ensures
        r is Ok <==> live(grants_of(old(limiter)@, key@), now, window).len() < limit,
        r matches Err(e) ==> e@.code == crate::error::ProblemCode::RateLimited
            && e@.retry_after is Some && e@.retry_after == Some(
            retry_after(live(grants_of(old(limiter)@, key@), now, window), now, window),
        ),
        charged(old(limiter)@, final(limiter)@, key@, limit, window, now),
{
}

/// A request that is charged to two keys passes exactly where both let it pass, and one that the
/// first refuses is not charged to the second.
pub proof fn law_both_keys_have_to_let_pass(
    limiter: &mut RateLimiter,
    first: &str,
    first_limit: u32,
    second: &str,
    second_limit: u32,
    window: u64,
    now: u64,
    r: Result<(), AppError>,
)
    requires
        limiter.wf(),
        first@ != second@,
        old(limiter)@.dom().len() < MAX_KEYS - 1,
        old(limiter)@.dom().finite(),
        call_ensures(
            charge_both,
            (limiter, first, first_limit, second, second_limit, window, now),
            r,
        ),
    ensures
        r is Ok <==> live(grants_of(old(limiter)@, first@), now, window).len() < first_limit && live(
            grants_of(old(limiter)@, second@),
            now,
            window,
        ).len() < second_limit,
        live(grants_of(old(limiter)@, first@), now, window).len() >= first_limit ==> grants_of(
            final(limiter)@,
            second@,
        ) == grants_of(old(limiter)@, second@),
{
}

/// A request of one key leaves the grants of every other as they were, as long as the table has
/// room.
pub proof fn lemma_other_keys_stay(
    before: Map<Seq<char>, Seq<u64>>,
    after: Map<Seq<char>, Seq<u64>>,
    key: Seq<char>,
    limit: u32,
    window: u64,
    now: u64,
    other: Seq<char>,
)
    requires
        charged(before, after, key, limit, window, now),
        before.dom().len() < MAX_KEYS,
        key != other,
    ensures
        grants_of(after, other) == grants_of(before, other),
{
}

/// Keys with one front are apart where what follows it is.
pub proof fn lemma_keys_apart(front: Seq<char>, a: Seq<char>, b: Seq<char>)
    requires
        a != b,
    ensures
        front + a != front + b,
{
    assert((front + a).subrange(front.len() as int, (front + a).len() as int) =~= a);
    assert((front + b).subrange(front.len() as int, (front + b).len() as int) =~= b);
}

} // verus!

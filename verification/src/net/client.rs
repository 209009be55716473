//! Match client connection state and event deduplication.
use vstd::prelude::*;
use crate::game::GameState;
use crate::matchplay::Team;
use crate::net::proto::{seq_add, seq_ahead, seq_newer, EVENT_HISTORY, HALF_SEQUENCE};

verus! {

/// The seat a server's `Welcome` grants.
#[derive(Clone, Copy, Debug, PartialEq, Eq, Structural)]
pub struct WelcomeSeat {
    pub net_id: u32,
    pub slot: usize,
    pub team: Team,
}

/// Where the client stands with the match server.
pub enum ConnState {
    Connecting,
    Welcomed(WelcomeSeat),
    Rejected(String),
}

impl ConnState {
    pub fn welcomed(&self) -> (r: bool)
        ensures
            r == (*self is Welcomed),
    {
        matches!(self, ConnState::Welcomed(_))
    }

    pub fn rejected(&self) -> (r: Option<String>)
        ensures
            match *self {
                ConnState::Rejected(reason) => r matches Some(s) && s@ == reason@,
                _ => r is None,
            },
    {
        match self {
            ConnState::Rejected(reason) => Some(reason.clone()),
            _ => None,
        }
    }

    pub fn welcome(&self) -> (r: Option<WelcomeSeat>)
        ensures
            match *self {
                ConnState::Welcomed(seat) => r == Some(seat),
                _ => r is None,
            },
    {
        match self {
            ConnState::Welcomed(seat) => Some(*seat),
            _ => None,
        }
    }

    /// The client's network identity, 0 until welcomed.
    pub fn my_net_id(&self) -> (r: u32)
        ensures
            match *self {
                ConnState::Welcomed(seat) => r == seat.net_id,
                _ => r == 0,
            },
    {
        match self {
            ConnState::Welcomed(seat) => seat.net_id,
            _ => 0,
        }
    }

    /// A `Welcome` seats the client unless it already has a seat.
    pub fn on_welcome(&mut self, seat: WelcomeSeat)
        ensures
            (*old(self) is Welcomed) ==> *final(self) == *old(self),
            !(*old(self) is Welcomed) ==> *final(self) == ConnState::Welcomed(seat),
    {
        if !self.welcomed() {
            *self = ConnState::Welcomed(seat);
        }
    }

    /// A `Rejected` ends the attempt unless the client already has a seat.
    pub fn on_rejected(&mut self, reason: String)
        ensures
            (*old(self) is Welcomed) ==> *final(self) == *old(self),
            !(*old(self) is Welcomed) ==> *final(self) == ConnState::Rejected(reason),
    {
        if !self.welcomed() {
            *self = ConnState::Rejected(reason);
        }
    }
}

/// Whether a snapshot with `tick` replaces the newest one kept so far.
pub fn snapshot_newer(tick: u32, latest: Option<u32>) -> (r: bool)
    ensures
        r == match latest {
            Some(old) => seq_ahead(tick, old) < HALF_SEQUENCE,
            None => true,
        },
{
    match latest {
        Some(old) => seq_newer(tick, old),
        None => true,
    }
}

/// Sequence number of the `i`-th event of a snapshot whose first event is `base`.
pub open spec fn event_seq(base: u32, i: int) -> u32 {
    seq_add(base, (i as u32) as int)
}

/// The first sequence number still to replay. Before the first snapshot nothing is
/// known, and that snapshot's history is skipped.
pub open spec fn replay_start(base: u32, count: int, next: Option<u32>) -> u32 {
    match next {
        Some(n) => n,
        None => seq_add(base, (count as u32) as int),
    }
}

/// Indices (in order) of the events of a snapshot that have not been replayed yet:
/// those at or after the start, within half the sequence space.
pub open spec fn replayed(base: u32, count: int, next: Option<u32>) -> Seq<int> {
    Seq::new(count as nat, |i: int| i).filter(
        |i: int| seq_ahead(event_seq(base, i), replay_start(base, count, next)) < HALF_SEQUENCE,
    )
}

/// Picks the events of a snapshot (`count` events, the first numbered `base`) to
/// replay, given the next sequence number expected (`None` before the first
/// snapshot). Returns their indices and the next sequence number to expect.
pub fn replay(base: u32, count: usize, next: Option<u32>) -> (r: (Vec<usize>, u32))
    ensures
        r.0@.map_values(|i: usize| i as int) == replayed(base, count as int, next),
        r.1 == (if r.0@.len() == 0 {
            replay_start(base, count as int, next)
        } else {
            seq_add(event_seq(base, r.0@.last() as int), 1)
        }),
        r.1 == next_expected(base, count as int, next),
{
    let start: u32 = match next {
        Some(n) => n,
        None => base.wrapping_add(count as u32),
    };
    let ghost all = Seq::new(count as nat, |i: int| i);
    let ghost keep = |i: int| seq_ahead(event_seq(base, i), start) < HALF_SEQUENCE;
    let mut out: Vec<usize> = Vec::new();
    let mut cursor = start;
    let mut i: usize = 0;
    #[verifier::rlimit(40)]
    while i < count
        invariant
            i <= count,
            start == replay_start(base, count as int, next),
            all == Seq::new(count as nat, |i: int| i),
            keep == (|i: int| seq_ahead(event_seq(base, i), start) < HALF_SEQUENCE),
            out@.map_values(|i: usize| i as int) == all.take(i as int).filter(keep),
            cursor == (if out@.len() == 0 {
                start
            } else {
                seq_add(event_seq(base, out@.last() as int), 1)
            }),
        decreases count - i,
    {
        proof {
            reveal_with_fuel(Seq::<_>::filter, 1);
            assert(all.take(i + 1).drop_last() =~= all.take(i as int));
        }
        let seq = base.wrapping_add(i as u32);
        assert(seq == event_seq(base, i as int));
        let fresh = seq_newer(seq, start);
        assert(fresh == keep(i as int));
        assert(all[i as int] == i as int);
        let ghost before = out@;
        if fresh {
            out.push(i);
            cursor = seq.wrapping_add(1);
            assert(out@.last() == i);
            assert(cursor == seq_add(event_seq(base, i as int), 1));
        }
        proof {
            let f = all.take(i + 1).filter(keep);
            assert(all.take(i + 1).last() == i as int);
            if fresh {
                assert(f == all.take(i as int).filter(keep).push(i as int));
                assert(out@.map_values(|i: usize| i as int) =~= before.map_values(|i: usize| i as int).push(i as int));
            } else {
                assert(f == all.take(i as int).filter(keep));
                assert(out@ == before);
            }
        }
        i += 1;
    }
    assert(all.take(count as int) =~= all);
    proof {
        let r = replayed(base, count as int, next);
        assert(out@.map_values(|i: usize| i as int) == r);
        if out@.len() > 0 {
            assert(r.last() == out@.last() as int);
        }
    }
    (out, cursor)
}

/// No event of a snapshot is replayed when the expected sequence number lies just
/// past the snapshot's events.
proof fn lemma_nothing_after_end(base: u32, count: int)
    requires
        0 <= count <= HALF_SEQUENCE,
    ensures
        replayed(base, count, Some(seq_add(base, count))).len() == 0,
{
    let start = seq_add(base, count);
    let all = Seq::new(count as nat, |i: int| i);
    let keep = |i: int| seq_ahead(event_seq(base, i), start) < HALF_SEQUENCE;
    let out = all.filter(keep);
    if out.len() > 0 {
        all.lemma_filter_pred(keep, 0);
        assert(out.contains(out[0]));
        all.lemma_filter_contains_rev(keep, out[0]);
        let x = out[0];
        assert(0 <= x < count);
        assert((x as u32) as int == x);
        assert(!keep(x));
    }
}

/// The first snapshot's history is skipped, and a snapshot replayed again from the
/// sequence number that follows its last event replays nothing.
pub proof fn lemma_replay_skips_known(base: u32, count: int)
    requires
        0 <= count <= HALF_SEQUENCE,
    ensures
        replayed(base, count, None).len() == 0,
        replayed(base, count, Some(seq_add(base, count))).len() == 0,
{
    assert((count as u32) as int == count);
    assert(replay_start(base, count, None) == seq_add(base, count));
    lemma_nothing_after_end(base, count);
    assert(replayed(base, count, None) == replayed(base, count, Some(seq_add(base, count))));
}

/// Replaying from the snapshot's first sequence number replays every event, in order.
pub proof fn lemma_replay_from_base(base: u32, count: int)
    requires
        0 <= count <= HALF_SEQUENCE,
    ensures
        replayed(base, count, Some(base)) == Seq::new(count as nat, |i: int| i),
{
    let all = Seq::new(count as nat, |i: int| i);
    let keep = |i: int| seq_ahead(event_seq(base, i), base) < HALF_SEQUENCE;
    assert forall|i: int| 0 <= i < all.len() implies keep(all[i]) by {
        assert((i as u32) as int == i);
    }
    lemma_filter_all(all, keep);
}

proof fn lemma_filter_all(s: Seq<int>, p: spec_fn(int) -> bool)
    requires
        forall|i: int| 0 <= i < s.len() ==> p(s[i]),
    ensures
        s.filter(p) == s,
    decreases s.len(),
{
    reveal_with_fuel(Seq::<_>::filter, 1);
    if s.len() > 0 {
        lemma_filter_all(s.drop_last(), p);
        assert(s.drop_last().push(s.last()) =~= s);
    } else {
        assert(s.filter(p) =~= s);
    }
}

/// How far the `i`-th event of a snapshot lies ahead of its `k`-th.
proof fn lemma_ahead_of_offset(base: u32, i: int, k: int)
    requires
        0 <= i < 0x1_0000_0000,
        -0x1_0000_0000 < k < 0x1_0000_0000,
    ensures
        seq_ahead(seq_add(base, i), seq_add(base, k)) == (i - k) % 0x1_0000_0000,
{
    let m: int = 0x1_0000_0000;
    let a = base as int + i;
    let b = base as int + k;
    assert(seq_add(base, i) as int == a % m);
    assert(seq_add(base, k) as int == b % m);
    vstd::arithmetic::div_mod::lemma_sub_mod_noop(a, b, m);
    assert(a - b == i - k);
}

proof fn lemma_filter_from(count: int, k: int, p: spec_fn(int) -> bool)
    requires
        0 <= k <= count,
        forall|i: int| 0 <= i < count ==> #[trigger] p(i) == (i >= k),
    ensures
        Seq::new(count as nat, |i: int| i).filter(p) == Seq::new((count - k) as nat, |i: int| i + k),
    decreases count,
{
    reveal_with_fuel(Seq::<_>::filter, 1);
    let all = Seq::new(count as nat, |i: int| i);
    if count == 0 {
        assert(all.filter(p) =~= Seq::<int>::empty());
        assert(Seq::new((count - k) as nat, |i: int| i + k) =~= Seq::<int>::empty());
    } else {
        assert(all.drop_last() =~= Seq::new((count - 1) as nat, |i: int| i));
        if count - 1 >= k {
            lemma_filter_from(count - 1, k, p);
            assert(Seq::new((count - 1 - k) as nat, |i: int| i + k).push(count - 1) =~= Seq::new(
                (count - k) as nat,
                |i: int| i + k,
            ));
        } else {
            assert(k == count);
            assert forall|i: int| 0 <= i < all.len() implies !p(#[trigger] all[i]) by {
                assert(all[i] == i);
            }
            lemma_filter_none(all, p);
            assert(Seq::new((count - k) as nat, |i: int| i + k) =~= Seq::<int>::empty());
        }
    }
}

proof fn lemma_filter_none(s: Seq<int>, p: spec_fn(int) -> bool)
    requires
        forall|i: int| 0 <= i < s.len() ==> !p(#[trigger] s[i]),
    ensures
        s.filter(p) == Seq::<int>::empty(),
    decreases s.len(),
{
    reveal_with_fuel(Seq::<_>::filter, 1);
    if s.len() > 0 {
        lemma_filter_none(s.drop_last(), p);
    } else {
        assert(s.filter(p) =~= Seq::<int>::empty());
    }
}

/// Each event is replayed once: a client that expects the event numbered `k`
/// places after a snapshot's first replays exactly that event and those after it,
/// in order, and then expects the number that follows the snapshot's last event.
pub proof fn lemma_replay_each_once(base: u32, count: int, k: int)
    requires
        0 <= k <= count <= HALF_SEQUENCE,
    ensures
        replayed(base, count, Some(seq_add(base, k))) == Seq::new((count - k) as nat, |i: int| i + k),
        k < count ==> seq_add(event_seq(base, count - 1), 1) == seq_add(base, count),
        k == count ==> replay_start(base, count, Some(seq_add(base, k))) == seq_add(base, count),
{
    let start = seq_add(base, k);
    let keep = |i: int| seq_ahead(event_seq(base, i), start) < HALF_SEQUENCE;
    assert forall|i: int| 0 <= i < count implies #[trigger] keep(i) == (i >= k) by {
        assert((i as u32) as int == i);
        lemma_ahead_of_offset(base, i, k);
        if i >= k {
            assert((i - k) % 0x1_0000_0000 == i - k) by {
                vstd::arithmetic::div_mod::lemma_small_mod((i - k) as nat, 0x1_0000_0000);
            }
        } else {
            assert((i - k) % 0x1_0000_0000 == i - k + 0x1_0000_0000) by {
                vstd::arithmetic::div_mod::lemma_small_mod((i - k + 0x1_0000_0000) as nat, 0x1_0000_0000);
                vstd::arithmetic::div_mod::lemma_mod_add_multiples_vanish(i - k, 0x1_0000_0000);
            }
        }
    }
    lemma_filter_from(count, k, keep);
    if k < count {
        assert(((count - 1) as u32) as int == count - 1);
        let m: int = 0x1_0000_0000;
        let x = base as int + (count - 1);
        assert(event_seq(base, count - 1) as int == x % m);
        assert(seq_add(event_seq(base, count - 1), 1) as int == (x % m + 1) % m);
        vstd::arithmetic::div_mod::lemma_add_mod_noop(x, 1, m);
        vstd::arithmetic::div_mod::lemma_small_mod(1, m as nat);
        vstd::arithmetic::div_mod::lemma_mod_twice(x + 1, m);
        assert((x % m + 1int % m) % m == (x + 1) % m);
    }
}

/// The sequence number a client expects after a snapshot: the one after the last
/// event replayed, or the start when nothing was replayed.
pub open spec fn next_expected(base: u32, count: int, next: Option<u32>) -> u32 {
    let r = replayed(base, count, next);
    if r.len() == 0 {
        replay_start(base, count, next)
    } else {
        seq_add(event_seq(base, r.last()), 1)
    }
}

/// An index a snapshot replays is one of its events, chosen by the replay rule,
/// and at most the last one replayed.
proof fn lemma_replayed_member(base: u32, count: int, next: Option<u32>, i: int)
    requires
        0 <= count,
        replayed(base, count, next).contains(i),
    ensures
        0 <= i < count,
        seq_ahead(event_seq(base, i), replay_start(base, count, next)) < HALF_SEQUENCE,
        i <= replayed(base, count, next).last(),
{
    let all = Seq::new(count as nat, |k: int| k);
    let keep = |k: int| seq_ahead(event_seq(base, k), replay_start(base, count, next)) < HALF_SEQUENCE;
    let r = all.filter(keep);
    all.lemma_filter_contains_rev(keep, i);
    let x = choose|x: int| 0 <= x < r.len() && r[x] == i;
    all.lemma_filter_pred(keep, x);
    lemma_filter_max(count, keep, i);
}

proof fn lemma_filter_max(n: int, p: spec_fn(int) -> bool, i: int)
    requires
        0 <= n,
        Seq::new(n as nat, |k: int| k).filter(p).contains(i),
    ensures
        i <= Seq::new(n as nat, |k: int| k).filter(p).last(),
    decreases n,
{
    reveal_with_fuel(Seq::<_>::filter, 1);
    let all = Seq::new(n as nat, |k: int| k);
    let prev = Seq::new((n - 1) as nat, |k: int| k);
    if n > 0 {
        assert(all.drop_last() =~= prev);
        if p(n - 1) {
            let f = prev.filter(p);
            assert(all.filter(p) == f.push(n - 1));
            if i != n - 1 {
                assert(f.contains(i));
                prev.lemma_filter_contains_rev(p, i);
            }
        } else {
            assert(all.filter(p) == prev.filter(p));
            lemma_filter_max(n - 1, p, i);
        }
    }
}

/// How far apart two different sequence numbers lie, each way, sums to the whole
/// sequence space.
proof fn lemma_ahead_flip(a: u32, b: u32)
    requires
        a != b,
    ensures
        seq_ahead(a, b) + seq_ahead(b, a) == 0x1_0000_0000,
{
    let m: int = 0x1_0000_0000;
    let d = a as int - b as int;
    if d > 0 {
        vstd::arithmetic::div_mod::lemma_small_mod(d as nat, m as nat);
        vstd::arithmetic::div_mod::lemma_small_mod((m - d) as nat, m as nat);
        vstd::arithmetic::div_mod::lemma_mod_add_multiples_vanish(-d, m);
    } else {
        vstd::arithmetic::div_mod::lemma_small_mod((-d) as nat, m as nat);
        vstd::arithmetic::div_mod::lemma_small_mod((m + d) as nat, m as nat);
        vstd::arithmetic::div_mod::lemma_mod_add_multiples_vanish(d, m);
    }
}

/// Two snapshots in a row never replay the same sequence number: when a client
/// replays one snapshot and then the next from where the first left off, no
/// sequence number the first replayed is replayed by the second. Over a whole run
/// see `lemma_run_replays_once`.
pub proof fn lemma_replay_never_twice(
    base1: u32,
    count1: int,
    next: Option<u32>,
    base2: u32,
    count2: int,
    i: int,
    j: int,
)
    requires
        0 <= count1 <= HALF_SEQUENCE,
        0 <= count2 <= HALF_SEQUENCE,
        replayed(base1, count1, next).contains(i),
        replayed(base2, count2, Some(next_expected(base1, count1, next))).contains(j),
    ensures
        event_seq(base1, i) != event_seq(base2, j),
{
    let r1 = replayed(base1, count1, next);
    let next1 = next_expected(base1, count1, next);
    lemma_replayed_member(base1, count1, next, i);
    lemma_replayed_member(base2, count2, Some(next1), j);
    let last = r1.last();
    assert(0 <= last < count1) by {
        assert(r1.contains(last)) by {
            assert(r1[r1.len() - 1] == last);
        }
        lemma_replayed_member(base1, count1, next, last);
    }
    // The expected number is `last + 1` steps after the first event.
    let m: int = 0x1_0000_0000;
    assert((last as u32) as int == last);
    let x = base1 as int + last;
    assert(event_seq(base1, last) as int == x % m);
    vstd::arithmetic::div_mod::lemma_add_mod_noop(x, 1, m);
    vstd::arithmetic::div_mod::lemma_small_mod(1, m as nat);
    vstd::arithmetic::div_mod::lemma_mod_twice(x + 1, m);
    assert(next1 == seq_add(base1, last + 1));
    assert((i as u32) as int == i);
    lemma_ahead_of_offset(base1, last + 1, i);
    vstd::arithmetic::div_mod::lemma_small_mod((last + 1 - i) as nat, m as nat);
    let s = event_seq(base1, i);
    assert(seq_ahead(next1, s) == last + 1 - i);
    if s == event_seq(base2, j) {
        assert(s != next1);
        lemma_ahead_flip(s, next1);
    }
}

/// An event number counted from the start of the match without wrapping, as it
/// travels on the wire.
pub open spec fn wire(n: int) -> u32 {
    seq_add(0, n)
}

/// The number one past the last event snapshot `k` of a run carries.
pub open spec fn snapshot_end(firsts: Seq<int>, counts: Seq<int>, k: int) -> int {
    firsts[k] + counts[k]
}

/// What the client expects before snapshot `k` of a run: nothing before the
/// first, then what the previous snapshot left.
pub open spec fn run_next(firsts: Seq<int>, counts: Seq<int>, k: int) -> Option<u32>
    decreases k,
{
    if k <= 0 {
        None
    } else {
        Some(next_expected(wire(firsts[k - 1]), counts[k - 1], run_next(firsts, counts, k - 1)))
    }
}

/// The events snapshot `k` of a run replays.
pub open spec fn run_replayed(firsts: Seq<int>, counts: Seq<int>, k: int) -> Seq<int> {
    replayed(wire(firsts[k]), counts[k], run_next(firsts, counts, k))
}

/// The snapshots a client receives, in order, from a server that numbers its
/// events from the start of the match: snapshot `k` carries `counts[k]` events
/// numbered from `firsts[k]` (unwrapped). The server keeps at most
/// `EVENT_HISTORY` of its latest events, so the end of the history never moves
/// back and stays put while it holds no event; and the client never misses
/// half the sequence space of events between two snapshots.
pub open spec fn consistent_run(firsts: Seq<int>, counts: Seq<int>) -> bool {
    &&& firsts.len() == counts.len()
    &&& forall|k: int| 0 <= k < counts.len() ==> 0 <= #[trigger] counts[k] <= EVENT_HISTORY
    &&& forall|k: int|
        1 <= k < firsts.len() ==> snapshot_end(firsts, counts, k - 1) <= #[trigger] snapshot_end(
            firsts,
            counts,
            k,
        )
    &&& forall|k: int|
        1 <= k < firsts.len() && #[trigger] counts[k] == 0 ==> snapshot_end(firsts, counts, k)
            == snapshot_end(firsts, counts, k - 1)
    &&& forall|k: int|
        1 <= k < firsts.len() ==> #[trigger] firsts[k] - snapshot_end(firsts, counts, k - 1) < HALF_SEQUENCE
            - EVENT_HISTORY
}

proof fn lemma_wire_add(a: int, d: int)
    ensures
        seq_add(wire(a), d) == wire(a + d),
{
    let m: int = 0x1_0000_0000;
    vstd::arithmetic::div_mod::lemma_add_mod_noop_right(d, a, m);
}

/// When the client expects a number before a snapshot's first event (it missed
/// some events), every event of the snapshot is replayed.
proof fn lemma_replay_gap(base: u32, count: int, d: int)
    requires
        0 < count,
        d < 0,
        count - d < HALF_SEQUENCE,
    ensures
        replayed(base, count, Some(seq_add(base, d))) == Seq::new(count as nat, |i: int| i),
{
    let all = Seq::new(count as nat, |i: int| i);
    let start = seq_add(base, d);
    let keep = |i: int| seq_ahead(event_seq(base, i), start) < HALF_SEQUENCE;
    assert forall|i: int| 0 <= i < all.len() implies keep(all[i]) by {
        assert((i as u32) as int == i);
        lemma_ahead_of_offset(base, i, d);
        vstd::arithmetic::div_mod::lemma_small_mod((i - d) as nat, 0x1_0000_0000);
    }
    lemma_filter_all(all, keep);
}

/// The first snapshot's events are not replayed; every later snapshot replays
/// exactly its events numbered from the previous snapshot's end on, in order;
/// and after snapshot `k` the client expects the number that follows it.
pub proof fn lemma_run_shape(firsts: Seq<int>, counts: Seq<int>, k: int)
    requires
        consistent_run(firsts, counts),
        0 <= k < firsts.len(),
    ensures
        k == 0 ==> run_replayed(firsts, counts, k).len() == 0,
        k > 0 ==> ({
            let from = snapshot_end(firsts, counts, k - 1) - firsts[k];
            let lo = if from < 0 { 0 } else { from };
            run_replayed(firsts, counts, k) == Seq::new((counts[k] - lo) as nat, |i: int| i + lo)
        }),
        run_next(firsts, counts, k + 1) == Some(wire(snapshot_end(firsts, counts, k))),
    decreases k,
{
    let base = wire(firsts[k]);
    let count = counts[k];
    assert(0 <= count <= EVENT_HISTORY);
    lemma_wire_add(firsts[k], count);
    if k == 0 {
        lemma_replay_skips_known(base, count);
        assert((count as u32) as int == count);
    } else {
        lemma_run_shape(firsts, counts, k - 1);
        let end = snapshot_end(firsts, counts, k - 1);
        let d = end - firsts[k];
        assert(snapshot_end(firsts, counts, k - 1) <= snapshot_end(firsts, counts, k));
        assert(firsts[k] - end < HALF_SEQUENCE - EVENT_HISTORY);
        lemma_wire_add(firsts[k], d);
        assert(run_next(firsts, counts, k) == Some(seq_add(base, d)));
        if d >= 0 {
            lemma_replay_each_once(base, count, d);
            if d < count {
                let r = Seq::new((count - d) as nat, |i: int| i + d);
                assert(r.last() == count - 1);
            }
        } else {
            assert(count > 0) by {
                if count == 0 {
                    assert(snapshot_end(firsts, counts, k) == end);
                }
            }
            lemma_replay_gap(base, count, d);
            lemma_replay_each_once(base, count, 0);
            let r = Seq::new(count as nat, |i: int| i);
            assert(r.last() == count - 1);
            assert(r =~= Seq::new((count - 0) as nat, |i: int| i + 0));
        }
    }
}

proof fn lemma_ends_grow(firsts: Seq<int>, counts: Seq<int>, a: int, b: int)
    requires
        consistent_run(firsts, counts),
        0 <= a <= b < firsts.len(),
    ensures
        snapshot_end(firsts, counts, a) <= snapshot_end(firsts, counts, b),
    decreases b - a,
{
    if a < b {
        lemma_ends_grow(firsts, counts, a, b - 1);
        assert(snapshot_end(firsts, counts, b - 1) <= snapshot_end(firsts, counts, b));
    }
}

/// Each event is replayed at most once over a whole run of snapshots, and in
/// order: an event a later snapshot replays comes after every event an earlier
/// snapshot replayed (counting without wrapping).
pub proof fn lemma_run_replays_once(firsts: Seq<int>, counts: Seq<int>, k1: int, i: int, k2: int, j: int)
    requires
        consistent_run(firsts, counts),
        0 <= k1 < k2 < firsts.len(),
        run_replayed(firsts, counts, k1).contains(i),
        run_replayed(firsts, counts, k2).contains(j),
    ensures
        firsts[k1] + i < firsts[k2] + j,
{
    lemma_run_shape(firsts, counts, k1);
    lemma_run_shape(firsts, counts, k2);
    let r1 = run_replayed(firsts, counts, k1);
    let r2 = run_replayed(firsts, counts, k2);
    let x1 = choose|x: int| 0 <= x < r1.len() && r1[x] == i;
    let x2 = choose|x: int| 0 <= x < r2.len() && r2[x] == j;
    assert(k1 > 0);
    assert(firsts[k1] + i < snapshot_end(firsts, counts, k1));
    assert(firsts[k2] + j >= snapshot_end(firsts, counts, k2 - 1));
    lemma_ends_grow(firsts, counts, k1, k2 - 1);
}

/// The kinds of match event the server numbers, by what replaying them needs.
#[derive(Clone, Copy, Debug, PartialEq, Eq, Structural)]
pub enum EventKind {
    Kill,
    /// A shot, by the network identity of the actor who fired it.
    Shot(u32),
    Joined,
    Left,
}

/// What replaying an event does on this client.
#[derive(Clone, Copy, Debug, PartialEq, Eq, Structural)]
pub enum ReplayEffect {
    /// Announces the kill.
    KillNotice,
    /// Draws the shot.
    ShotFired,
    /// Only writes a log line.
    Logged,
    /// Nothing: the local player's own shots were drawn when fired.
    Skipped,
}

/// What replaying an event does, for the client whose network identity is `mine`.
pub fn replay_effect(kind: EventKind, mine: u32) -> (r: ReplayEffect)
    ensures
        r == match kind {
            EventKind::Kill => ReplayEffect::KillNotice,
            EventKind::Shot(actor) => if actor == mine {
                ReplayEffect::Skipped
            } else {
                ReplayEffect::ShotFired
            },
            EventKind::Joined | EventKind::Left => ReplayEffect::Logged,
        },
{
    match kind {
        EventKind::Kill => ReplayEffect::KillNotice,
        EventKind::Shot(actor) => if actor != mine {
            ReplayEffect::ShotFired
        } else {
            ReplayEffect::Skipped
        },
        EventKind::Joined | EventKind::Left => ReplayEffect::Logged,
    }
}

/// Milliseconds between two `Join` (or `Ping`) messages.
pub const RESEND_MS: u64 = 500;

/// Milliseconds without a snapshot after which a seated client gives up.
pub const CLIENT_TIMEOUT_MS: u64 = 15000;

/// Milliseconds a connection attempt may take while the map loads.
pub const CONNECT_TIMEOUT_MS: u64 = 45000;

/// What the client sends on its periodic beat.
#[derive(Clone, Copy, Debug, PartialEq, Eq, Structural)]
pub enum Beat {
    /// Repeats the `Join` until a seat is granted.
    Join,
    /// Keeps the seat while the map is still loading.
    Ping,
    Quiet,
}

/// The beat at `now_ms`: once more than `RESEND_MS` have passed since the last
/// one, a connecting client sends `Join` (and remembers when it first did), and a
/// seated client that is not playing yet sends `Ping`.
pub fn beat(
    conn: &ConnState,
    playing: bool,
    now_ms: u64,
    last_beat: &mut u64,
    connect_started: &mut Option<u64>,
) -> (r: Beat)
    ensures
        now_ms - *old(last_beat) <= RESEND_MS ==> r == Beat::Quiet && *final(last_beat) == *old(last_beat)
            && *final(connect_started) == *old(connect_started),
        now_ms - *old(last_beat) > RESEND_MS ==> *final(last_beat) == now_ms && match *conn {
            ConnState::Connecting => r == Beat::Join && *final(connect_started) == Some(
                match *old(connect_started) {
                    Some(t) => t,
                    None => now_ms,
                },
            ),
            ConnState::Welcomed(_) => r == (if playing {
                Beat::Quiet
            } else {
                Beat::Ping
            }) && *final(connect_started) == *old(connect_started),
            ConnState::Rejected(_) => r == Beat::Quiet && *final(connect_started) == *old(connect_started),
        },
{
    if now_ms <= *last_beat || now_ms - *last_beat <= RESEND_MS {
        return Beat::Quiet;
    }
    *last_beat = now_ms;
    match conn {
        ConnState::Connecting => {
            if connect_started.is_none() {
                *connect_started = Some(now_ms);
            }
            Beat::Join
        },
        ConnState::Welcomed(_) => if playing {
            Beat::Quiet
        } else {
            Beat::Ping
        },
        ConnState::Rejected(_) => Beat::Quiet,
    }
}

/// The connection is lost when a seated client playing hears nothing for
/// `CLIENT_TIMEOUT_MS`, or a client still loading gets neither a seat nor a
/// refusal within `CONNECT_TIMEOUT_MS` of its first `Join`.
pub open spec fn spec_timed_out(
    conn: ConnState,
    state: GameState,
    now_ms: u64,
    last_snapshot: u64,
    connect_started: Option<u64>,
) -> bool {
    match state {
        GameState::Playing => conn is Welcomed && now_ms - last_snapshot > CLIENT_TIMEOUT_MS,
        GameState::Loading => conn is Connecting && match connect_started {
            Some(t) => now_ms - t > CONNECT_TIMEOUT_MS,
            None => false,
        },
        _ => false,
    }
}

/// Notices a lost connection once: the first time it is lost the reason is kept
/// and `true` tells the caller to show it and fail the load.
pub fn lost_connection(
    conn: &ConnState,
    state: GameState,
    now_ms: u64,
    last_snapshot: u64,
    connect_started: Option<u64>,
    reason: &mut Option<String>,
) -> (r: bool)
    ensures
        r == (spec_timed_out(*conn, state, now_ms, last_snapshot, connect_started) && *old(reason) is None),
        r ==> (*final(reason) matches Some(m) && m@ == "Lost connection to the match server"@),
        !r ==> *final(reason) == *old(reason),
{
    let timed_out = match state {
        GameState::Playing => conn.welcomed() && now_ms > last_snapshot && now_ms - last_snapshot
            > CLIENT_TIMEOUT_MS,
        GameState::Loading => match conn {
            ConnState::Connecting => match connect_started {
                Some(t) => now_ms > t && now_ms - t > CONNECT_TIMEOUT_MS,
                None => false,
            },
            _ => false,
        },
        _ => false,
    };
    if timed_out && reason.is_none() {
        *reason = Some(String::from_str("Lost connection to the match server"));
        true
    } else {
        false
    }
}

/// A client leaves the match server once the match has finished or the
/// connection was lost.
pub fn leaves_server(finished: bool, reason: &Option<String>) -> (r: bool)
    ensures
        r == (finished || reason is Some),
{
    finished || reason.is_some()
}

} // verus!

//! Routing of messages from one stage to the channels of the next stage.
//!
//! A dispatcher knows the destinations of the next stage as an ordered map
//! from stage names to channel handles. Sending is done by the caller: the
//! dispatcher decides where a message goes (`dispatch`), and the caller
//! reports back what became of each send (`roundrobin_single`,
//! `logic_roundrobin`, `broadcast_finish`, `partition_finish`). A
//! destination whose channel turns out to be closed is dropped from the map.

use vstd::prelude::*;
use vstd::multiset::Multiset;
use indexmap::IndexMap;
use hashring::HashRing;
use crate::stage_map::{
    swap_removed,
    index_of_name,
    stage_entries, names_distinct, has_name, without_name, stage_map_len, stage_map_get_index,
    stage_map_swap_remove, lemma_without_name_has,
};
use vstd::arithmetic::div_mod::{
    lemma_add_mod_noop, lemma_fundamental_div_mod, lemma_mod_add_multiples_vanish, lemma_mod_twice, lemma_mod_pos_bound,
    lemma_mod_self_0, lemma_small_mod,
};
use crate::ring::{ring_lookup, ring_nodes, ring_new, ring_add, ring_remove, ring_get, positions};

verus! {

/// The name of a stage's destination.
pub type StageName = String;

/// How a dispatcher chooses destinations.
#[derive(Clone, Copy, Debug, PartialEq, Eq, Structural)]
pub enum RouterType {
    /// Each message goes to one destination, taken in turn.
    RoundRobin,
    /// Each message goes to every destination.
    Broadcast,
    /// Each message goes to the destination that its partition key hashes to.
    Partition,
}

/// Why a dispatcher could not be built.
#[derive(Debug, PartialEq, Eq, Structural)]
pub enum StatusResult {
    /// Two destinations share a name or a channel.
    SendersRepetive,
}

/// Why a message was not dispatched.
#[derive(Debug)]
pub enum DispatchError<T> {
    /// No destination is left; the message comes back.
    NotExist(T),
    /// The partition key leads to no destination (or the destination was
    /// found closed); the message is dropped.
    NotFound,
}

/// What one round-robin attempt came to.
#[derive(Debug)]
pub enum InternalDispatchError<T> {
    /// The destination was closed and has been dropped; others remain.
    DestinationDown(T),
    /// The destination was closed and was the last one.
    NotExist(T),
    /// The destination's buffer was full.
    Full(T),
}

/// A failed non-blocking send, with the message that was not sent.
#[derive(Debug)]
pub enum TrySendFailure<T> {
    Full(T),
    Closed(T),
}

/// What the caller does next in a round-robin dispatch.
#[derive(Debug)]
pub enum RoundRobinStep<T> {
    /// Try the next destination with this message.
    Retry(T),
    /// The dispatch is over with this result.
    Finished(Result<(), DispatchError<T>>),
}

/// Where a message is to be sent.
#[derive(Debug)]
pub enum DispatchPlan<T> {
    /// Nothing to send; the dispatch is over with this result.
    Done(Result<(), DispatchError<T>>),
    /// Round robin with a single destination: wait to send to it, then
    /// report with `roundrobin_single`.
    SendToOnly { handle: u64, msg: T },
    /// Round robin over several destinations: repeat `logic_roundrobin_target`,
    /// a non-blocking send, `logic_roundrobin` and `roundrobin_step`.
    TryInTurn(T),
    /// Broadcast: send a copy to each of `handles` but the last, the message
    /// itself to the last, then report with `broadcast_finish`.
    SendToAll { handles: Vec<u64>, msg: T },
    /// Partition: wait to send to the destination at `index`, then report
    /// with `partition_finish`.
    SendToPartition { index: usize, handle: u64, msg: T },
}

/// Round-robin state, destinations and, for partitioning, the hash ring.
pub struct Dispatcher {
    c: usize,
    channels: IndexMap<StageName, u64>,
    router_type: RouterType,
    hashring: Option<HashRing<usize>>,
    bound: Ghost<nat>,
}

/// Two entries share a name or a channel handle.
pub open spec fn has_repeat(s: Seq<(Seq<char>, u64)>) -> bool {
    exists|i: int, j: int|
        0 <= i < s.len() && 0 <= j < s.len() && i != j && (s[i].0 == s[j].0 || s[i].1 == s[j].1)
}

/// The position picked and the cursor after a round-robin pick from cursor
/// `c` over `n` destinations: the position under the cursor, or position 0
/// once the cursor has run past the last destination; the cursor then moves
/// past the position picked.
pub open spec fn next_pick(c: nat, n: nat) -> (nat, nat) {
    if c >= n {
        (0, 1)
    } else {
        (c, c + 1)
    }
}

/// The channel handles of the entries, in order.
pub open spec fn handles_of(s: Seq<(Seq<char>, u64)>) -> Seq<u64> {
    s.map_values(|e: (Seq<char>, u64)| e.1)
}

/// The names, among the first `k` entries, of those reported closed.
pub open spec fn closed_names(s: Seq<(Seq<char>, u64)>, closed: Seq<bool>, k: nat) -> Seq<Seq<char>>
    decreases k,
{
    if k == 0 {
        Seq::empty()
    } else {
        closed_names(s, closed, (k - 1) as nat) + (if closed[k - 1] {
            seq![s[k - 1].0]
        } else {
            Seq::empty()
        })
    }
}

/// How many destinations a broadcast checks for closure: all of a single
/// one; of several, all but the last.
pub open spec fn broadcast_checked(n: nat) -> nat {
    if n == 1 {
        1
    } else {
        (n - 1) as nat
    }
}

/// The names a broadcast drops, given which sends found a closed channel.
pub open spec fn broadcast_dropped(s: Seq<(Seq<char>, u64)>, closed: Seq<bool>) -> Seq<Seq<char>> {
    closed_names(s, closed, broadcast_checked(s.len()))
}

/// The entries after removing the given names one after the other.
pub open spec fn remove_names(s: Seq<(Seq<char>, u64)>, names: Seq<Seq<char>>) -> Seq<(Seq<char>, u64)>
    decreases names.len(),
{
    if names.len() == 0 {
        s
    } else {
        without_name(remove_names(s, names.drop_last()), names.last())
    }
}

/// The destination a partition key leads to, given the ring's pick: the
/// picked position with its handle, if the map has that position.
pub open spec fn partition_destination(s: Seq<(Seq<char>, u64)>, picked: Option<usize>) -> Option<(usize, u64)> {
    match picked {
        Some(i) => if i < s.len() {
            Some((i, s[i as int].1))
        } else {
            None
        },
        None => None,
    }
}

/// A pick that the ring may give: none exactly when it is empty, else one
/// of its nodes.
pub open spec fn ring_may_pick(ring: Multiset<usize>, picked: Option<usize>) -> bool {
    &&& (picked is None <==> ring.len() == 0)
    &&& (picked is Some ==> ring.contains(picked->0))
}

/// The ring after the hash ring's removal of a node: a node was removed (the
/// given one, unless another node shares its hash), or, for a node that is
/// not in the ring, possibly nothing.
pub open spec fn ring_after_remove(before: Multiset<usize>, after: Multiset<usize>, node: usize) -> bool {
    &&& (before.contains(node) ==> exists|x: usize| before.contains(x) && after == before.remove(x))
    &&& (after == before || exists|x: usize| before.contains(x) && after == before.remove(x))
}

/// What one round-robin attempt at a destination comes to, given the
/// outcome of the non-blocking send and the number of destinations left.
pub open spec fn roundrobin_outcome<T>(sent: Result<(), TrySendFailure<T>>, left: nat) -> Result<(), InternalDispatchError<T>> {
    match sent {
        Ok(()) => Ok(()),
        Err(TrySendFailure::Full(m)) => Err(InternalDispatchError::Full(m)),
        Err(TrySendFailure::Closed(m)) => if left == 0 {
            Err(InternalDispatchError::NotExist(m))
        } else {
            Err(InternalDispatchError::DestinationDown(m))
        },
    }
}

/// What a round-robin dispatch does after an attempt.
pub open spec fn roundrobin_next<T>(r: Result<(), InternalDispatchError<T>>) -> RoundRobinStep<T> {
    match r {
        Ok(()) => RoundRobinStep::Finished(Ok(())),
        Err(InternalDispatchError::DestinationDown(m)) => RoundRobinStep::Retry(m),
        Err(InternalDispatchError::Full(m)) => RoundRobinStep::Retry(m),
        Err(InternalDispatchError::NotExist(m)) => RoundRobinStep::Finished(Err(DispatchError::NotExist(m))),
    }
}

/// Decides what a round-robin dispatch does after an attempt: try again
/// with the message if the destination was full or closed while others
/// remain; stop otherwise.
pub fn roundrobin_step<T>(r: Result<(), InternalDispatchError<T>>) -> (s: RoundRobinStep<T>)
    ensures
        s == roundrobin_next(r),
{
    match r {
        Ok(()) => RoundRobinStep::Finished(Ok(())),
        Err(InternalDispatchError::DestinationDown(m)) => RoundRobinStep::Retry(m),
        Err(InternalDispatchError::Full(m)) => RoundRobinStep::Retry(m),
        Err(InternalDispatchError::NotExist(m)) => RoundRobinStep::Finished(Err(DispatchError::NotExist(m))),
    }
}

/// The cursor after `k` round-robin picks from cursor `c` over `n`
/// destinations (none of them dropped meanwhile).
pub open spec fn cursor_after(c: nat, n: nat, k: nat) -> nat
    decreases k,
{
    if k == 0 {
        c
    } else {
        next_pick(cursor_after(c, n, (k - 1) as nat), n).1
    }
}

/// The position of the pick that follows `k` picks from cursor `c`.
pub open spec fn pick_after(c: nat, n: nat, k: nat) -> nat {
    next_pick(cursor_after(c, n, k), n).0
}

proof fn lemma_mod_succ(x: nat, n: nat)
    requires
        n > 0,
    ensures
        x % n < n,
        (x + 1) % n == (if x % n == n - 1 { 0 } else { x % n + 1 }),
{
    lemma_mod_pos_bound(x as int, n as int);
    lemma_add_mod_noop(x as int, 1, n as int);
    lemma_mod_pos_bound((x + 1) as int, n as int);
    if n > 1 {
        lemma_small_mod(1, n);
        if x % n + 1 == n {
            lemma_mod_self_0(n as int);
        } else {
            lemma_small_mod((x % n + 1) as nat, n);
        }
    }
}

proof fn lemma_cursor_cycle(c: nat, n: nat, k: nat)
    requires
        n > 0,
        c <= n,
        c + k >= 1,
    ensures
        cursor_after(c, n, k) == ((c + k - 1) as nat % n) + 1,
    decreases k,
{
    if k == 0 {
        lemma_small_mod((c - 1) as nat, n);
    } else if c + k >= 2 {
        lemma_cursor_cycle(c, n, (k - 1) as nat);
        lemma_mod_succ((c + k - 2) as nat, n);
        assert((c + k - 2) as nat + 1 == (c + k - 1) as nat);
    } else {
        lemma_small_mod(0, n);
        assert(cursor_after(c, n, 0) == 0);
    }
}

/// Round robin cycles: with `n` destinations and none dropped meanwhile,
/// the `k`-th pick after a cursor `c` (at most `n`) is position
/// `(c + k) mod n`; a fresh dispatcher (cursor 0) picks `0, 1, ..., n - 1`,
/// then `0, 1, ...` again.
pub proof fn law_round_robin_cycles(c: nat, n: nat, k: nat)
    requires
        n > 0,
        c <= n,
    ensures
        pick_after(c, n, k) == (c + k) % n,
{
    if c + k == 0 {
        lemma_small_mod(0, n);
    } else {
        lemma_cursor_cycle(c, n, k);
        lemma_mod_succ((c + k - 1) as nat, n);
        assert((c + k - 1) as nat + 1 == c + k);
    }
}

/// Any `n` consecutive round-robin picks over `n` destinations (none
/// dropped meanwhile, cursor at most `n`) pick each position exactly once.
pub proof fn law_round_robin_window(c: nat, n: nat, k: nat, j: nat)
    requires
        n > 0,
        c <= n,
        j < n,
    ensures
        exists|i: nat| i < n && #[trigger] pick_after(c, n, k + i) == j,
        forall|i1: nat, i2: nat|
            i1 < n && i2 < n && #[trigger] pick_after(c, n, k + i1) == #[trigger] pick_after(c, n, k + i2) ==> i1 == i2,
{
    let a = c + k;
    lemma_mod_pos_bound(a as int, n as int);
    let i = ((j + n - a % n) as nat) % n;
    lemma_mod_pos_bound((j + n - a % n) as int, n as int);
    law_round_robin_cycles(c, n, k + i);
    lemma_add_mod_noop(a as int, i as int, n as int);
    lemma_mod_twice((j + n - a % n) as int, n as int);
    lemma_add_mod_noop((a % n) as int, (j + n - a % n) as int, n as int);
    lemma_mod_twice(a as int, n as int);
    lemma_mod_add_multiples_vanish(j as int, n as int);
    lemma_small_mod(j, n);
    assert((a % n + (j + n - a % n)) == j + n);
    assert(pick_after(c, n, k + i) == j);
    assert forall|i1: nat, i2: nat|
        i1 < n && i2 < n && #[trigger] pick_after(c, n, k + i1) == #[trigger] pick_after(c, n, k + i2) implies i1
            == i2 by {
        law_round_robin_cycles(c, n, k + i1);
        law_round_robin_cycles(c, n, k + i2);
        lemma_fundamental_div_mod((a + i1) as int, n as int);
        lemma_fundamental_div_mod((a + i2) as int, n as int);
        let q1 = (a + i1) as int / n as int;
        let q2 = (a + i2) as int / n as int;
        assert(n * (q1 - q2) == i1 - i2) by (nonlinear_arith)
            requires
                (a + i1) as int == n * q1 + (a + i1) as int % n as int,
                (a + i2) as int == n * q2 + (a + i2) as int % n as int,
                (a + i1) as int % n as int == (a + i2) as int % n as int,
        ;
        if q1 > q2 {
            assert(n * (q1 - q2) >= n) by (nonlinear_arith)
                requires
                    q1 - q2 >= 1,
                    n > 0,
            ;
        } else if q1 < q2 {
            assert(n * (q2 - q1) >= n) by (nonlinear_arith)
                requires
                    q2 - q1 >= 1,
                    n > 0,
            ;
            assert(n * (q1 - q2) == -(n * (q2 - q1))) by (nonlinear_arith);
        }
    }
}

/// A failed round-robin attempt never loses the message: it is tried again
/// when the destination was full or when other destinations remain, and
/// otherwise handed back to the caller as `NotExist`.
pub proof fn law_roundrobin_keeps_message<T>(sent: Result<(), TrySendFailure<T>>, left: nat)
    ensures
        roundrobin_next(roundrobin_outcome(sent, left)) == match sent {
            Ok(()) => RoundRobinStep::Finished(Ok(())),
            Err(TrySendFailure::Full(m)) => RoundRobinStep::Retry(m),
            Err(TrySendFailure::Closed(m)) => if left == 0 {
                RoundRobinStep::Finished(Err(DispatchError::NotExist(m)))
            } else {
                RoundRobinStep::Retry(m)
            },
        },
{
}

/// A round-robin dispatch that makes one attempt per entry of `closed`
/// (`true`: the attempt found its destination closed), from cursor `c`:
/// the destinations after, the cursor after, and the names of the
/// destinations found closed, in order. Each attempt picks as
/// `logic_roundrobin_target` does and drops a closed destination as
/// `logic_roundrobin` does; with no destination left nothing is picked.
pub open spec fn roundrobin_attempts(s: Seq<(Seq<char>, u64)>, c: nat, closed: Seq<bool>) -> (
    Seq<(Seq<char>, u64)>,
    nat,
    Seq<Seq<char>>,
)
    decreases closed.len(),
{
    if closed.len() == 0 {
        (s, c, Seq::empty())
    } else {
        let (s1, c1, gone) = roundrobin_attempts(s, c, closed.drop_last());
        if s1.len() == 0 {
            (s1, c1, gone)
        } else {
            let (i, c2) = next_pick(c1, s1.len());
            if closed.last() {
                (without_name(s1, s1[i as int].0), c2, gone.push(s1[i as int].0))
            } else {
                (s1, c2, gone)
            }
        }
    }
}

proof fn lemma_roundrobin_attempts_has(s: Seq<(Seq<char>, u64)>, c: nat, closed: Seq<bool>, name: Seq<char>)
    requires
        names_distinct(s),
    ensures
        names_distinct(roundrobin_attempts(s, c, closed).0),
        has_name(roundrobin_attempts(s, c, closed).0, name) <==> (has_name(s, name)
            && !roundrobin_attempts(s, c, closed).2.contains(name)),
    decreases closed.len(),
{
    if closed.len() > 0 {
        let prev = closed.drop_last();
        lemma_roundrobin_attempts_has(s, c, prev, name);
        let (s1, c1, gone) = roundrobin_attempts(s, c, prev);
        if s1.len() > 0 && closed.last() {
            let (i, c2) = next_pick(c1, s1.len());
            let k = s1[i as int].0;
            lemma_without_name_has(s1, k, name);
            assert(has_name(s1, k));
            if gone.push(k).contains(name) && name != k {
                let x = choose|x: int| 0 <= x < gone.push(k).len() && gone.push(k)[x] == name;
                assert(gone[x] == name);
            }
            if gone.contains(name) {
                let x = choose|x: int| 0 <= x < gone.len() && gone[x] == name;
                assert(gone.push(k)[x] == name);
            }
            if name == k {
                assert(gone.push(k)[gone.len() as int] == name);
            }
        }
    }
}

/// A round-robin dispatch drops exactly the destinations its attempts found
/// closed and keeps the others, so it ends with no destination left
/// (`NotExist`) only once every destination has been found closed.
pub proof fn law_roundrobin_drops_only_closed(s: Seq<(Seq<char>, u64)>, c: nat, closed: Seq<bool>, name: Seq<char>)
    requires
        names_distinct(s),
    ensures
        names_distinct(roundrobin_attempts(s, c, closed).0),
        has_name(roundrobin_attempts(s, c, closed).0, name) <==> (has_name(s, name)
            && !roundrobin_attempts(s, c, closed).2.contains(name)),
        roundrobin_attempts(s, c, closed).0.len() == 0 ==> forall|i: int|
            0 <= i < s.len() ==> roundrobin_attempts(s, c, closed).2.contains(#[trigger] s[i].0),
{
    lemma_roundrobin_attempts_has(s, c, closed, name);
    if roundrobin_attempts(s, c, closed).0.len() == 0 {
        assert forall|i: int| 0 <= i < s.len() implies roundrobin_attempts(s, c, closed).2.contains(#[trigger] s[i].0) by {
            lemma_roundrobin_attempts_has(s, c, closed, s[i].0);
            assert(has_name(s, s[i].0));
        }
    }
}

/// Dropping a destination only removes: every remaining entry (name and
/// channel) was an entry before, so no entry is added or changed.
pub proof fn law_drop_keeps_entries(s: Seq<(Seq<char>, u64)>, gone: Seq<char>, j: int)
    requires
        names_distinct(s),
        0 <= j < without_name(s, gone).len(),
    ensures
        s.contains(without_name(s, gone)[j]),
        without_name(s, gone)[j].0 != gone,
{
    lemma_without_name_has(s, gone, without_name(s, gone)[j].0);
    if has_name(s, gone) {
        let i = index_of_name(s, gone);
        let k = if j == i { s.len() - 1 } else { j };
        assert(without_name(s, gone)[j] == s[k]);
    } else {
        assert(without_name(s, gone)[j] == s[j]);
    }
    assert(has_name(without_name(s, gone), without_name(s, gone)[j].0));
}

/// Dropping several destinations one after the other only removes: every
/// remaining entry (name and channel) was an entry before, and its name is
/// not one of those dropped.
pub proof fn law_remove_names_keeps_entries(s: Seq<(Seq<char>, u64)>, names: Seq<Seq<char>>, j: int)
    requires
        names_distinct(s),
        0 <= j < remove_names(s, names).len(),
    ensures
        s.contains(remove_names(s, names)[j]),
        !names.contains(remove_names(s, names)[j].0),
    decreases names.len(),
{
    let r = remove_names(s, names);
    lemma_remove_names_has(s, names, r[j].0);
    assert(has_name(r, r[j].0));
    if names.len() > 0 {
        let prev = remove_names(s, names.drop_last());
        lemma_remove_names_has(s, names.drop_last(), names.last());
        law_drop_keeps_entries(prev, names.last(), j);
        let k = choose|k: int| 0 <= k < prev.len() && prev[k] == r[j];
        law_remove_names_keeps_entries(s, names.drop_last(), k);
    }
}

/// Dropping a destination removes exactly that destination: every other
/// destination keeps its place in the map.
pub proof fn law_drop_removes_only_target(s: Seq<(Seq<char>, u64)>, i: int, j: int)
    requires
        names_distinct(s),
        0 <= i < s.len(),
        0 <= j < s.len(),
    ensures
        has_name(without_name(s, s[i].0), s[j].0) <==> j != i,
{
    lemma_without_name_has(s, s[i].0, s[j].0);
    assert(has_name(s, s[j].0));
}

proof fn lemma_remove_names_has(s: Seq<(Seq<char>, u64)>, names: Seq<Seq<char>>, name: Seq<char>)
    requires
        names_distinct(s),
    ensures
        names_distinct(remove_names(s, names)),
        has_name(remove_names(s, names), name) <==> (has_name(s, name) && !names.contains(name)),
    decreases names.len(),
{
    if names.len() > 0 {
        let rest = names.drop_last();
        lemma_remove_names_has(s, rest, name);
        lemma_without_name_has(remove_names(s, rest), names.last(), name);
        if names.contains(name) && name != names.last() {
            let k = choose|k: int| 0 <= k < names.len() && names[k] == name;
            assert(rest[k] == name);
        }
        if rest.contains(name) {
            let k = choose|k: int| 0 <= k < rest.len() && rest[k] == name;
            assert(names[k] == name);
        }
        if name == names.last() {
            assert(names[names.len() - 1] == name);
        }
    }
}

proof fn lemma_closed_names_contains(s: Seq<(Seq<char>, u64)>, closed: Seq<bool>, k: nat, i: int)
    requires
        names_distinct(s),
        k <= s.len(),
        k <= closed.len(),
        0 <= i < s.len(),
    ensures
        closed_names(s, closed, k).contains(s[i].0) <==> (i < k && closed[i]),
    decreases k,
{
    if k > 0 {
        lemma_closed_names_contains(s, closed, (k - 1) as nat, i);
        let prev = closed_names(s, closed, (k - 1) as nat);
        let tail = if closed[k - 1] { seq![s[k - 1].0] } else { Seq::<Seq<char>>::empty() };
        let all = closed_names(s, closed, k);
        assert(all == prev + tail);
        if all.contains(s[i].0) {
            let x = choose|x: int| 0 <= x < all.len() && all[x] == s[i].0;
            if x < prev.len() {
                assert(prev[x] == s[i].0);
            } else {
                assert(tail[x - prev.len()] == s[i].0);
                assert(s[k - 1].0 == s[i].0);
            }
        }
        if i < k && closed[i] {
            if i < k - 1 {
                let x = choose|x: int| 0 <= x < prev.len() && prev[x] == s[i].0;
                assert(all[x] == s[i].0);
            } else {
                assert(all[prev.len() as int] == s[i].0);
            }
        }
    }
}

/// Broadcast keeps every destination whose send succeeded and drops the
/// ones found closed, except that the last of several destinations is never
/// checked (its send's result is not looked at) and so always stays.
pub proof fn law_broadcast_keeps_live(s: Seq<(Seq<char>, u64)>, closed: Seq<bool>, i: int)
    requires
        names_distinct(s),
        s.len() > 0,
        closed.len() == s.len(),
        0 <= i < s.len(),
    ensures
        has_name(remove_names(s, broadcast_dropped(s, closed)), s[i].0) <==> !(closed[i] && i
            < broadcast_checked(s.len())),
{
    lemma_remove_names_has(s, broadcast_dropped(s, closed), s[i].0);
    lemma_closed_names_contains(s, closed, broadcast_checked(s.len()), i);
    assert(has_name(s, s[i].0));
}

/// Removing a node that is on the ring takes exactly one node off it.
pub proof fn law_ring_remove_takes_one(before: Multiset<usize>, after: Multiset<usize>, node: usize)
    requires
        before.contains(node),
        ring_after_remove(before, after, node),
    ensures
        after.len() == before.len() - 1,
{
    let x = choose|x: usize| before.contains(x) && after == before.remove(x);
}

/// A dispatcher refuses its destinations exactly when two different
/// positions share a name or a channel handle.
pub proof fn law_repeat_is_shared_name_or_channel(s: Seq<(Seq<char>, u64)>)
    ensures
        has_repeat(s) <==> exists|i: int, j: int|
            0 <= i < s.len() && 0 <= j < s.len() && i != j && (#[trigger] s[i].0 == #[trigger] s[j].0 || s[i].1
                == s[j].1),
        forall|i: int, j: int|
            0 <= i < s.len() && 0 <= j < s.len() && i != j && #[trigger] s[i].1 == #[trigger] s[j].1 ==> has_repeat(s),
{
    assert forall|i: int, j: int|
        0 <= i < s.len() && 0 <= j < s.len() && i != j && #[trigger] s[i].1 == #[trigger] s[j].1 implies has_repeat(
        s,
    ) by {
        assert(s[i].1 == s[j].1);
    }
}

/// Broadcast checks every destination but the last of several (a single
/// destination is checked): after `broadcast_finish`, a destination is gone
/// exactly when its send was reported closed and it is not the last of
/// several; every other destination stays.
pub proof fn law_broadcast_drops_closed(s: Seq<(Seq<char>, u64)>, closed: Seq<bool>, i: int)
    requires
        names_distinct(s),
        s.len() > 0,
        closed.len() == s.len(),
        0 <= i < s.len(),
    ensures
        !has_name(remove_names(s, broadcast_dropped(s, closed)), s[i].0) <==> (closed[i] && (i < s.len() - 1
            || s.len() == 1)),
{
    law_broadcast_keeps_live(s, closed, i);
}

/// The handles a broadcast sends to are the destinations' handles, in
/// order, one per destination.
pub proof fn law_broadcast_handles(s: Seq<(Seq<char>, u64)>)
    ensures
        handles_of(s).len() == s.len(),
        forall|i: int| 0 <= i < s.len() ==> #[trigger] handles_of(s)[i] == s[i].1,
{
}

/// Dropping position `i` moves the last destination into position `i` and
/// leaves every other position as it was.
pub proof fn law_swap_removed_positions<A>(s: Seq<A>, i: int)
    requires
        0 <= i < s.len(),
    ensures
        swap_removed(s, i).len() == s.len() - 1,
        i < s.len() - 1 ==> swap_removed(s, i)[i] == s[s.len() - 1],
        forall|j: int| 0 <= j < s.len() - 1 && j != i ==> #[trigger] swap_removed(s, i)[j] == s[j],
{
}

impl Dispatcher {
    /// The destinations, in order: names and channel handles.
    pub closed spec fn stages(&self) -> Seq<(Seq<char>, u64)> {
        stage_entries(self.channels)
    }

    /// The routing policy.
    pub closed spec fn router(&self) -> RouterType {
        self.router_type
    }

    /// The routing policy.
    pub fn router_type(&self) -> (r: RouterType)
        ensures
            r == self.router(),
    {
        self.router_type
    }

    /// The round-robin cursor.
    pub closed spec fn cursor(&self) -> nat {
        self.c as nat
    }

    /// The hash ring, for a partitioning dispatcher.
    pub closed spec fn hash_ring(&self) -> Option<HashRing<usize>> {
        self.hashring
    }

    /// The position the hash ring picks for a partition key (`None` without
    /// a ring or on an empty ring).
    pub closed spec fn partition_pick(&self, key: Seq<char>) -> Option<usize> {
        match self.hashring {
            Some(r) => ring_lookup(r, key),
            None => None,
        }
    }

    /// The destination a partition key leads to: the position the ring
    /// picks, with its channel handle, if the map has that position.
    pub open spec fn partition_target(&self, key: Seq<char>) -> Option<(usize, u64)> {
        partition_destination(self.stages(), self.partition_pick(key))
    }

    /// The nodes of the hash ring, for a partitioning dispatcher.
    pub closed spec fn ring(&self) -> Option<Multiset<usize>> {
        match self.hashring {
            Some(r) => Some(ring_nodes(r)),
            None => None,
        }
    }

    /// Names are distinct, only a partitioning dispatcher has a ring, and
    /// the cursor and the number of destinations stay below a bound under
    /// `usize::MAX`.
    pub closed spec fn wf(&self) -> bool {
        &&& names_distinct(self.stages())
        &&& self.stages().len() <= self.bound@
        &&& self.c <= self.bound@
        &&& self.bound@ < usize::MAX
        &&& (self.router_type == RouterType::Partition) == (self.hashring is Some)
    }

    /// A dispatcher partitions exactly when it has a hash ring; this holds
    /// of every dispatcher that `new` builds and the methods keep.
    pub proof fn law_partition_has_ring(&self)
        requires
            self.wf(),
        ensures
            (self.router() == RouterType::Partition) <==> self.ring() is Some,
    {
    }

    /// A partitioning dispatcher routes a key by the ring's lookup of that
    /// very key: the pick is what the ring serves the key with, the target is
    /// the picked position with its own channel, and there is no target when
    /// the ring serves nothing or a position past the map.
    pub proof fn law_partition_routes_by_key(&self, key: Seq<char>)
        requires
            self.wf(),
            self.router() == RouterType::Partition,
        ensures
            self.hash_ring() is Some,
            self.partition_pick(key) == ring_lookup(self.hash_ring()->0, key),
            self.partition_target(key) matches Some((i, h)) ==> ring_lookup(self.hash_ring()->0, key) == Some(i)
                && i < self.stages().len() && h == self.stages()[i as int].1,
            self.partition_target(key) is None <==> (ring_lookup(self.hash_ring()->0, key) is None || ring_lookup(
                self.hash_ring()->0,
                key,
            )->0 >= self.stages().len()),
    {
    }

    /// A well-formed dispatcher's destinations have distinct names.
    pub proof fn lemma_wf_names_distinct(&self)
        requires
            self.wf(),
        ensures
            names_distinct(self.stages()),
    {
    }

    /// Partitioning keeps a key on one worker: two dispatchers with the same
    /// destinations and the same ring (as every step keeps them, except one
    /// that drops a destination found closed) send messages with the same
    /// key to the same destination.
    pub proof fn law_partition_same_key_same_destination(&self, other: &Dispatcher, key: Seq<char>)
        requires
            self.stages() == other.stages(),
            self.hash_ring() == other.hash_ring(),
        ensures
            self.partition_target(key) == other.partition_target(key),
    {
    }

    /// Checks that no two destinations share a name or a channel.
    fn list_check(channels: &IndexMap<StageName, u64>) -> (r: Result<(), ()>)
        ensures
            r is Err <==> has_repeat(stage_entries(*channels)),
    {
        let ghost s = stage_entries(*channels);
        let n = stage_map_len(channels);
        let mut oindex: usize = 0;
        while oindex < n
            invariant
                n == s.len(),
                s == stage_entries(*channels),
                oindex <= n,
                forall|i: int, j: int|
                    0 <= i < oindex && 0 <= j < n && i != j ==> !(s[i].0 == s[j].0 || s[i].1 == s[j].1),
            decreases n - oindex,
        {
            let (outer_key, outer_chan) = stage_map_get_index(channels, oindex).unwrap();
            let mut iindex: usize = 0;
            while iindex < n
                invariant
                    n == s.len(),
                    s == stage_entries(*channels),
                    oindex < n,
                    iindex <= n,
                    outer_key@ == s[oindex as int].0,
                    *outer_chan == s[oindex as int].1,
                    forall|i: int, j: int|
                        0 <= i < oindex && 0 <= j < n && i != j ==> !(s[i].0 == s[j].0 || s[i].1 == s[j].1),
                    forall|j: int|
                        0 <= j < iindex && j != oindex ==> !(s[oindex as int].0 == s[j].0 || s[oindex as int].1 == s[j].1),
                decreases n - iindex,
            {
                let (inner_key, inner_chan) = stage_map_get_index(channels, iindex).unwrap();
                if oindex != iindex && (*outer_key == *inner_key || *outer_chan == *inner_chan) {
                    return Err(());
                }
                iindex += 1;
            }
            oindex += 1;
        }
        Ok(())
    }

    /// Builds a dispatcher over the given destinations, refusing one where
    /// two destinations share a name or a channel. A partitioning dispatcher
    /// puts the positions of all destinations on its hash ring.
    pub fn new(channels: IndexMap<StageName, u64>, router_type: RouterType) -> (r: Result<Dispatcher, StatusResult>)
        requires
            stage_entries(channels).len() < usize::MAX,
        ensures
            r is Err <==> has_repeat(stage_entries(channels)),
            r is Err <==> exists|i: int, j: int|
                0 <= i < stage_entries(channels).len() && 0 <= j < stage_entries(channels).len() && i != j && (
                #[trigger] stage_entries(channels)[i].0 == #[trigger] stage_entries(channels)[j].0
                    || stage_entries(channels)[i].1 == stage_entries(channels)[j].1),
            r is Err ==> r->Err_0 == StatusResult::SendersRepetive,
            r is Ok ==> {
                let d = r->Ok_0;
                &&& d.wf()
                &&& d.stages() == stage_entries(channels)
                &&& d.cursor() == 0
                &&& d.router() == router_type
                &&& d.ring() == (if router_type == RouterType::Partition {
                    Some(positions(stage_entries(channels).len()))
                } else {
                    None::<Multiset<usize>>
                })
            },
    {
        if Self::list_check(&channels).is_err() {
            return Err(StatusResult::SendersRepetive);
        }
        let n = stage_map_len(&channels);
        let hashring = match router_type {
            RouterType::Partition => {
                let mut hr = ring_new();
                let mut index: usize = 0;
                while index < n
                    invariant
                        index <= n,
                        ring_nodes(hr) == positions(index as nat),
                    decreases n - index,
                {
                    ring_add(&mut hr, index);
                    index += 1;
                }
                Some(hr)
            },
            _ => None,
        };
        proof {
            assert(names_distinct(stage_entries(channels)));
        }
        Ok(Dispatcher { c: 0, channels, router_type, hashring, bound: Ghost(n as nat) })
    }

    /// Takes the next destination position in turn.
    fn next_index(&mut self) -> (index: usize)
        requires
            old(self).wf(),
            old(self).stages().len() > 0,
        ensures
            final(self).wf(),
            index == next_pick(old(self).cursor(), old(self).stages().len()).0,
            final(self).cursor() == next_pick(old(self).cursor(), old(self).stages().len()).1,
            final(self).stages() == old(self).stages(),
            final(self).hash_ring() == old(self).hash_ring(),
            final(self).router() == old(self).router(),
    {
        let len = stage_map_len(&self.channels);
        if self.c >= len {
            self.c = 1;
            0
        } else {
            let index = self.c;
            self.c = self.c + 1;
            index
        }
    }

    /// Drops the destination at a position (by its name, as the map removes).
    fn drop_destination(&mut self, index: usize)
        requires
            old(self).wf(),
            index < old(self).stages().len(),
        ensures
            final(self).wf(),
            final(self).stages() == without_name(old(self).stages(), old(self).stages()[index as int].0),
            final(self).stages().len() == old(self).stages().len() - 1,
            final(self).cursor() == old(self).cursor(),
            final(self).hash_ring() == old(self).hash_ring(),
            final(self).router() == old(self).router(),
    {
        let (key, _) = stage_map_get_index(&self.channels, index).unwrap();
        let key = key.clone();
        proof {
            lemma_without_name_has(self.stages(), key@, key@);
            assert(has_name(self.stages(), key@));
        }
        let _ = stage_map_swap_remove(&mut self.channels, &key);
    }

    /// Takes in the result of waiting to send to the only destination of a
    /// round-robin dispatcher: a closed channel is dropped and the message
    /// comes back as `NotExist`.
    pub fn roundrobin_single<T>(&mut self, sent: Result<(), T>) -> (r: Result<(), DispatchError<T>>)
        requires
            old(self).wf(),
            old(self).stages().len() >= 1,
        ensures
            final(self).wf(),
            final(self).cursor() == old(self).cursor(),
            final(self).hash_ring() == old(self).hash_ring(),
            final(self).router() == old(self).router(),
            match sent {
                Ok(()) => r is Ok && final(self).stages() == old(self).stages(),
                Err(m) => r == Err::<(), DispatchError<T>>(DispatchError::NotExist(m))
                    && final(self).stages() == without_name(old(self).stages(), old(self).stages()[0].0),
            },
    {
        match sent {
            Ok(()) => Ok(()),
            Err(m) => {
                self.drop_destination(0);
                Err(DispatchError::NotExist(m))
            },
        }
    }

    /// Takes the next destination in turn for a round-robin attempt: its
    /// position and channel handle.
    pub fn logic_roundrobin_target(&mut self) -> (r: (usize, u64))
        requires
            old(self).wf(),
            old(self).stages().len() > 0,
        ensures
            final(self).wf(),
            r.0 == next_pick(old(self).cursor(), old(self).stages().len()).0,
            r.0 < old(self).stages().len(),
            r.1 == old(self).stages()[r.0 as int].1,
            final(self).cursor() == next_pick(old(self).cursor(), old(self).stages().len()).1,
            final(self).stages() == old(self).stages(),
            final(self).hash_ring() == old(self).hash_ring(),
            final(self).router() == old(self).router(),
    {
        let index = self.next_index();
        let (_, handle) = stage_map_get_index(&self.channels, index).unwrap();
        (index, *handle)
    }

    /// Takes in the result of a non-blocking send to the destination at
    /// `index`: a closed destination is dropped, and the attempt reports
    /// whether other destinations remain.
    pub fn logic_roundrobin<T>(&mut self, index: usize, sent: Result<(), TrySendFailure<T>>) -> (r: Result<
        (),
        InternalDispatchError<T>,
    >)
        requires
            old(self).wf(),
            index < old(self).stages().len(),
        ensures
            final(self).wf(),
            final(self).cursor() == old(self).cursor(),
            final(self).hash_ring() == old(self).hash_ring(),
            final(self).router() == old(self).router(),
            final(self).stages() == (if sent matches Err(TrySendFailure::Closed(_)) {
                without_name(old(self).stages(), old(self).stages()[index as int].0)
            } else {
                old(self).stages()
            }),
            r == roundrobin_outcome(sent, final(self).stages().len()),
    {
        match sent {
            Ok(()) => Ok(()),
            Err(TrySendFailure::Closed(m)) => {
                self.drop_destination(index);
                if stage_map_len(&self.channels) == 0 {
                    Err(InternalDispatchError::NotExist(m))
                } else {
                    Err(InternalDispatchError::DestinationDown(m))
                }
            },
            Err(TrySendFailure::Full(m)) => Err(InternalDispatchError::Full(m)),
        }
    }

    /// Takes in which broadcast sends found a closed channel (one flag per
    /// destination, in order) and drops those destinations, except that the
    /// last of several destinations is never checked. A broadcast always
    /// succeeds.
    pub fn broadcast_finish<T>(&mut self, closed: Vec<bool>) -> (r: Result<(), DispatchError<T>>)
        requires
            old(self).wf(),
            old(self).stages().len() > 0,
            closed@.len() == old(self).stages().len(),
        ensures
            r is Ok,
            final(self).wf(),
            final(self).stages() == remove_names(old(self).stages(), broadcast_dropped(old(self).stages(), closed@)),
            final(self).cursor() == old(self).cursor(),
            final(self).hash_ring() == old(self).hash_ring(),
            final(self).router() == old(self).router(),
    {
        let ghost s0 = self.stages();
        let len = stage_map_len(&self.channels);
        let checked = if len == 1 { 1 } else { len - 1 };
        let mut list: Vec<String> = Vec::new();
        let mut index: usize = 0;
        while index < checked
            invariant
                s0 == self.stages(),
                len == s0.len(),
                checked == broadcast_checked(len as nat),
                checked <= len,
                closed@.len() == len,
                index <= checked,
                list@.map_values(|k: String| k@) == closed_names(s0, closed@, index as nat),
            decreases checked - index,
        {
            if closed[index] {
                let (key, _) = stage_map_get_index(&self.channels, index).unwrap();
                list.push(key.clone());
            }
            proof {
                assert(list@.map_values(|k: String| k@) =~= closed_names(s0, closed@, (index + 1) as nat));
            }
            index += 1;
        }
        let ghost names = list@.map_values(|k: String| k@);
        let mut j: usize = 0;
        while j < list.len()
            invariant
                self.wf(),
                names == list@.map_values(|k: String| k@),
                names == broadcast_dropped(s0, closed@),
                j <= list.len(),
                self.stages() == remove_names(s0, names.take(j as int)),
                self.cursor() == old(self).cursor(),
                self.hash_ring() == old(self).hash_ring(),
                self.router() == old(self).router(),
            decreases list.len() - j,
        {
            proof {
                lemma_without_name_has(self.stages(), names[j as int], names[j as int]);
                assert(names.take(j + 1).drop_last() =~= names.take(j as int));
            }
            let _ = stage_map_swap_remove(&mut self.channels, &list[j]);
            j += 1;
        }
        proof {
            assert(names.take(list.len() as int) =~= names);
        }
        Ok(())
    }

    /// Takes in the result of waiting to send to the partition destination at
    /// `index`: on a closed channel the destination is dropped from the map
    /// and its position from the ring, and the message is lost as `NotFound`.
    pub fn partition_finish<T>(&mut self, index: usize, sent: Result<(), T>) -> (r: Result<(), DispatchError<T>>)
        requires
            old(self).wf(),
            old(self).router() == RouterType::Partition,
            index < old(self).stages().len(),
        ensures
            final(self).wf(),
            final(self).cursor() == old(self).cursor(),
            final(self).router() == old(self).router(),
            sent is Ok ==> r is Ok && final(self).stages() == old(self).stages() && final(self).hash_ring() == old(
                self,
            ).hash_ring(),
            sent is Err ==> r == Err::<(), DispatchError<T>>(DispatchError::NotFound) && final(self).stages()
                == without_name(old(self).stages(), old(self).stages()[index as int].0) && final(self).ring() is Some
                && ring_after_remove(old(self).ring()->0, final(self).ring()->0, index),
    {
        match sent {
            Ok(()) => Ok(()),
            Err(_) => {
                self.drop_destination(index);
                let mut hr = self.hashring.take().unwrap();
                let _ = ring_remove(&mut hr, index);
                self.hashring = Some(hr);
                Err(DispatchError::NotFound)
            },
        }
    }

    /// The destination a partition key leads to, given the position that the
    /// hash ring picked for it.
    pub fn partition_route(&self, picked: Option<usize>) -> (r: Option<(usize, u64)>)
        ensures
            r == partition_destination(self.stages(), picked),
    {
        match picked {
            Some(index) => match stage_map_get_index(&self.channels, index) {
                Some((_, handle)) => Some((index, *handle)),
                None => None,
            },
            None => None,
        }
    }

    /// Decides where a message goes. Round robin and broadcast with no
    /// destination give the message back as `NotExist`. Round robin with one
    /// destination waits to send to it; with several it tries them in turn.
    /// Broadcast sends to every destination. Partition sends to the
    /// destination that the hash ring picks for the key, or drops the
    /// message as `NotFound` if the pick is not a position of the map.
    pub fn dispatch<T>(&self, msg: T, batch_key: Option<String>) -> (plan: DispatchPlan<T>)
        requires
            self.wf(),
            self.router() == RouterType::Partition ==> batch_key is Some,
        ensures
            self.router() == RouterType::RoundRobin ==> plan == (if self.stages().len() == 0 {
                DispatchPlan::Done(Err(DispatchError::NotExist(msg)))
            } else if self.stages().len() == 1 {
                DispatchPlan::SendToOnly { handle: self.stages()[0].1, msg }
            } else {
                DispatchPlan::TryInTurn(msg)
            }),
            self.router() == RouterType::Broadcast ==> (if self.stages().len() == 0 {
                plan == DispatchPlan::Done(Err(DispatchError::NotExist(msg)))
            } else {
                plan matches DispatchPlan::SendToAll { handles, msg: m } && handles@ == handles_of(self.stages())
                    && m == msg
            }),
            self.router() == RouterType::Partition ==> plan == match self.partition_target(batch_key->0@) {
                Some((index, handle)) => DispatchPlan::SendToPartition { index, handle, msg },
                None => DispatchPlan::Done(Err(DispatchError::NotFound)),
            },
            self.router() == RouterType::Partition ==> ring_may_pick(self.ring()->0, self.partition_pick(batch_key->0@)),
            self.router() == RouterType::Partition ==> plan == match ring_lookup(self.hash_ring()->0, batch_key->0@) {
                Some(i) => if i < self.stages().len() {
                    DispatchPlan::SendToPartition { index: i, handle: self.stages()[i as int].1, msg }
                } else {
                    DispatchPlan::Done(Err(DispatchError::NotFound))
                },
                None => DispatchPlan::Done(Err(DispatchError::NotFound)),
            },
    {
        match self.router_type {
            RouterType::Partition => {
                let key = batch_key.unwrap();
                let picked = match &self.hashring {
                    Some(hr) => ring_get(hr, &key),
                    None => None,
                };
                let route = self.partition_route(picked);
                let plan = match route {
                    Some((index, handle)) => DispatchPlan::SendToPartition { index, handle, msg },
                    None => DispatchPlan::Done(Err(DispatchError::NotFound)),
                };
                plan
            },
            RouterType::RoundRobin => {
                let len = stage_map_len(&self.channels);
                if len == 0 {
                    DispatchPlan::Done(Err(DispatchError::NotExist(msg)))
                } else if len == 1 {
                    let (_, handle) = stage_map_get_index(&self.channels, 0).unwrap();
                    DispatchPlan::SendToOnly { handle: *handle, msg }
                } else {
                    DispatchPlan::TryInTurn(msg)
                }
            },
            RouterType::Broadcast => {
                let len = stage_map_len(&self.channels);
                if len == 0 {
                    return DispatchPlan::Done(Err(DispatchError::NotExist(msg)));
                }
                let mut handles: Vec<u64> = Vec::new();
                let mut index: usize = 0;
                while index < len
                    invariant
                        len == self.stages().len(),
                        index <= len,
                        handles@ == handles_of(self.stages()).take(index as int),
                    decreases len - index,
                {
                    let (_, handle) = stage_map_get_index(&self.channels, index).unwrap();
                    handles.push(*handle);
                    proof {
                        assert(handles_of(self.stages()).take(index + 1) == handles_of(self.stages()).take(
                            index as int,
                        ).push(self.stages()[index as int].1));
                    }
                    index += 1;
                }
                proof {
                    assert(handles_of(self.stages()).take(len as int) == handles_of(self.stages()));
                }
                DispatchPlan::SendToAll { handles, msg }
            },
        }
    }
}

} // verus!

//! The consistent-hash ring (`hashring::HashRing`) that a partitioning
//! dispatcher uses to map a partition key to a destination position.

use vstd::prelude::*;
use vstd::multiset::Multiset;
use hashring::HashRing;

verus! {

/// Declares `hashring::DefaultHashBuilder` to Verus as an opaque type.
#[verifier::external_type_specification]
#[verifier::external_body]
pub struct ExDefaultHashBuilder(hashring::DefaultHashBuilder);

/// Declares `hashring::HashRing` to Verus as an opaque type.
#[verifier::external_type_specification]
#[verifier::external_body]
#[verifier::reject_recursive_types(T)]
#[verifier::reject_recursive_types(S)]
pub struct ExHashRing<T, S>(HashRing<T, S>);

/// What a ring holds: the nodes added and not yet removed, with multiplicity.
pub uninterp spec fn ring_nodes(r: HashRing<usize>) -> Multiset<usize>;

/// `HashRing::new`: an empty ring.
#[verifier::external_body]
pub fn ring_new() -> (r: HashRing<usize>)
    ensures
        ring_nodes(r) == Multiset::<usize>::empty(),
{
    HashRing::new()
}

/// `HashRing::add`: the node joins the ring.
#[verifier::external_body]
pub fn ring_add(r: &mut HashRing<usize>, node: usize)
    ensures
        ring_nodes(*final(r)) == ring_nodes(*old(r)).insert(node),
{
    r.add(node)
}

/// `HashRing::remove`: looks the node's hash up in the ring and removes the
/// node found there. A node of the ring is always found; what comes back is a
/// node of the ring with the same hash (the node itself unless two nodes
/// share a hash), and it is the one removed. Without a match the ring is
/// left as it is.
#[verifier::external_body]
pub fn ring_remove(r: &mut HashRing<usize>, node: usize) -> (res: Option<usize>)
    ensures
        ring_nodes(*old(r)).contains(node) ==> res is Some,
        res is Some ==> ring_nodes(*old(r)).contains(res->0)
            && ring_nodes(*final(r)) == ring_nodes(*old(r)).remove(res->0),
        res is None ==> ring_nodes(*final(r)) == ring_nodes(*old(r)),
{
    r.remove(&node)
}

/// The node a ring serves a key with (what `HashRing::get` returns). It
/// depends on the ring and the key alone: the key is hashed with a SipHash
/// of fixed keys, and the nodes' hashes are kept in the ring.
pub uninterp spec fn ring_lookup(r: HashRing<usize>, key: Seq<char>) -> Option<usize>;

/// `HashRing::get`: the node that serves a key, `None` only on an empty ring.
/// How the key's hash picks the node is left to `ring_lookup`.
#[verifier::external_body]
pub fn ring_get(r: &HashRing<usize>, key: &String) -> (res: Option<usize>)
    ensures
        res == ring_lookup(*r, key@),
        res is None <==> ring_nodes(*r).len() == 0,
        res is Some ==> ring_nodes(*r).contains(res->0),
{
    r.get(key).copied()
}

/// The positions `0..n`, each once.
pub open spec fn positions(n: nat) -> Multiset<usize>
    decreases n,
{
    if n == 0 {
        Multiset::empty()
    } else {
        positions((n - 1) as nat).insert((n - 1) as usize)
    }
}

/// The positions `0..n` are each on the ring once, and nothing else is.
pub proof fn law_positions(n: nat, i: usize)
    requires
        n <= usize::MAX,
    ensures
        positions(n).count(i) == (if i < n { 1nat } else { 0nat }),
    decreases n,
{
    broadcast use vstd::multiset::group_multiset_axioms;
    if n > 0 {
        law_positions((n - 1) as nat, i);
    }
}

} // verus!

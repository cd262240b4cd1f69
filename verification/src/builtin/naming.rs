//! Names of Pulsar clients: each instance of a Pulsar stage takes a new
//! number from a counter and names its client `<instance name>-<number>`.

use vstd::prelude::*;
use vstd::string::StringExecFns;
use crate::decimal::{signed_decimal, render_i32};

verus! {

/// Numbers instances; the first number is 1, and numbering wraps from
/// `i32::MAX` to `i32::MIN` (as an atomic `fetch_add` does).
pub struct InstanceCounter {
    pub next: i32,
}

impl InstanceCounter {
    /// A counter whose first number is 1.
    pub fn new() -> (c: Self)
        ensures
            c.next == 1,
    {
        InstanceCounter { next: 1 }
    }
}

/// The number after `n`, wrapping at `i32::MAX`.
pub open spec fn following(n: i32) -> i32 {
    if n == i32::MAX {
        i32::MIN
    } else {
        (n + 1) as i32
    }
}

/// Numbers go up by one and wrap from `i32::MAX` to `i32::MIN`; a client's
/// name is the instance name, a `-`, then the number in decimal.
pub proof fn law_numbering_and_names(n: i32, name: Seq<char>)
    ensures
        n < i32::MAX ==> following(n) == n + 1,
        following(i32::MAX) == i32::MIN,
        numbered_name(name, n).subrange(0, name.len() as int) == name,
        numbered_name(name, n)[name.len() as int] == '-',
        numbered_name(name, n).subrange(name.len() as int + 1, numbered_name(name, n).len() as int) == signed_decimal(
            n as int,
        ),
{
    let t = numbered_name(name, n);
    assert(t.subrange(0, name.len() as int) =~= name);
    assert(t.subrange(name.len() as int + 1, t.len() as int) =~= signed_decimal(n as int));
}

/// Takes the number for the next instance of a Pulsar stage: the counter's
/// number, and the counter moves on (as an atomic `fetch_add(1)` does).
pub fn get_new_id(counter: &mut InstanceCounter) -> (id: i32)
    ensures
        id == old(counter).next,
        final(counter).next == following(old(counter).next),
{
    let id = counter.next;
    counter.next = if id == i32::MAX {
        i32::MIN
    } else {
        id + 1
    };
    id
}

/// The counter's number after `k` numbers were taken from a new counter.
pub open spec fn counter_after(k: nat) -> i32
    decreases k,
{
    if k == 0 {
        1
    } else {
        following(counter_after((k - 1) as nat))
    }
}

/// A new counter hands out 1, 2, 3, ...: the `k`-th number taken (for `k`
/// up to `i32::MAX`) is `k`.
pub proof fn law_ids_count_from_one(k: nat)
    requires
        1 <= k <= i32::MAX,
    ensures
        counter_after((k - 1) as nat) == k,
    decreases k,
{
    if k > 1 {
        law_ids_count_from_one((k - 1) as nat);
    }
}

/// A new counter never repeats a number within its first `i32::MAX`
/// numbers.
pub proof fn law_ids_distinct(a: nat, b: nat)
    requires
        1 <= a < b <= i32::MAX,
    ensures
        counter_after((a - 1) as nat) != counter_after((b - 1) as nat),
{
    law_ids_count_from_one(a);
    law_ids_count_from_one(b);
}

/// `<name>-<id>`.
pub open spec fn numbered_name(name: Seq<char>, id: i32) -> Seq<char> {
    name + seq!['-'] + signed_decimal(id as int)
}

/// The name of a client: `<name>-<id>`.
pub fn client_name(name: &str, id: i32) -> (s: String)
    ensures
        s@ == numbered_name(name@, id),
{
    let mut s = <String as StringExecFns>::from_str(name);
    proof {
        reveal_strlit("-");
    }
    s.append("-");
    let digits = render_i32(id);
    s.append(digits.as_str());
    assert(s@ =~= numbered_name(name@, id));
    s
}

} // verus!

//! What holds of canonical trees, of their sums and of the numbers read back
//! from them.

use vstd::prelude::*;
use crate::extractor::{count_as_u32, well_founded};
use crate::set_tree::{canonical, canonical_members, extended, sum, SetTree};

verus! {

/// The canonical tree of `n` has exactly `n` members, and its member at
/// position `i` is the canonical tree of `i`.
pub proof fn lemma_canonical_shape(n: nat)
    ensures
        canonical(n).count() == n,
        canonical(n).members() == canonical_members(n),
        forall|i: int| 0 <= i < n ==> #[trigger] canonical(n).members()[i] == canonical(i as nat),
{
    assert(canonical_members(0) =~= Seq::empty());
}

/// The canonical tree of zero is the empty set, and no other canonical tree
/// is.
pub proof fn lemma_canonical_zero(n: nat)
    ensures
        canonical(0) == SetTree::Empty,
        canonical(n) == SetTree::Empty <==> n == 0,
{
}

/// Different numbers have different canonical trees.
pub proof fn lemma_canonical_injective(n: nat, m: nat)
    ensures
        canonical(n) == canonical(m) <==> n == m,
{
    lemma_canonical_shape(n);
    lemma_canonical_shape(m);
}

/// Every canonical tree is well founded.
pub proof fn lemma_canonical_well_founded(n: nat)
    ensures
        well_founded(canonical(n)),
{
    lemma_canonical_shape(n);
}

/// The number read back from the canonical tree of `n` is `n`.
pub proof fn lemma_number_of_canonical(n: u32)
    ensures
        count_as_u32(canonical(n as nat).count()) == n,
{
    lemma_canonical_shape(n as nat);
}

/// The members of a successor are those of `n`, and then `n` itself.
pub proof fn lemma_canonical_successor(n: nat)
    ensures
        canonical_members(n + 1) == canonical_members(n).push(canonical(n)),
{
    assert(canonical_members(n + 1) =~= canonical_members(n).push(canonical(n)));
}

/// Extending by `first` members and then by `second` more is extending by
/// `first + second` at once.
pub proof fn lemma_extended_twice(members: Seq<SetTree>, first: nat, second: nat)
    ensures
        extended(extended(members, first), second) == extended(members, first + second),
    decreases first,
{
    if first > 0 {
        lemma_extended_twice(
            members.push(SetTree::Collection(members)),
            (first - 1) as nat,
            second,
        );
    }
}

/// Extending keeps what is there and adds exactly `count` members.
pub proof fn lemma_extended_keeps_members(members: Seq<SetTree>, count: nat)
    ensures
        extended(members, count).len() == members.len() + count,
        forall|i: int| 0 <= i < members.len() ==> extended(members, count)[i] == members[i],
    decreases count,
{
    if count > 0 {
        let longer = members.push(SetTree::Collection(members));
        lemma_extended_keeps_members(longer, (count - 1) as nat);
        assert forall|i: int| 0 <= i < members.len() implies extended(members, count)[i]
            == members[i] by {
            assert(extended(longer, (count - 1) as nat)[i] == longer[i]);
        }
    }
}

/// Extending the members of a positive number `n` by `count` gives the
/// members of `n + count`.
pub proof fn lemma_extended_canonical(n: nat, count: nat)
    requires
        n > 0,
    ensures
        extended(canonical_members(n), count) == canonical_members(n + count),
    decreases count,
{
    if count > 0 {
        lemma_canonical_successor(n);
        lemma_extended_canonical(n + 1, (count - 1) as nat);
    }
}

/// The sum of two canonical trees is the canonical tree of the sum of their
/// numbers, whichever operand comes first.
pub proof fn lemma_sum_of_canonical(n: nat, m: nat)
    ensures
        sum(canonical(n), canonical(m)) == canonical(n + m),
        sum(canonical(m), canonical(n)) == canonical(n + m),
        sum(canonical(n), canonical(m)).count() == n + m,
        sum(canonical(m), canonical(n)).count() == n + m,
{
    lemma_canonical_shape(n);
    lemma_canonical_shape(m);
    lemma_canonical_shape(n + m);
    if n > 0 && m > 0 {
        lemma_extended_canonical(n, m);
        lemma_extended_canonical(m, n);
    }
}

/// The number read back from the sum of two canonical trees is the sum of
/// their numbers, in either order, as long as that sum is a `u32`.
pub proof fn lemma_number_of_sum(n: u32, m: u32)
    requires
        n + m <= u32::MAX,
    ensures
        count_as_u32(sum(canonical(n as nat), canonical(m as nat)).count()) == n + m,
        count_as_u32(sum(canonical(m as nat), canonical(n as nat)).count()) == n + m,
{
    lemma_sum_of_canonical(n as nat, m as nat);
}

/// The sum of any two trees, empty or not, has as many members as both have
/// together.
pub proof fn lemma_sum_count(a: SetTree, b: SetTree)
    ensures
        sum(a, b).count() == a.count() + b.count(),
        sum(a, b).count() == sum(b, a).count(),
{
    lemma_extended_keeps_members(a.members(), b.count());
    lemma_extended_keeps_members(b.members(), a.count());
}

/// Adding the canonical tree of zero, on either side, gives the other
/// operand as it is, whatever tree that is.
pub proof fn lemma_sum_identity(x: SetTree)
    ensures
        sum(canonical(0), x) == x,
        sum(x, canonical(0)) == x,
{
}

} // verus!

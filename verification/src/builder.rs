//! From an integer to its canonical set tree.

use vstd::prelude::*;
use vstd::std_specs::convert::FromSpecImpl;
use crate::laws::lemma_canonical_shape;
use crate::nat_num::{trees, NatNum};
use crate::set_tree::{canonical, canonical_members};

verus! {

/// Puts the canonical trees of `0, 1, .., curr - 1`, in this order, in front
/// of what `tree` holds.
///
/// The tree of `curr - 1` is built first, in a list of its own, and goes to
/// the front; the smaller ones then go in front of it in the same way.
pub fn populate_nat_tree(tree: &mut Vec<NatNum>, curr: u32)
    ensures
        trees(final(tree)@) == canonical_members(curr as nat) + trees(old(tree)@),
    decreases curr,
{
    match curr {
        0 => {
            assert(trees(tree@) =~= canonical_members(0) + trees(tree@));
        },
        1 => {
            tree.insert(0, NatNum::Zero);
            populate_nat_tree(tree, curr - 1);
            assert(trees(tree@) =~= canonical_members(1) + trees(old(tree)@));
        },
        _ => {
            let mut sub_tree_data = Vec::new();
            populate_nat_tree(&mut sub_tree_data, curr - 1);
            assert(trees(sub_tree_data@) =~= canonical_members((curr - 1) as nat));
            let sub_tree = NatNum::Mult(sub_tree_data);
            tree.insert(0, sub_tree);
            assert(trees(tree@) =~= seq![canonical((curr - 1) as nat)] + trees(old(tree)@));
            populate_nat_tree(tree, curr - 1);
            assert(trees(tree@) =~= canonical_members(curr as nat) + trees(old(tree)@));
        },
    }
}

impl From<u32> for NatNum {
    /// The canonical tree of `num`: the empty set for `0`, and otherwise the
    /// set of the canonical trees of `0, 1, .., num - 1`, in this order.
    fn from(num: u32) -> (nat_num: NatNum)
        ensures
            nat_num@ == canonical(num as nat),
            nat_num is Zero <==> num == 0,
            nat_num@.count() == num,
    {
        proof {
            lemma_canonical_shape(num as nat);
        }
        if num == 0 {
            return NatNum::Zero;
        }
        let mut nat_num_data: Vec<NatNum> = Vec::new();
        populate_nat_tree(&mut nat_num_data, num);
        assert(trees(nat_num_data@) =~= canonical_members(num as nat));
        NatNum::Mult(nat_num_data)
    }
}

impl FromSpecImpl<u32> for NatNum {
    /// What `from` returns is stated on `from` itself, by the view of the
    /// result: two values with the same view need not be the same value.
    open spec fn obeys_from_spec() -> bool {
        false
    }

    /// Some value whose view is the canonical tree of `num`.
    open spec fn from_spec(num: u32) -> NatNum {
        choose|nat_num: NatNum| nat_num@ == canonical(num as nat)
    }
}

} // verus!

//! Addition of two set trees, done on the trees themselves.

use vstd::prelude::*;
use crate::nat_num::{trees, NatNum};
use crate::laws::lemma_extended_twice;
use crate::set_tree::{extended, sum, SetTree};

verus! {

/// Appends `rem` members to `tree`, one after the other. Each new member is
/// a copy of the whole list as it stands when the member is added.
pub fn recursive_nat_tree_increment(tree: &mut Vec<NatNum>, rem: u32)
    ensures
        trees(final(tree)@) == extended(trees(old(tree)@), rem as nat),
    decreases rem,
{
    if rem == 0 {
        return ;
    }
    let new_subtree = tree.clone();
    assert(trees(new_subtree@) =~= trees(tree@));
    let end_num = NatNum::Mult(new_subtree);
    tree.push(end_num);
    assert(trees(tree@) =~= trees(old(tree)@).push(SetTree::Collection(trees(old(tree)@))));
    recursive_nat_tree_increment(tree, rem - 1)
}

/// Appends `count` members to `tree` as [`recursive_nat_tree_increment`]
/// does, in as many rounds as it takes where `count` is more than one round
/// can hold.
fn increment_by(tree: &mut Vec<NatNum>, count: usize)
    ensures
        trees(final(tree)@) == extended(trees(old(tree)@), count as nat),
{
    let mut rest: usize = count;
    while rest > u32::MAX as usize
        invariant
            extended(trees(tree@), rest as nat) == extended(trees(old(tree)@), count as nat),
        decreases rest,
    {
        let ghost before = trees(tree@);
        recursive_nat_tree_increment(tree, u32::MAX);
        rest -= u32::MAX as usize;
        proof {
            lemma_extended_twice(before, u32::MAX as nat, rest as nat);
        }
    }
    recursive_nat_tree_increment(tree, rest as u32);
}

impl NatNum {
    /// Adds two trees without turning them into integers first.
    ///
    /// An empty operand gives a copy of the other one. Otherwise the operand
    /// with more members is copied and extended by as many members as the
    /// other operand has.
    pub fn add_rec(&self, other: &NatNum) -> (total: NatNum)
        ensures
            total@ == sum(self@, other@),
    {
        match self {
            NatNum::Zero => other.clone(),
            NatNum::Mult(tree1) => {
                match other {
                    NatNum::Zero => self.clone(),
                    NatNum::Mult(tree2) => {
                        if tree1.len() >= tree2.len() {
                            let mut tree_data = tree1.clone();
                            assert(trees(tree_data@) =~= trees(tree1@));
                            increment_by(&mut tree_data, tree2.len());
                            NatNum::Mult(tree_data)
                        } else {
                            let mut tree_data = tree2.clone();
                            assert(trees(tree_data@) =~= trees(tree2@));
                            increment_by(&mut tree_data, tree1.len());
                            NatNum::Mult(tree_data)
                        }
                    },
                }
            },
        }
    }
}

} // verus!

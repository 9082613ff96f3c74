//! From a set tree back to an integer.

use vstd::prelude::*;
use crate::nat_num::{trees, NatNum};
use crate::laws::lemma_canonical_shape;
use crate::set_tree::{canonical, canonical_members, SetTree};

verus! {

/// A member count as a `u32`: the count itself where it fits, and else what
/// is left of it modulo `2^32`.
pub open spec fn count_as_u32(count: nat) -> u32 {
    (count % 0x1_0000_0000) as u32
}

/// Whether the tree is the canonical tree of some number, which is then the
/// count of its members: every set in it holds as many members as the number
/// that it stands for, and its member at position `i` is the canonical tree
/// of `i`.
pub open spec fn well_founded(tree: SetTree) -> bool {
    tree == canonical(tree.count())
}

/// A tree that is not the canonical tree of any number.
#[derive(Debug, Clone, Copy, PartialEq, Eq)]
pub struct MalformedTree;

/// How many members the list has, as a `u32`. Looks at the members no
/// further.
pub fn simple_nat_to_num(num: &Vec<NatNum>) -> (count: u32)
    ensures
        count == count_as_u32(num@.len()),
        num@.len() <= u32::MAX ==> count == num@.len(),
{
    (num.len() as u64 % 0x1_0000_0000) as u32
}

impl NatNum {
    /// The number that a canonical tree stands for: `0` for the empty set,
    /// and otherwise the count of its immediate members.
    pub fn to_number(&self) -> (number: u32)
        ensures
            number == count_as_u32(self@.count()),
            self@.count() <= u32::MAX ==> number == self@.count(),
    {
        match self {
            NatNum::Zero => 0,
            NatNum::Mult(nat_num) => simple_nat_to_num(nat_num),
        }
    }
}

impl NatNum {
    /// The count of the tree's members where the tree is well founded, and
    /// nothing where it is not.
    fn well_founded_count(&self) -> (found: Option<usize>)
        ensures
            found is Some <==> well_founded(self@),
            found matches Some(count) ==> count == self@.count(),
        decreases self,
    {
        match self {
            NatNum::Zero => Some(0),
            NatNum::Mult(children) => {
                if children.len() == 0 {
                    return None;
                }
                let mut i: usize = 0;
                while i < children.len()
                    invariant
                        i <= children.len(),
                        self is Mult,
                        self->Mult_0 == *children,
                        forall|j: int| 0 <= j < i ==> children[j]@ == canonical(j as nat),
                    decreases children.len() - i,
                {
                    match children[i].well_founded_count() {
                        Some(count) if count == i => {},
                        _ => {
                            proof {
                                lemma_canonical_shape(i as nat);
                                assert(trees(children@)[i as int] != canonical_members(
                                    children.len() as nat,
                                )[i as int]);
                            }
                            return None;
                        },
                    }
                    i += 1;
                }
                assert(trees(children@) =~= canonical_members(children.len() as nat));
                Some(children.len())
            },
        }
    }

    /// The number that the tree stands for, after a check of the whole tree:
    /// a tree that is not well founded is refused.
    pub fn to_number_checked(&self) -> (checked: Result<u32, MalformedTree>)
        ensures
            checked is Ok <==> well_founded(self@),
            checked matches Ok(number) ==> number == count_as_u32(self@.count()),
    {
        match self.well_founded_count() {
            Some(_) => Ok(self.to_number()),
            None => Err(MalformedTree),
        }
    }
}

} // verus!

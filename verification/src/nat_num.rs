//! The executable set tree, the mathematical tree that it stands for, and
//! what the type itself offers: a deep copy and structural equality.

use vstd::prelude::*;
use crate::set_tree::SetTree;

verus! {

/// A natural number as a set tree: `Zero` is the empty set, and `Mult` is the
/// set of the given members, in the order in which they are kept.
#[derive(Debug)]
pub enum NatNum {
    Zero,
    Mult(Vec<NatNum>),
}

/// The mathematical trees that a list of executable trees stands for, one by
/// one.
pub open spec fn trees(children: Seq<NatNum>) -> Seq<SetTree>
    decreases children,
{
    Seq::new(
        children.len(),
        |i: int|
            if 0 <= i < children.len() {
                children[i]@
            } else {
                SetTree::Empty
            },
    )
}

impl View for NatNum {
    type V = SetTree;

    /// The mathematical tree that the value stands for.
    open spec fn view(&self) -> SetTree
        decreases self,
    {
        match self {
            NatNum::Zero => SetTree::Empty,
            NatNum::Mult(children) => SetTree::Collection(trees(children@)),
        }
    }
}

impl Clone for NatNum {
    /// A deep copy: a tree of its own, down to the last member, that stands
    /// for the same mathematical tree.
    fn clone(&self) -> (copy: Self)
        ensures
            copy@ == self@,
        decreases self,
    {
        match self {
            NatNum::Zero => NatNum::Zero,
            NatNum::Mult(children) => {
                let mut copies: Vec<NatNum> = Vec::new();
                let mut i: usize = 0;
                while i < children.len()
                    invariant
                        i <= children.len(),
                        self is Mult,
                        self->Mult_0 == *children,
                        copies.len() == i,
                        forall|j: int| 0 <= j < i ==> copies[j]@ == children[j]@,
                    decreases children.len() - i,
                {
                    copies.push(children[i].clone());
                    i += 1;
                }
                assert(trees(copies@) =~= trees(children@));
                NatNum::Mult(copies)
            },
        }
    }
}

impl PartialEq for NatNum {
    /// Structural equality: both trees are empty, or both are collections of
    /// equally many members that are equal one by one, in the same order.
    fn eq(&self, other: &Self) -> (equal: bool)
        decreases self,
    {
        match self {
            NatNum::Zero => match other {
                NatNum::Zero => true,
                NatNum::Mult(_) => false,
            },
            NatNum::Mult(children) => match other {
                NatNum::Zero => false,
                NatNum::Mult(others) => {
                    if children.len() != others.len() {
                        assert(trees(children@).len() != trees(others@).len());
                        return false;
                    }
                    let mut i: usize = 0;
                    while i < children.len()
                        invariant
                            i <= children.len(),
                            children.len() == others.len(),
                            self is Mult,
                            self->Mult_0 == *children,
                            other@ == SetTree::Collection(trees(others@)),
                            forall|j: int| 0 <= j < i ==> children[j]@ == others[j]@,
                        decreases children.len() - i,
                    {
                        if !children[i].eq(&others[i]) {
                            assert(trees(children@)[i as int] != trees(others@)[i as int]);
                            return false;
                        }
                        i += 1;
                    }
                    assert(trees(children@) =~= trees(others@));
                    true
                },
            },
        }
    }
}

impl vstd::std_specs::cmp::PartialEqSpecImpl for NatNum {
    open spec fn obeys_eq_spec() -> bool {
        true
    }

    /// Two values are equal where they stand for the same mathematical tree.
    open spec fn eq_spec(&self, other: &Self) -> bool {
        self@ == other@
    }
}

} // verus!

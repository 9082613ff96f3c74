//! The mathematical model: set trees, the canonical tree of each natural
//! number, and the sum of two trees.

use vstd::prelude::*;

verus! {

/// A finite set whose members are themselves such sets, kept in a fixed order.
pub ghost enum SetTree {
    /// The set without members.
    Empty,
    /// The set with the given members.
    Collection(Seq<SetTree>),
}

impl SetTree {
    /// The immediate members of the set.
    pub open spec fn members(self) -> Seq<SetTree> {
        match self {
            SetTree::Empty => Seq::empty(),
            SetTree::Collection(members) => members,
        }
    }

    /// How many immediate members the set has. For a canonical tree this is
    /// the number that it stands for.
    pub open spec fn count(self) -> nat {
        self.members().len()
    }
}

/// The members of the canonical tree of `n`: the canonical trees of
/// `0, 1, .., n - 1`, in this order.
pub open spec fn canonical_members(n: nat) -> Seq<SetTree>
    decreases n, 0nat,
{
    Seq::new(
        n,
        |i: int|
            if 0 <= i < n {
                canonical(i as nat)
            } else {
                SetTree::Empty
            },
    )
}

/// The canonical tree of `n`: the empty set for `0`, and otherwise the set of
/// the canonical trees of all smaller numbers.
pub open spec fn canonical(n: nat) -> SetTree
    decreases n, 1nat,
{
    if n == 0 {
        SetTree::Empty
    } else {
        SetTree::Collection(canonical_members(n))
    }
}

/// `members`, followed by `count` further members, each of which is the set
/// of all members that stand before it.
pub open spec fn extended(members: Seq<SetTree>, count: nat) -> Seq<SetTree>
    decreases count,
{
    if count == 0 {
        members
    } else {
        extended(members.push(SetTree::Collection(members)), (count - 1) as nat)
    }
}

/// The sum of two trees. An empty operand leaves the other one as it is.
/// Otherwise the operand with more members (the left one, where both have as
/// many) is extended by as many members as the other operand has.
pub open spec fn sum(a: SetTree, b: SetTree) -> SetTree {
    match (a, b) {
        (SetTree::Empty, _) => b,
        (_, SetTree::Empty) => a,
        (SetTree::Collection(left), SetTree::Collection(right)) => if left.len() >= right.len() {
            SetTree::Collection(extended(left, right.len()))
        } else {
            SetTree::Collection(extended(right, left.len()))
        },
    }
}

} // verus!

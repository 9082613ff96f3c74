//! A set tree as a diagram of nested `{}` entries, one entry per line.

use vstd::prelude::*;
use vstd::string::*;
use crate::nat_num::{trees, NatNum};
use crate::set_tree::SetTree;

verus! {

/// `unit`, `times` times in a row.
pub open spec fn repeated(unit: Seq<char>, times: nat) -> Seq<char>
    decreases times,
{
    if times == 0 {
        Seq::empty()
    } else {
        repeated(unit, (times - 1) as nat) + unit
    }
}

/// The bars in front of the arrow, `level` sets deep.
pub open spec fn bars(level: nat) -> Seq<char> {
    "|"@ + repeated("  |"@, level)
}

/// What stands in front of an entry that is nested `level` sets deep: a bar,
/// two blanks and a bar for each level, and an arrow.
pub open spec fn line_prefix(level: nat) -> Seq<char> {
    bars(level) + "->"@
}

/// The lines of the given members and of all that is nested in them: each
/// member's own line, directly followed by the lines of its members one level
/// deeper, member after member in the order in which they are kept.
pub open spec fn entries(members: Seq<SetTree>, level: nat) -> Seq<char>
    decreases members,
{
    if members.len() == 0 {
        Seq::empty()
    } else {
        entries(members.drop_last(), level) + entry(members.last(), level)
    }
}

/// The line of one member, nested `level` sets deep, and the lines of what is
/// nested in it.
pub open spec fn entry(member: SetTree, level: nat) -> Seq<char>
    decreases member,
{
    line_prefix(level) + "{}\n"@ + match member {
        SetTree::Empty => Seq::empty(),
        SetTree::Collection(inner) => entries(inner, level + 1),
    }
}

/// The diagram of a tree: `{}` alone for the empty set, and else a line
/// `{}` followed by the lines of the members.
pub open spec fn diagram(tree: SetTree) -> Seq<char> {
    match tree {
        SetTree::Empty => "{}"@,
        SetTree::Collection(members) => "{}\n"@ + entries(members, 0),
    }
}

/// One level deeper, the bars are those of the level above behind a bar and
/// two blanks.
proof fn lemma_bars_deeper(level: nat)
    ensures
        bars(level + 1) == "|  "@ + bars(level),
    decreases level,
{
    reveal_strlit("|");
    reveal_strlit("  |");
    reveal_strlit("|  ");
    if level > 0 {
        lemma_bars_deeper((level - 1) as nat);
        assert(bars(level + 1) =~= bars(level) + "  |"@);
        assert(bars(level) =~= bars((level - 1) as nat) + "  |"@);
        assert(bars(level + 1) =~= "|  "@ + bars(level));
    } else {
        assert(repeated("  |"@, 0) =~= Seq::empty());
        assert(repeated("  |"@, 1) =~= "  |"@);
        assert(bars(1) =~= "|  "@ + bars(0));
    }
}

/// One level deeper, the prefix is that of the level above behind a bar and
/// two blanks.
pub proof fn lemma_line_prefix_deeper(level: nat)
    ensures
        line_prefix(level + 1) == "|  "@ + line_prefix(level),
{
    lemma_bars_deeper(level);
    assert(line_prefix(level + 1) =~= "|  "@ + line_prefix(level));
}

/// The prefix of an entry that is nested `level` sets deep.
pub fn simple_graph_intonation(level: u32) -> (intonation: String)
    ensures
        intonation@ == line_prefix(level as nat),
{
    let mut intonation = String::new();
    intonation.append("|");
    for i in 0..level
        invariant
            intonation@ == bars(i as nat),
    {
        intonation.append("  |");
    }
    intonation.append("->");
    intonation
}

/// Appends to `graph` the lines of the members in `tree` and of all that is
/// nested in them. `intonation` is the prefix of the members' own lines.
fn recursive_nat_tree_to_string_simple(
    tree: &Vec<NatNum>,
    graph: &mut String,
    intonation: &String,
    Ghost(level): Ghost<nat>,
)
    requires
        intonation@ == line_prefix(level),
    ensures
        final(graph)@ == old(graph)@ + entries(trees(tree@), level),
    decreases tree,
{
    let mut i: usize = 0;
    while i < tree.len()
        invariant
            i <= tree.len(),
            intonation@ == line_prefix(level),
            graph@ == old(graph)@ + entries(trees(tree@).take(i as int), level),
        decreases tree.len() - i,
    {
        let ghost before = graph@;
        graph.append(intonation.as_str());
        graph.append("{}\n");
        match &tree[i] {
            NatNum::Zero => {},
            NatNum::Mult(subtree) => {
                let deeper = String::from_str("|  ").concat(intonation.as_str());
                proof {
                    lemma_line_prefix_deeper(level);
                }
                recursive_nat_tree_to_string_simple(subtree, graph, &deeper, Ghost(level + 1));
            },
        }
        proof {
            let shown = trees(tree@).take(i + 1);
            assert(shown.drop_last() =~= trees(tree@).take(i as int));
            assert(graph@ =~= before + entry(shown.last(), level));
        }
        i += 1;
    }
    assert(trees(tree@).take(i as int) =~= trees(tree@));
}

impl NatNum {
    /// The tree as a diagram: `{}` for the empty set, and otherwise a line
    /// `{}` followed by one line for each member and for each set nested in
    /// a member, every line ending in a line feed.
    pub fn to_string(&self) -> (graph: String)
        ensures
            graph@ == diagram(self@),
    {
        match self {
            NatNum::Zero => String::from_str("{}"),
            NatNum::Mult(tree) => {
                let mut graph = String::from_str("{}\n");
                let intonation = simple_graph_intonation(0);
                recursive_nat_tree_to_string_simple(tree, &mut graph, &intonation, Ghost(0));
                graph
            },
        }
    }
}

} // verus!

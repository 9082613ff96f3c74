//! Natural numbers as finite sets of smaller numbers: `0 = {}` and
//! `n = {0, 1, .., n - 1}`.
//!
//! [`NatNum`] is the executable tree. Its view, [`SetTree`], is the
//! mathematical set tree over which every contract is stated: a tree is built
//! from an integer, two trees are added, and a tree is turned back into an
//! integer or into a diagram.

pub mod adder;
pub mod builder;
pub mod extractor;
pub mod laws;
pub mod nat_num;
pub mod renderer;
pub mod set_tree;

pub use adder::recursive_nat_tree_increment;
pub use builder::populate_nat_tree;
pub use extractor::{simple_nat_to_num, MalformedTree};
pub use nat_num::NatNum;
pub use renderer::simple_graph_intonation;
pub use set_tree::SetTree;

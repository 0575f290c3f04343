//! The detail tree: `(("name" "display") child sibling)`, where `child` and
//! `sibling` are each another node or the empty list `()`.
use vstd::prelude::*;

verus! {

/// The empty slot, `()`.
pub open spec fn empty_text() -> Seq<char> {
    "()"@
}

/// The text of one node with its two slots.
pub open spec fn node_text(name: Seq<char>, display: Seq<char>, child: Seq<char>, sibling: Seq<char>) -> Seq<char> {
    "((\""@ + name + "\" \""@ + display + "\") "@ + child + " "@ + sibling + ")"@
}

/// A node whose two slots are empty.
pub open spec fn leaf_text(name: Seq<char>, display: Seq<char>) -> Seq<char> {
    node_text(name, display, empty_text(), empty_text())
}

/// Writes one node of the tree around the texts of its two slots.
pub fn node(name: &str, display: &str, child: &str, sibling: &str) -> (r: String)
    ensures
        r@ == node_text(name@, display@, child@, sibling@),
{
    let mut s = String::from_str("((\"");
    s.append(name);
    s.append("\" \"");
    s.append(display);
    s.append("\") ");
    s.append(child);
    s.append(" ");
    s.append(sibling);
    s.append(")");
    s
}

/// Writes a node with two empty slots.
pub fn leaf(name: &str, display: &str) -> (r: String)
    ensures
        r@ == leaf_text(name@, display@),
{
    node(name, display, "()", "()")
}

} // verus!

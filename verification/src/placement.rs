//! Where the builder places each heading: the outline read back in
//! document order, and what it has in common with the list it was built
//! from.

use vstd::prelude::*;
use crate::outline::{attach, leaf, levels_positive, outline_of, Entry, Node};

verus! {

/// The headings of a forest in document order, every node before its
/// children: the roots are listed with `level`, each generation below them
/// with one more.
pub open spec fn listing(nodes: Seq<Node>, level: nat) -> Seq<Entry>
    decreases nodes,
{
    if nodes.len() == 0 {
        Seq::empty()
    } else {
        listing(nodes.drop_last(), level) + seq![Entry { level, title: nodes.last().title }]
            + listing(nodes.last().children, level + 1)
    }
}

/// The smaller of two levels.
pub open spec fn lower(a: nat, b: nat) -> nat {
    if a <= b {
        a
    } else {
        b
    }
}

/// The list of headings with each level replaced by the level at which the
/// builder places the heading: 1 for the first heading and for every
/// heading of level 1, and otherwise the heading's own level, but at most
/// one more than the level at which the heading before it was placed.
pub open spec fn settled(flat: Seq<Entry>) -> Seq<Entry>
    decreases flat.len(),
{
    if flat.len() == 0 {
        Seq::empty()
    } else {
        let before = settled(flat.drop_last());
        let entry = flat.last();
        let level = if flat.len() == 1 || entry.level == 1 {
            1
        } else {
            lower(entry.level, before.last().level + 1)
        };
        before.push(Entry { level, title: entry.title })
    }
}

/// The list starts at level 1, and no heading lies more than one level
/// below the heading before it.
pub open spec fn well_nested(flat: Seq<Entry>) -> bool {
    &&& levels_positive(flat)
    &&& flat.len() > 0 ==> flat[0].level == 1
    &&& forall|i: int| 0 < i < flat.len() ==> (#[trigger] flat[i]).level <= flat[i - 1].level + 1
}

/// The titles of a list of headings, in order.
pub open spec fn titles(flat: Seq<Entry>) -> Seq<Seq<char>> {
    flat.map_values(|e: Entry| e.title)
}

/// How many times one can step from a node to its last child.
spec fn spine(node: Node) -> nat
    decreases node,
{
    if node.children.len() == 0 {
        0
    } else {
        1 + spine(node.children.last())
    }
}

proof fn lemma_listing_push(nodes: Seq<Node>, node: Node, level: nat)
    ensures
        listing(nodes.push(node), level) == listing(nodes, level) + seq![
            Entry { level, title: node.title },
        ] + listing(node.children, level + 1),
{
    assert(nodes.push(node).drop_last() =~= nodes);
}

/// The last heading listed is the one that the chain of last children
/// ends at.
proof fn lemma_listing_last(nodes: Seq<Node>, level: nat)
    requires
        nodes.len() > 0,
    ensures
        listing(nodes, level).len() > 0,
        listing(nodes, level).last().level == level + spine(nodes.last()),
    decreases nodes,
{
    let last = nodes.last();
    let head = listing(nodes.drop_last(), level) + seq![Entry { level, title: last.title }];
    let below = listing(last.children, level + 1);
    assert(listing(nodes, level) == head + below);
    if last.children.len() > 0 {
        lemma_listing_last(last.children, level + 1);
    }
}

/// Attaching a leaf below the last node of a forest adds one heading at
/// the end of the listing, and says at which level.
proof fn lemma_listing_attach(nodes: Seq<Node>, level: nat, steps: nat, title: Seq<char>)
    requires
        nodes.len() > 0,
    ensures
        listing(nodes.drop_last().push(attach(nodes.last(), steps, title)), level) == listing(
            nodes,
            level,
        ).push(Entry { level: level + 1 + lower(steps, spine(nodes.last())), title }),
    decreases steps,
{
    let node = nodes.last();
    let grown = attach(node, steps, title);
    lemma_listing_push(nodes.drop_last(), grown, level);
    if steps > 0 && node.children.len() > 0 {
        lemma_listing_attach(node.children, level + 1, (steps - 1) as nat, title);
    } else {
        lemma_listing_push(node.children, leaf(title), level + 1);
    }
}

/// Read back in document order, the outline holds exactly the headings it
/// was built from, in the same order and with the same titles, each at its
/// settled level, whatever the levels are.
pub proof fn lemma_outline_listing(flat: Seq<Entry>)
    requires
        levels_positive(flat),
    ensures
        listing(outline_of(flat), 1) == settled(flat),
    decreases flat.len(),
{
    if flat.len() > 0 {
        let rest = flat.drop_last();
        let entry = flat.last();
        let before = outline_of(rest);
        lemma_outline_listing(rest);
        if flat.len() == 1 || entry.level == 1 {
            lemma_listing_push(before, leaf(entry.title), 1);
        } else {
            crate::outline::lemma_outline_nonempty(rest);
            lemma_listing_last(before, 1);
            lemma_listing_attach(before, 1, (entry.level - 2) as nat, entry.title);
        }
    }
}

/// Settling leaves the number of headings and their titles as they are.
pub proof fn lemma_settled_keeps_titles(flat: Seq<Entry>)
    ensures
        settled(flat).len() == flat.len(),
        titles(settled(flat)) == titles(flat),
    decreases flat.len(),
{
    if flat.len() > 0 {
        let rest = flat.drop_last();
        lemma_settled_keeps_titles(rest);
        assert(titles(settled(flat)) =~= titles(settled(rest)).push(flat.last().title));
    }
}

/// Whatever the levels, the outline lists every heading once, in the
/// order in which the headings came.
pub proof fn lemma_outline_keeps_document_order(flat: Seq<Entry>)
    requires
        levels_positive(flat),
    ensures
        listing(outline_of(flat), 1).len() == flat.len(),
        titles(listing(outline_of(flat), 1)) == titles(flat),
{
    lemma_outline_listing(flat);
    lemma_settled_keeps_titles(flat);
}

/// A well-nested list settles where it stands.
pub proof fn lemma_well_nested_settled(flat: Seq<Entry>)
    requires
        well_nested(flat),
    ensures
        settled(flat) == flat,
    decreases flat.len(),
{
    if flat.len() > 0 {
        lemma_well_nested_settled(flat.drop_last());
    }
}

/// Only a well-nested list settles where it stands.
pub proof fn lemma_settled_only_if_well_nested(flat: Seq<Entry>)
    requires
        levels_positive(flat),
        settled(flat) == flat,
    ensures
        well_nested(flat),
    decreases flat.len(),
{
    if flat.len() > 0 {
        let rest = flat.drop_last();
        assert(settled(flat).drop_last() =~= settled(rest));
        lemma_settled_only_if_well_nested(rest);
    }
}

/// For a well-nested list of headings the outline, read back in document
/// order, is the list itself: the headings come in the order of the input,
/// and each lies at the depth that its level gives, level 1 being a root.
pub proof fn lemma_well_nested_outline(flat: Seq<Entry>)
    requires
        well_nested(flat),
    ensures
        listing(outline_of(flat), 1) == flat,
{
    lemma_outline_listing(flat);
    lemma_well_nested_settled(flat);
}

/// The well-nested lists are the only ones that the outline gives back
/// unchanged: in any other list some heading is placed above its level.
pub proof fn lemma_outline_of_other_lists(flat: Seq<Entry>)
    requires
        levels_positive(flat),
        !well_nested(flat),
    ensures
        listing(outline_of(flat), 1) != flat,
{
    lemma_outline_listing(flat);
    if settled(flat) == flat {
        lemma_settled_only_if_well_nested(flat);
    }
}

} // verus!

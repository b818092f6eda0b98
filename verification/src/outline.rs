//! The outline tree and its reconstruction from a flat list of headings.

use vstd::prelude::*;

verus! {

/// One heading of the outline, with its immediate subheadings in document
/// order.
#[derive(Debug, PartialEq, Eq)]
pub struct Heading {
    pub name: String,
    pub subheadings: Vec<Heading>,
}

/// A heading as the parser lists it: its level (the number of stars, at
/// least 1) and its title, with no link to a parent.
#[derive(Debug, PartialEq, Eq)]
pub struct FlatHeading {
    pub level: usize,
    pub title: String,
}

/// The mathematical model of a [`Heading`].
pub struct Node {
    pub title: Seq<char>,
    pub children: Seq<Node>,
}

/// The mathematical model of a [`FlatHeading`].
pub struct Entry {
    pub level: nat,
    pub title: Seq<char>,
}

/// The model of a heading: its title and the models of its subheadings.
pub open spec fn node_of(h: Heading) -> Node
    decreases h,
{
    Node {
        title: h.name@,
        children: Seq::new(
            h.subheadings@.len(),
            |i: int|
                if 0 <= i < h.subheadings@.len() {
                    node_of(h.subheadings@[i])
                } else {
                    arbitrary()
                },
        ),
    }
}

impl View for Heading {
    type V = Node;

    open spec fn view(&self) -> Node {
        node_of(*self)
    }
}

impl Clone for Heading {
    /// A copy of the heading and of everything below it.
    fn clone(&self) -> (copy: Heading)
        ensures
            copy@ == self@,
        decreases self,
    {
        let mut subheadings: Vec<Heading> = Vec::new();
        let mut i: usize = 0;
        while i < self.subheadings.len()
            invariant
                i <= self.subheadings.len(),
                subheadings@.len() == i,
                forall|j: int| 0 <= j < i ==> (#[trigger] subheadings@[j])@ == self.subheadings@[j]@,
            decreases self.subheadings.len() - i,
        {
            subheadings.push(self.subheadings[i].clone());
            i += 1;
        }
        let copy = Heading { name: self.name.clone(), subheadings };
        proof {
            lemma_view_children(copy);
            lemma_view_children(*self);
            assert(copy@.children =~= self@.children);
        }
        copy
    }
}

impl View for FlatHeading {
    type V = Entry;

    open spec fn view(&self) -> Entry {
        Entry { level: self.level as nat, title: self.title@ }
    }
}

/// The models of a sequence of headings.
pub open spec fn forest(headings: Seq<Heading>) -> Seq<Node> {
    headings.map_values(|h: Heading| h@)
}

/// The models of a sequence of flat headings.
pub open spec fn entries(flat: Seq<FlatHeading>) -> Seq<Entry> {
    flat.map_values(|f: FlatHeading| f@)
}

/// A node without children.
pub open spec fn leaf(title: Seq<char>) -> Node {
    Node { title, children: Seq::empty() }
}

/// The node `node` after a new leaf has been attached below it: the cursor
/// starts at `node`, moves to the last child at most `steps` times, stops
/// early at a node without children, and the leaf becomes the last child of
/// the node it stopped at.
pub open spec fn attach(node: Node, steps: nat, title: Seq<char>) -> Node
    decreases steps,
{
    if steps > 0 && node.children.len() > 0 {
        Node {
            title: node.title,
            children: node.children.drop_last().push(
                attach(node.children.last(), (steps - 1) as nat, title),
            ),
        }
    } else {
        Node { title: node.title, children: node.children.push(leaf(title)) }
    }
}

/// The outline that a flat list of headings yields. The first heading and
/// every heading of level 1 open a new root; any other heading is attached
/// below the last root, `level - 2` steps down its chain of last children.
pub open spec fn outline_of(flat: Seq<Entry>) -> Seq<Node>
    decreases flat.len(),
{
    if flat.len() == 0 {
        Seq::empty()
    } else {
        let before = outline_of(flat.drop_last());
        let entry = flat.last();
        if flat.len() == 1 || entry.level == 1 {
            before.push(leaf(entry.title))
        } else {
            before.drop_last().push(attach(before.last(), (entry.level - 2) as nat, entry.title))
        }
    }
}

/// Every level is a positive integer.
pub open spec fn levels_positive(flat: Seq<Entry>) -> bool {
    forall|i: int| 0 <= i < flat.len() ==> (#[trigger] flat[i]).level >= 1
}

/// A non-empty list of headings yields at least one root.
pub proof fn lemma_outline_nonempty(flat: Seq<Entry>)
    requires
        flat.len() > 0,
    ensures
        outline_of(flat).len() > 0,
    decreases flat.len(),
{
    if flat.len() > 1 {
        lemma_outline_nonempty(flat.drop_last());
    }
}

/// The model of a heading holds the models of its subheadings.
pub proof fn lemma_view_children(h: Heading)
    ensures
        h@.title == h.name@,
        h@.children == forest(h.subheadings@),
{
    reveal_with_fuel(node_of, 2);
}

proof fn lemma_view_leaf(h: Heading)
    requires
        h.subheadings@.len() == 0,
    ensures
        h@ == leaf(h.name@),
{
    lemma_view_children(h);
    assert(h@.children =~= Seq::<Node>::empty());
}

/// Attaches `leaf` below `node`, at most `steps` levels down its chain of
/// last children.
fn attach_below(node: Heading, steps: usize, leaf: Heading) -> (r: Heading)
    requires
        leaf.subheadings@.len() == 0,
    ensures
        r@ == attach(node@, steps as nat, leaf.name@),
    decreases steps,
{
    let mut node = node;
    proof {
        lemma_view_children(node);
        lemma_view_children(leaf);
    }
    let ghost before = node;
    if steps > 0 && node.subheadings.len() > 0 {
        let last = node.subheadings.pop().unwrap();
        let last = attach_below(last, steps - 1, leaf);
        node.subheadings.push(last);
        proof {
            lemma_view_children(node);
            assert(node@.children =~= before@.children.drop_last().push(last@));
        }
    } else {
        node.subheadings.push(leaf);
        proof {
            lemma_view_children(node);
            lemma_view_leaf(leaf);
            assert(node@.children =~= before@.children.push(leaf@));
        }
    }
    node
}

/// Whether every heading of the list has a positive level.
pub fn levels_are_positive(flat: &Vec<FlatHeading>) -> (positive: bool)
    ensures
        positive == levels_positive(entries(flat@)),
{
    let mut i: usize = 0;
    while i < flat.len()
        invariant
            i <= flat.len(),
            forall|j: int| 0 <= j < i ==> (#[trigger] entries(flat@)[j]).level >= 1,
        decreases flat.len() - i,
    {
        if flat[i].level == 0 {
            assert(entries(flat@)[i as int].level == 0);
            return false;
        }
        i += 1;
    }
    true
}

/// Rebuilds the outline from the flat list of headings, in one pass and
/// without failing: a heading whose level asks for more depth than the
/// tree has is attached where the walk down the last children stops.
pub fn build(flat: &Vec<FlatHeading>) -> (outline: Vec<Heading>)
    requires
        levels_positive(entries(flat@)),
    ensures
        forest(outline@) == outline_of(entries(flat@)),
{
    let mut outline: Vec<Heading> = Vec::new();
    let mut i: usize = 0;
    while i < flat.len()
        invariant
            i <= flat.len(),
            levels_positive(entries(flat@)),
            forest(outline@) == outline_of(entries(flat@).take(i as int)),
        decreases flat.len() - i,
    {
        let ghost all = entries(flat@);
        let record = &flat[i];
        let leaf = Heading { name: record.title.clone(), subheadings: Vec::new() };
        proof {
            lemma_view_leaf(leaf);
            assert(all.take(i + 1).drop_last() =~= all.take(i as int));
            assert(all.take(i + 1).last() == record@);
        }
        if i == 0 || record.level == 1 {
            outline.push(leaf);
        } else {
            proof {
                lemma_outline_nonempty(all.take(i as int));
            }
            let last = outline.pop().unwrap();
            let last = attach_below(last, record.level - 2, leaf);
            outline.push(last);
        }
        i += 1;
    }
    assert(entries(flat@).take(i as int) =~= entries(flat@));
    outline
}

/// Builds the outline of a list of headings of any levels: there is one
/// exactly if every level is positive.
pub fn checked_build(flat: &Vec<FlatHeading>) -> (built: Option<Vec<Heading>>)
    ensures
        built is Some <==> levels_positive(entries(flat@)),
        built matches Some(outline) ==> forest(outline@) == outline_of(entries(flat@)),
{
    if levels_are_positive(flat) {
        Some(build(flat))
    } else {
        None
    }
}

} // verus!

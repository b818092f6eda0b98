//! The navigation block: the outline as nested ordered lists of links to
//! the anchors of the headings.

use vstd::prelude::*;
use vstd::string::StringExecFns;
use crate::markup::{escaped, push_escaped};
use crate::outline::{forest, lemma_view_children, Heading, Node};
use crate::slug::{anchor, id_ify};

verus! {

/// The list item of one heading: a link to the heading's anchor, with the
/// title as its text.
pub open spec fn item_markup(title: Seq<char>) -> Seq<char> {
    "<li><a href=\"#"@ + escaped(anchor(title)) + "\">"@ + escaped(title) + "</a></li>"@
}

/// The items of a list of headings, in order. The item of a heading that
/// has subheadings is followed by the nested list of those.
pub open spec fn items_markup(nodes: Seq<Node>) -> Seq<char>
    decreases nodes,
{
    if nodes.len() == 0 {
        Seq::empty()
    } else {
        let node = nodes.last();
        items_markup(nodes.drop_last()) + item_markup(node.title) + if node.children.len() > 0 {
            "<ol>"@ + items_markup(node.children) + "</ol>"@
        } else {
            Seq::empty()
        }
    }
}

/// The ordered list of the subheadings of a heading.
pub open spec fn sublist_markup(node: Node) -> Seq<char> {
    "<ol>"@ + items_markup(node.children) + "</ol>"@
}

/// The navigation block of an outline.
pub open spec fn nav_markup(outline: Seq<Node>) -> Seq<char> {
    "<nav class=\"toc\"><strong>Outline</strong><ol>"@ + items_markup(outline)
        + "</ol><details><summary style=\"font-size: 10pt\">Metadata</summary><code style=\"font-size: 7pt\">compiled on 2/12/14</code></details></nav>"@
}

fn push_items(out: &mut String, headings: &Vec<Heading>)
    ensures
        final(out)@ == old(out)@ + items_markup(forest(headings@)),
    decreases headings,
{
    let mut i: usize = 0;
    while i < headings.len()
        invariant
            i <= headings.len(),
            out@ == old(out)@ + items_markup(forest(headings@).take(i as int)),
        decreases headings.len() - i,
    {
        let ghost nodes = forest(headings@);
        let ghost start = out@;
        let heading = &headings[i];
        proof {
            lemma_view_children(*heading);
            assert(nodes.take(i + 1).drop_last() =~= nodes.take(i as int));
        }
        out.append("<li><a href=\"#");
        let id = id_ify(heading.name.clone());
        push_escaped(out, id.as_str());
        out.append("\">");
        push_escaped(out, heading.name.as_str());
        out.append("</a></li>");
        assert(out@ =~= start + item_markup(heading@.title));
        if heading.subheadings.len() > 0 {
            out.append("<ol>");
            push_items(out, &heading.subheadings);
            out.append("</ol>");
        }
        i += 1;
    }
    assert(forest(headings@).take(i as int) =~= forest(headings@));
}

/// Renders the subheadings of a heading as an ordered list: one item per
/// subheading, in document order, each followed by the list of its own
/// subheadings where it has any.
pub fn sublist(heading: &Heading) -> (markup: String)
    ensures
        markup@ == sublist_markup(heading@),
{
    let mut out = String::new();
    out.append("<ol>");
    push_items(&mut out, &heading.subheadings);
    out.append("</ol>");
    proof {
        lemma_view_children(*heading);
    }
    out
}

/// Renders the navigation block of an outline: the label, the ordered list
/// of the top-level headings with their nested lists, and the closing
/// metadata disclosure.
pub fn render(outline: &Vec<Heading>) -> (markup: String)
    ensures
        markup@ == nav_markup(forest(outline@)),
{
    let mut out = String::new();
    out.append("<nav class=\"toc\"><strong>Outline</strong><ol>");
    push_items(&mut out, outline);
    out.append(
        "</ol><details><summary style=\"font-size: 10pt\">Metadata</summary><code style=\"font-size: 7pt\">compiled on 2/12/14</code></details></nav>",
    );
    out
}

} // verus!

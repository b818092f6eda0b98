use org_outline::markup::escape;
use org_outline::nav::{render, sublist};
use org_outline::outline::{build, FlatHeading, Heading};

fn node(name: &str, subheadings: Vec<Heading>) -> Heading {
    Heading { name: String::from(name), subheadings }
}

const NAV_OPEN: &str = "<nav class=\"toc\"><strong>Outline</strong><ol>";
const NAV_CLOSE: &str = "</ol><details><summary style=\"font-size: 10pt\">Metadata</summary><code style=\"font-size: 7pt\">compiled on 2/12/14</code></details></nav>";

#[test]
fn escape_replaces_the_four_special_characters() {
    assert_eq!(escape("a & b < c > d \" e ' f"), "a &amp; b &lt; c &gt; d &quot; e ' f");
    assert_eq!(escape("<script>launchMissiles()</script>"), "&lt;script&gt;launchMissiles()&lt;/script&gt;");
    assert_eq!(escape(""), "");
    assert_eq!(escape("°C é"), "°C é");
}

#[test]
fn render_of_an_empty_outline() {
    assert_eq!(render(&Vec::new()), format!("{}{}", NAV_OPEN, NAV_CLOSE));
}

#[test]
fn render_two_roots_one_nested_list() {
    let outline = build(&vec![
        FlatHeading { level: 1, title: String::from("A") },
        FlatHeading { level: 2, title: String::from("A.1") },
        FlatHeading { level: 2, title: String::from("A.2") },
        FlatHeading { level: 1, title: String::from("B") },
    ]);
    let markup = render(&outline);
    assert_eq!(
        markup,
        format!(
            "{}{}{}{}{}",
            NAV_OPEN,
            "<li><a href=\"#a\">A</a></li>",
            "<ol><li><a href=\"#a1\">A.1</a></li><li><a href=\"#a2\">A.2</a></li></ol>",
            "<li><a href=\"#b\">B</a></li>",
            NAV_CLOSE
        )
    );
    // the outer list and exactly one nested list
    assert_eq!(markup.matches("<ol>").count(), 2);
    assert_eq!(markup.matches("</ol>").count(), 2);
    assert_eq!(markup.matches("<li>").count(), 4);
}

#[test]
fn render_nests_as_deep_as_the_outline() {
    let outline = vec![node("One", vec![node("Two", vec![node("Three", vec![])])])];
    assert_eq!(
        render(&outline),
        format!(
            "{}{}{}",
            NAV_OPEN,
            "<li><a href=\"#one\">One</a></li><ol><li><a href=\"#two\">Two</a></li><ol><li><a href=\"#three\">Three</a></li></ol></ol>",
            NAV_CLOSE
        )
    );
}

#[test]
fn render_escapes_titles_and_links_to_their_slugs() {
    let outline = vec![node("R&D <1> \"x\"", vec![])];
    assert_eq!(
        render(&outline),
        format!("{}{}{}", NAV_OPEN, "<li><a href=\"#rd-1-x\">R&amp;D &lt;1&gt; &quot;x&quot;</a></li>", NAV_CLOSE)
    );
}

#[test]
fn render_does_not_tell_colliding_anchors_apart() {
    let outline = vec![node("Heat Flow", vec![]), node("heat flow!", vec![])];
    assert_eq!(
        render(&outline),
        format!(
            "{}{}{}",
            NAV_OPEN, "<li><a href=\"#heat-flow\">Heat Flow</a></li><li><a href=\"#heat-flow\">heat flow!</a></li>", NAV_CLOSE
        )
    );
}

#[test]
fn sublist_of_a_leaf_is_an_empty_list() {
    assert_eq!(sublist(&node("Leaf", vec![])), "<ol></ol>");
}

#[test]
fn sublist_lists_children_in_order() {
    let heading = node("Top", vec![node("First", vec![node("Inner", vec![])]), node("Second", vec![])]);
    assert_eq!(
        sublist(&heading),
        "<ol><li><a href=\"#first\">First</a></li><ol><li><a href=\"#inner\">Inner</a></li></ol><li><a href=\"#second\">Second</a></li></ol>"
    );
}

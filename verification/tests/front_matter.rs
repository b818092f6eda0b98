use org_outline::front_matter::{fragment, front_matter, Keyword};

fn keyword(key: &str, value: &str) -> Keyword {
    Keyword { key: String::from(key), value: String::from(value) }
}

const TITLE: &str = "<div id=\"title-div\"><title>T</title><h1 class=\"title\">T</h1><hr id=\"title-hr\"></div>";

#[test]
fn front_matter_of_no_keywords_is_the_empty_container() {
    assert_eq!(front_matter(&Vec::new()), "<div id='header'></div>");
}

#[test]
fn front_matter_title() {
    assert_eq!(front_matter(&vec![keyword("TITLE", "T")]), format!("<div id='header'>{}</div>", TITLE));
}

#[test]
fn front_matter_keys_are_case_normalised() {
    assert_eq!(front_matter(&vec![keyword("title", "T")]), format!("<div id='header'>{}</div>", TITLE));
    assert_eq!(front_matter(&vec![keyword("Title", "T")]), format!("<div id='header'>{}</div>", TITLE));
}

#[test]
fn front_matter_keywords_one_chip_per_token() {
    assert_eq!(
        front_matter(&vec![keyword("keywords", "heat flow crust")]),
        "<div id='header'><div id=\"keywords\" hidden><p><i class=\"fas fa-tags\"></i> <code>heat</code> <code>flow</code> <code>crust</code> </p></div></div>"
    );
}

#[test]
fn front_matter_reference() {
    assert_eq!(
        front_matter(&vec![keyword("REF", "Turcotte & Schubert")]),
        "<div id='header'><p><i class=\"fas fa-book\"></i> <span style=\"font-size 5pt; color: gray; font-style: italic\">Turcotte &amp; Schubert</span></p></div>"
    );
}

#[test]
fn front_matter_ignores_unrecognised_keys() {
    assert_eq!(
        front_matter(&vec![keyword("AUTHOR", "someone"), keyword("OPTIONS", "toc:nil"), keyword("", "")]),
        "<div id='header'></div>"
    );
    assert_eq!(
        front_matter(&vec![keyword("AUTHOR", "someone"), keyword("TITLE", "T"), keyword("DATE", "today")]),
        format!("<div id='header'>{}</div>", TITLE)
    );
}

#[test]
fn front_matter_follows_the_order_of_the_keywords() {
    let reference = "<p><i class=\"fas fa-book\"></i> <span style=\"font-size 5pt; color: gray; font-style: italic\">R</span></p>";
    assert_eq!(
        front_matter(&vec![keyword("ref", "R"), keyword("title", "T"), keyword("ref", "R")]),
        format!("<div id='header'>{}{}{}</div>", reference, TITLE, reference)
    );
}

#[test]
fn fragment_escapes_the_value() {
    assert_eq!(
        fragment("TITLE", "a < b"),
        "<div id=\"title-div\"><title>a &lt; b</title><h1 class=\"title\">a &lt; b</h1><hr id=\"title-hr\"></div>"
    );
}

#[test]
fn fragment_takes_the_key_in_upper_case_only() {
    assert_eq!(fragment("title", "T"), "");
    assert_eq!(fragment("TITLES", "T"), "");
    assert_eq!(fragment("TITL", "T"), "");
    assert_eq!(fragment("", "T"), "");
    assert_eq!(fragment("TITLE", "T"), TITLE);
}

#[test]
fn fragment_keywords_splits_at_every_space() {
    let open = "<div id=\"keywords\" hidden><p><i class=\"fas fa-tags\"></i> ";
    let close = "</p></div>";
    assert_eq!(fragment("KEYWORDS", "a  b"), format!("{}<code>a</code> <code></code> <code>b</code> {}", open, close));
    assert_eq!(fragment("KEYWORDS", ""), format!("{}<code></code> {}", open, close));
    assert_eq!(fragment("KEYWORDS", " x "), format!("{}<code></code> <code>x</code> <code></code> {}", open, close));
    assert_eq!(fragment("KEYWORDS", "a&b\tc"), format!("{}<code>a&amp;b\tc</code> {}", open, close));
}

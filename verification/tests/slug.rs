use org_outline::slug::{anchor_of_lowercase, anchor_step, id_ify};

#[test]
fn slug_of_plain_title() {
    assert_eq!(id_ify(String::from("Results And Discussion")), "results-and-discussion");
}

#[test]
fn slug_drops_punctuation_and_symbols() {
    assert_eq!(id_ify(String::from("3.2 Heat Flow (°C)")), "32-heat-flow-c");
}

#[test]
fn slug_of_punctuation_only_is_empty() {
    assert_eq!(id_ify(String::from("?!...")), "");
    assert_eq!(id_ify(String::new()), "");
}

#[test]
fn slug_is_deterministic() {
    let a = id_ify(String::from("Heat Flow"));
    let b = id_ify(String::from("Heat Flow"));
    assert_eq!(a, b);
}

#[test]
fn slug_collides_for_titles_that_normalise_alike() {
    assert_eq!(id_ify(String::from("Heat-Flow!")), id_ify(String::from("heatflow")));
}

#[test]
fn slug_keeps_every_space_as_a_hyphen() {
    assert_eq!(id_ify(String::from(" a  b ")), "-a--b-");
}

#[test]
fn slug_keeps_non_ascii_letters_and_digits() {
    assert_eq!(id_ify(String::from("Élan Ⅷ ٣")), "élan-ⅷ-٣");
}

#[test]
fn slug_need_not_start_with_a_letter() {
    assert_eq!(id_ify(String::from("2nd pass")), "2nd-pass");
}

#[test]
fn anchor_step_cases() {
    assert_eq!(anchor_step(' ', false), Some('-'));
    assert_eq!(anchor_step(' ', true), Some('-'));
    assert_eq!(anchor_step('a', true), Some('a'));
    assert_eq!(anchor_step('-', false), None);
}

#[test]
fn slug_of_a_slug_may_differ() {
    let once = id_ify(String::from("a b"));
    assert_eq!(once, "a-b");
    assert_eq!(id_ify(once), "ab");
}

#[test]
fn anchor_of_lowercase_does_not_change_case() {
    assert_eq!(anchor_of_lowercase("heat flow (c)"), "heat-flow-c");
    assert_eq!(anchor_of_lowercase("Heat Flow"), "Heat-Flow");
    assert_eq!(anchor_of_lowercase(""), "");
}

//! Anchor identifiers derived from heading titles.

use vstd::prelude::*;
use vstd::std_specs::iter::IteratorSpec;
use crate::text::{alphanumeric, lowercase};

verus! {

/// What one character of the lowercased title contributes to the anchor:
/// a space becomes a hyphen, an alphanumeric character stays, anything
/// else is dropped.
pub open spec fn anchor_char(c: char, is_alphanumeric: bool) -> Option<char> {
    if c == ' ' {
        Some('-')
    } else if is_alphanumeric {
        Some(c)
    } else {
        None
    }
}

/// Whether a character of the lowercased title survives into the anchor.
pub open spec fn kept(c: char) -> bool {
    alphanumeric(c) || c == ' '
}

/// A space turned into a hyphen; any other character unchanged.
pub open spec fn hyphenated(c: char) -> char {
    if c == ' ' {
        '-'
    } else {
        c
    }
}

/// The anchor of an already lowercased title: only alphanumeric characters
/// and spaces are kept, then every space is replaced by a hyphen.
pub open spec fn anchor_of_lowered(s: Seq<char>) -> Seq<char> {
    s.filter(|c: char| kept(c)).map_values(|c: char| hyphenated(c))
}

/// The anchor identifier of a title.
pub open spec fn anchor(title: Seq<char>) -> Seq<char> {
    anchor_of_lowered(lowercase(title))
}

/// Decides the fate of one character of a lowercased title, given whether
/// it is alphanumeric.
pub fn anchor_step(c: char, is_alphanumeric: bool) -> (r: Option<char>)
    ensures
        r == anchor_char(c, is_alphanumeric),
{
    if c == ' ' {
        Some('-')
    } else if is_alphanumeric {
        Some(c)
    } else {
        None
    }
}

proof fn lemma_anchor_push(s: Seq<char>, c: char)
    ensures
        anchor_of_lowered(s.push(c)) == match anchor_char(c, alphanumeric(c)) {
            Some(d) => anchor_of_lowered(s).push(d),
            None => anchor_of_lowered(s),
        },
{
    let keep = |c: char| kept(c);
    assert(s.push(c) =~= s + seq![c]);
    Seq::filter_distributes_over_add(s, seq![c], keep);
    reveal_with_fuel(Seq::filter, 2);
}

/// The anchor is a function of the title: equal titles have equal anchors.
pub proof fn lemma_anchor_deterministic(a: Seq<char>, b: Seq<char>)
    requires
        a == b,
    ensures
        anchor(a) == anchor(b),
{
}

/// An anchor holds nothing but hyphens and alphanumeric characters.
pub proof fn lemma_anchor_alphabet(title: Seq<char>)
    ensures
        forall|i: int|
            0 <= i < anchor(title).len() ==> {
                let c = #[trigger] anchor(title)[i];
                c == '-' || alphanumeric(c)
            },
{
    let keep = |c: char| kept(c);
    assert forall|i: int| 0 <= i < anchor(title).len() implies {
        let c = #[trigger] anchor(title)[i];
        c == '-' || alphanumeric(c)
    } by {
        lowercase(title).lemma_filter_pred(keep, i);
    }
}

/// The anchor of a title that is already in lower case.
pub fn anchor_of_lowercase(lowered: &str) -> (id: String)
    ensures
        id@ == anchor_of_lowered(lowered@),
{
    let mut id = String::new();
    let mut chars = lowered.chars();
    let ghost mut done: Seq<char> = Seq::empty();
    assert(anchor_of_lowered(done) =~= Seq::<char>::empty()) by {
        reveal_with_fuel(Seq::filter, 1);
    }
    loop
        invariant
            chars.obeys_prophetic_iter_laws(),
            done + chars.remaining() == lowered@,
            id@ == anchor_of_lowered(done),
            chars.decrease() is Some,
        decreases chars.decrease()->0,
    {
        match chars.next() {
            Some(c) => {
                proof {
                    lemma_anchor_push(done, c);
                    done = done.push(c);
                }
                match anchor_step(c, c.is_alphanumeric()) {
                    Some(d) => id.push(d),
                    None => {},
                }
            },
            None => {
                return id;
            },
        }
    }
}

/// Turns a title into a URL- and anchor-safe identifier: the title is
/// lowercased, everything but alphanumeric characters and spaces is
/// discarded, and every space becomes a hyphen. The result may be empty,
/// and two titles may share it.
pub fn id_ify(name: String) -> (id: String)
    ensures
        id@ == anchor(name@),
{
    let lowered = name.as_str().to_lowercase();
    anchor_of_lowercase(lowered.as_str())
}

} // verus!

//! The outer layer of the render chain: it answers the start of the
//! document, of a heading title and of a section itself, and hands every
//! other event on to the handlers below it.

use vstd::prelude::*;
use vstd::string::StringExecFns;
use crate::nav::{nav_markup, render};
use crate::outline::{forest, Heading, Node};
use crate::slug::{anchor, id_ify};

verus! {

/// The kind of a document element, as far as the dispatcher tells kinds
/// apart.
#[derive(Debug, PartialEq, Eq)]
pub enum ElementKind {
    /// The document itself, the first element of every stream.
    Document,
    /// The title of a heading, with its nominal level and its raw text.
    Title { level: usize, raw: String },
    /// The wrapper around the body that belongs to a heading.
    Section,
    /// Any other element: paragraphs, lists, emphasis, tables, code blocks
    /// and the rest.
    Other,
}

/// One notification of the element stream.
#[derive(Debug, PartialEq, Eq)]
pub enum Event {
    Start(ElementKind),
    End(ElementKind),
}

/// What the dispatcher does with an event.
#[derive(Debug, PartialEq, Eq)]
pub enum Action {
    /// Write this markup to the output; the handlers below do not see the
    /// event.
    Emit(String),
    /// Write nothing; the handlers below do not see the event.
    Consume,
    /// Hand the event, as it is, to the handlers below.
    Forward,
}

/// The mathematical model of an [`ElementKind`].
pub enum Kind {
    Document,
    Title { level: nat, raw: Seq<char> },
    Section,
    Other,
}

/// The mathematical model of an [`Event`].
pub enum Notice {
    Start(Kind),
    End(Kind),
}

/// The mathematical model of an [`Action`].
pub enum Outcome {
    Emit(Seq<char>),
    Consume,
    Forward,
}

impl View for ElementKind {
    type V = Kind;

    open spec fn view(&self) -> Kind {
        match *self {
            ElementKind::Document => Kind::Document,
            ElementKind::Title { level, raw } => Kind::Title { level: level as nat, raw: raw@ },
            ElementKind::Section => Kind::Section,
            ElementKind::Other => Kind::Other,
        }
    }
}

impl View for Event {
    type V = Notice;

    open spec fn view(&self) -> Notice {
        match *self {
            Event::Start(element) => Notice::Start(element@),
            Event::End(element) => Notice::End(element@),
        }
    }
}

impl View for Action {
    type V = Outcome;

    open spec fn view(&self) -> Outcome {
        match *self {
            Action::Emit(markup) => Outcome::Emit(markup@),
            Action::Consume => Outcome::Consume,
            Action::Forward => Outcome::Forward,
        }
    }
}

/// The level of the heading tag for a title of the given nominal level:
/// the level itself, but 6 at most.
pub open spec fn tag_level(level: nat) -> nat {
    if level <= 6 {
        level
    } else {
        6
    }
}

/// The decimal digit for a number below ten.
pub open spec fn digit(n: nat) -> char
    recommends
        n < 10,
{
    ('0' as nat + n) as char
}

/// What opens the section of a heading: the section container, with the
/// anchor of the title as its id, and the opening heading tag.
pub open spec fn title_markup(level: nat, raw: Seq<char>) -> Seq<char> {
    "<section id='"@ + anchor(raw) + "'>"@ + "<h"@ + seq![digit(tag_level(level))] + ">"@
}

/// The dispatcher's answer to the start of an element.
pub open spec fn start_outcome(outline: Seq<Node>, element: Kind) -> Outcome {
    match element {
        Kind::Document => Outcome::Emit(nav_markup(outline)),
        Kind::Title { level, raw } => Outcome::Emit(title_markup(level, raw)),
        Kind::Section => Outcome::Consume,
        Kind::Other => Outcome::Forward,
    }
}

/// The dispatcher's answer to the end of an element.
pub open spec fn end_outcome(element: Kind) -> Outcome {
    Outcome::Forward
}

/// The dispatcher's answer to an event.
pub open spec fn outcome(outline: Seq<Node>, event: Notice) -> Outcome {
    match event {
        Notice::Start(element) => start_outcome(outline, element),
        Notice::End(element) => end_outcome(element),
    }
}

/// The element that an event is about.
pub open spec fn subject(event: Notice) -> Kind {
    match event {
        Notice::Start(element) => element,
        Notice::End(element) => element,
    }
}

/// The events of a stream that the dispatcher hands to the handlers below,
/// in the order of the stream.
pub open spec fn forwarded(outline: Seq<Node>, events: Seq<Notice>) -> Seq<Notice> {
    events.filter(|event: Notice| outcome(outline, event) is Forward)
}

/// The events of a stream that are about elements of the kinds that the
/// dispatcher does not answer itself.
pub open spec fn of_other_kinds(events: Seq<Notice>) -> Seq<Notice> {
    events.filter(|event: Notice| subject(event) is Other)
}

/// The end events of a stream.
pub open spec fn ends(events: Seq<Notice>) -> Seq<Notice> {
    events.filter(|event: Notice| event is End)
}

proof fn lemma_filter_within<A>(s: Seq<A>, wide: spec_fn(A) -> bool, narrow: spec_fn(A) -> bool)
    requires
        forall|a: A| #[trigger] narrow(a) ==> wide(a),
    ensures
        s.filter(wide).filter(narrow) == s.filter(narrow),
    decreases s.len(),
{
    reveal_with_fuel(Seq::filter, 2);
    if s.len() > 0 {
        let rest = s.drop_last();
        lemma_filter_within(rest, wide, narrow);
        if wide(s.last()) {
            assert(rest.filter(wide).push(s.last()).drop_last() =~= rest.filter(wide));
        }
    }
}

/// Both the start and the end of every element of a kind that the
/// dispatcher does not answer itself are forwarded: among the events that
/// reach the handlers below, those about such elements are the same, in
/// number and in order, as in the stream that came in.
pub proof fn lemma_other_kinds_pass_through(outline: Seq<Node>, events: Seq<Notice>)
    ensures
        of_other_kinds(forwarded(outline, events)) == of_other_kinds(events),
        of_other_kinds(forwarded(outline, events)).len() == of_other_kinds(events).len(),
{
    lemma_filter_within(
        events,
        |event: Notice| outcome(outline, event) is Forward,
        |event: Notice| subject(event) is Other,
    );
}

/// The end of every element, of whatever kind, is forwarded.
pub proof fn lemma_ends_pass_through(outline: Seq<Node>, events: Seq<Notice>)
    ensures
        ends(forwarded(outline, events)) == ends(events),
{
    lemma_filter_within(
        events,
        |event: Notice| outcome(outline, event) is Forward,
        |event: Notice| event is End,
    );
}

/// The level of the heading tag for a title of the given nominal level.
pub fn heading_level(level: usize) -> (tag: usize)
    ensures
        tag == tag_level(level as nat),
{
    if level <= 6 {
        level
    } else {
        6
    }
}

fn digit_char(n: usize) -> (c: char)
    requires
        n <= 6,
    ensures
        c == digit(n as nat),
{
    if n == 0 {
        '0'
    } else if n == 1 {
        '1'
    } else if n == 2 {
        '2'
    } else if n == 3 {
        '3'
    } else if n == 4 {
        '4'
    } else if n == 5 {
        '5'
    } else {
        '6'
    }
}

/// The outer handler of the render chain. It holds the outline for the
/// length of the render pass and only reads it.
#[derive(Debug, PartialEq, Eq)]
pub struct Dispatcher {
    pub outline: Vec<Heading>,
}

impl Dispatcher {
    /// A dispatcher for a document with the given outline.
    pub fn new(outline: Vec<Heading>) -> (dispatcher: Dispatcher)
        ensures
            dispatcher.outline == outline,
    {
        Dispatcher { outline }
    }

    /// The start of an element. The document yields the navigation block,
    /// a heading title the opening of its section and its heading tag, a
    /// section nothing; every other element is forwarded.
    pub fn start(&self, element: &ElementKind) -> (action: Action)
        ensures
            action@ == start_outcome(forest(self.outline@), element@),
    {
        match element {
            ElementKind::Document => Action::Emit(render(&self.outline)),
            ElementKind::Title { level, raw } => {
                let mut markup = String::new();
                markup.append("<section id='");
                let id = id_ify(raw.clone());
                markup.append(id.as_str());
                markup.append("'>");
                markup.append("<h");
                markup.push(digit_char(heading_level(*level)));
                markup.append(">");
                assert(markup@ =~= title_markup(*level as nat, raw@));
                Action::Emit(markup)
            },
            ElementKind::Section => Action::Consume,
            ElementKind::Other => Action::Forward,
        }
    }

    /// The end of an element: always forwarded.
    pub fn end(&self, element: &ElementKind) -> (action: Action)
        ensures
            action@ == end_outcome(element@),
    {
        Action::Forward
    }

    /// One event of the stream, answered by [`Dispatcher::start`] or
    /// [`Dispatcher::end`].
    pub fn handle(&self, event: &Event) -> (action: Action)
        ensures
            action@ == outcome(forest(self.outline@), event@),
    {
        match event {
            Event::Start(element) => self.start(element),
            Event::End(element) => self.end(element),
        }
    }
}

} // verus!

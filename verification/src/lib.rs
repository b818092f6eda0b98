//! Outline reconstruction and navigable HTML rendering for Org documents.
//!
//! The headings of a document come as a flat list of levels and titles.
//! [`outline`] rebuilds the tree that the levels imply, [`placement`] says
//! where each heading ends up, [`slug`] derives the anchor of a title,
//! [`nav`] renders the tree as a navigation block, [`dispatch`] decides what
//! the outer layer of the render chain does with each element event, and
//! [`front_matter`] renders the metadata keywords. [`document`] puts the
//! top of the page together.

pub mod text;
pub mod slug;
pub mod outline;
pub mod placement;
pub mod markup;
pub mod nav;
pub mod dispatch;
pub mod front_matter;
pub mod document;

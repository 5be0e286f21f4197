//! A compiler for a declarative, component-based e-mail markup language.
//!
//! The library turns a component tree (hero, text, raw passthrough nodes under
//! a body) into a single HTML string whose layout survives legacy mail
//! clients: every container is rendered twice, once as modern flow markup and
//! once as a table-based fallback guarded by conditional comments.
//!
//! Rendering happens in three passes over the tree: a top-down context
//! assignment that computes each node's available width and sibling topology,
//! a bottom-up header collection, and a top-down render pass.

pub mod accordion;
pub mod attributes;
pub mod body;
pub mod context;
pub mod header;
pub mod laws;
pub mod element;
pub mod size;
pub mod source;
pub mod style;
pub mod tag;

pub use accordion::MJAccordionTitle;
pub use attributes::{Attributes, DocumentDefaults};
pub use body::MJBody;
pub use context::{distribute_widths, Context, DeclaredWidth};
pub use header::Header;
pub use element::{BodyElement, Error, MJHero, MJText, RawElement};
pub use size::Size;
pub use source::SourceNode;
pub use style::Style;
pub use tag::Tag;

//! The title bar of an accordion section.
//!
//! The title starts life with its resolved attributes and empty content;
//! content and context are attached by later passes.

use vstd::prelude::*;

use crate::attributes::Attributes;
use crate::context::Context;

verus! {

/// An accordion section's clickable title bar.
#[derive(Debug)]
pub struct MJAccordionTitle {
    pub attributes: Attributes,
    pub context: Option<Context>,
    pub content: String,
}

impl MJAccordionTitle {
    /// A title with the given attributes, no content and no context yet.
    pub fn new(attributes: Attributes) -> (r: MJAccordionTitle)
        ensures
            r.attributes == attributes,
            r.context is None,
            r.content@ == Seq::<char>::empty(),
    {
        let r = MJAccordionTitle { attributes, context: None, content: "".to_owned() };
        proof {
            reveal_strlit("");
            assert(r.content@ =~= Seq::<char>::empty());
        }
        r
    }
}

} // verus!

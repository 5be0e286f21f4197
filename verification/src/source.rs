//! The generic attributed tree the compiler consumes.
//!
//! Tokenizing markup text is a collaborator's job: whatever parser is used,
//! it hands the library one [`SourceNode`] per markup element — the tag
//! name, the source attributes in order, the children in order, and the
//! node's verbatim source text (used when an unknown tag is passed through
//! unchanged).

use vstd::prelude::*;

use crate::attributes::Attributes;

verus! {

/// One node of the parsed source tree.
#[derive(Debug)]
pub struct SourceNode {
    /// The element name, e.g. `mj-hero`; empty for a text node.
    pub tag: String,
    /// The source attributes, in document order.
    pub attributes: Attributes,
    /// The child nodes, in document order.
    pub children: Vec<SourceNode>,
    /// The node's verbatim source text, byte for byte.
    pub source: String,
}

impl SourceNode {
    /// A node with the given tag and verbatim source text and nothing else.
    pub fn new(tag: &str, source: &str) -> (r: SourceNode)
        ensures
            r.tag@ == tag@,
            r.source@ == source@,
            r.attributes@ == Seq::<(Seq<char>, Seq<char>)>::empty(),
            r.children@ == Seq::<SourceNode>::empty(),
    {
        let r = SourceNode {
            tag: tag.to_owned(),
            attributes: Attributes::new(),
            children: Vec::new(),
            source: source.to_owned(),
        };
        proof {
            assert(r.children@ =~= Seq::<SourceNode>::empty());
        }
        r
    }

    /// Appends one source attribute.
    pub fn add_attribute(&mut self, key: &str, value: &str)
        ensures
            final(self).attributes@ == old(self).attributes@.push((key@, value@)),
            final(self).tag == old(self).tag,
            final(self).children == old(self).children,
            final(self).source == old(self).source,
    {
        self.attributes.set(key, value);
    }

    /// Appends one child node.
    pub fn add_child(&mut self, child: SourceNode)
        ensures
            final(self).children@ == old(self).children@.push(child),
            final(self).tag == old(self).tag,
            final(self).attributes == old(self).attributes,
            final(self).source == old(self).source,
    {
        self.children.push(child);
    }
}

} // verus!

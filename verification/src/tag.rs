//! A builder for one HTML element: name, attributes, inline styles, and the
//! four ways it renders (open, close, self-closed, wrapped around content).
//!
//! The `style` attribute is emitted last and only when at least one
//! declaration was set, so an empty style never produces `style=""`.

use vstd::prelude::*;

use crate::attributes::{spec_attrs_str, Attributes};
use crate::style::{spec_style_str, Style};

verus! {

/// One HTML element under construction.
#[derive(Debug)]
pub struct Tag {
    pub name: String,
    pub attributes: Attributes,
    pub styles: Style,
}

/// The serialized attribute block of a tag: the ordinary attributes in
/// insertion order, then ` style="..."` when any declaration was set.
pub open spec fn spec_tag_attrs(
    attrs: Seq<(Seq<char>, Seq<char>)>,
    styles: Seq<(Seq<char>, Seq<char>)>,
) -> Seq<char> {
    spec_attrs_str(attrs) + (if styles.len() == 0 {
        Seq::<char>::empty()
    } else {
        " style=\""@ + spec_style_str(styles) + "\""@
    })
}

/// The opening markup of an element with these parts: `<name ...>`.
pub open spec fn spec_open_str(
    name: Seq<char>,
    attrs: Seq<(Seq<char>, Seq<char>)>,
    styles: Seq<(Seq<char>, Seq<char>)>,
) -> Seq<char> {
    "<"@ + name + spec_tag_attrs(attrs, styles) + ">"@
}

/// The closing markup of an element: `</name>`.
pub open spec fn spec_close_str(name: Seq<char>) -> Seq<char> {
    "</"@ + name + ">"@
}

/// The self-closed markup of an element: `<name ... />`.
pub open spec fn spec_closed_str(
    name: Seq<char>,
    attrs: Seq<(Seq<char>, Seq<char>)>,
    styles: Seq<(Seq<char>, Seq<char>)>,
) -> Seq<char> {
    "<"@ + name + spec_tag_attrs(attrs, styles) + " />"@
}

/// An element wrapped around content: `<name ...>content</name>`.
pub open spec fn spec_wrap_str(
    name: Seq<char>,
    attrs: Seq<(Seq<char>, Seq<char>)>,
    styles: Seq<(Seq<char>, Seq<char>)>,
    content: Seq<char>,
) -> Seq<char> {
    spec_open_str(name, attrs, styles) + content + spec_close_str(name)
}

/// `<name ...>`
pub open spec fn spec_tag_open(t: Tag) -> Seq<char> {
    spec_open_str(t.name@, t.attributes@, t.styles@)
}

/// `</name>`
pub open spec fn spec_tag_close(t: Tag) -> Seq<char> {
    spec_close_str(t.name@)
}

/// `<name ... />`
pub open spec fn spec_tag_closed(t: Tag) -> Seq<char> {
    spec_closed_str(t.name@, t.attributes@, t.styles@)
}

/// `<name ...>content</name>`
pub open spec fn spec_tag_render(t: Tag, content: Seq<char>) -> Seq<char> {
    spec_tag_open(t) + content + spec_tag_close(t)
}

impl Tag {
    /// A tag with the given element name and nothing set.
    pub fn new(name: &str) -> (r: Tag)
        ensures
            r.name@ == name@,
            r.attributes@ == Seq::<(Seq<char>, Seq<char>)>::empty(),
            r.styles@ == Seq::<(Seq<char>, Seq<char>)>::empty(),
    {
        Tag { name: name.to_owned(), attributes: Attributes::new(), styles: Style::new() }
    }

    pub fn div() -> (r: Tag)
        ensures
            r.name@ == "div"@,
            r.attributes@ == Seq::<(Seq<char>, Seq<char>)>::empty(),
            r.styles@ == Seq::<(Seq<char>, Seq<char>)>::empty(),
    {
        Tag::new("div")
    }

    pub fn table() -> (r: Tag)
        ensures
            r.name@ == "table"@,
            r.attributes@ == Seq::<(Seq<char>, Seq<char>)>::empty(),
            r.styles@ == Seq::<(Seq<char>, Seq<char>)>::empty(),
    {
        Tag::new("table")
    }

    pub fn tr() -> (r: Tag)
        ensures
            r.name@ == "tr"@,
            r.attributes@ == Seq::<(Seq<char>, Seq<char>)>::empty(),
            r.styles@ == Seq::<(Seq<char>, Seq<char>)>::empty(),
    {
        Tag::new("tr")
    }

    pub fn td() -> (r: Tag)
        ensures
            r.name@ == "td"@,
            r.attributes@ == Seq::<(Seq<char>, Seq<char>)>::empty(),
            r.styles@ == Seq::<(Seq<char>, Seq<char>)>::empty(),
    {
        Tag::new("td")
    }

    /// Appends one attribute.
    pub fn set_attribute(self, key: &str, value: &str) -> (r: Tag)
        ensures
            r.name@ == self.name@,
            r.attributes@ == self.attributes@.push((key@, value@)),
            r.styles@ == self.styles@,
    {
        let mut t = self;
        t.attributes.set(key, value);
        t
    }

    /// Appends one attribute when a value is present.
    pub fn maybe_set_attribute(self, key: &str, value: Option<String>) -> (r: Tag)
        ensures
            r.name@ == self.name@,
            r.attributes@ == (match value {
                Some(v) => self.attributes@.push((key@, v@)),
                None => self.attributes@,
            }),
            r.styles@ == self.styles@,
    {
        let mut t = self;
        t.attributes.maybe_set(key, value);
        t
    }

    /// Appends a `class` attribute.
    pub fn set_class(self, value: &str) -> (r: Tag)
        ensures
            r.name@ == self.name@,
            r.attributes@ == self.attributes@.push(("class"@, value@)),
            r.styles@ == self.styles@,
    {
        self.set_attribute("class", value)
    }

    /// Appends a `class` attribute when a value is present.
    pub fn maybe_set_class(self, value: Option<String>) -> (r: Tag)
        ensures
            r.name@ == self.name@,
            r.attributes@ == (match value {
                Some(v) => self.attributes@.push(("class"@, v@)),
                None => self.attributes@,
            }),
            r.styles@ == self.styles@,
    {
        self.maybe_set_attribute("class", value)
    }

    /// Appends one style declaration.
    pub fn set_style(self, key: &str, value: &str) -> (r: Tag)
        ensures
            r.name@ == self.name@,
            r.attributes@ == self.attributes@,
            r.styles@ == self.styles@.push((key@, value@)),
    {
        let mut t = self;
        t.styles.set(key, value);
        t
    }

    /// Appends one style declaration when a value is present.
    pub fn maybe_set_style(self, key: &str, value: Option<String>) -> (r: Tag)
        ensures
            r.name@ == self.name@,
            r.attributes@ == self.attributes@,
            r.styles@ == (match value {
                Some(v) => self.styles@.push((key@, v@)),
                None => self.styles@,
            }),
    {
        let mut t = self;
        t.styles.maybe_set(key, value);
        t
    }

    /// Appends every declaration of `other` to this tag's styles, in order.
    pub fn insert_style(self, other: &Style) -> (r: Tag)
        ensures
            r.name@ == self.name@,
            r.attributes@ == self.attributes@,
            r.styles@ == self.styles@ + other@,
    {
        let mut t = self;
        let n = other.pairs.len();
        let mut i: usize = 0;
        while i < n
            invariant
                i <= n,
                n == other.pairs.len(),
                t.name@ == self.name@,
                t.attributes@ == self.attributes@,
                t.styles@ == self.styles@ + other@.take(i as int),
            decreases n - i,
        {
            let k = other.pairs[i].0.clone();
            let v = other.pairs[i].1.clone();
            t.styles.set(k.as_str(), v.as_str());
            proof {
                assert(other@.take(i + 1) =~= other@.take(i as int).push(other@[i as int]));
                assert(t.styles@ =~= self.styles@ + other@.take(i + 1));
            }
            i += 1;
        }
        proof {
            assert(other@.take(n as int) =~= other@);
        }
        t
    }

    fn attrs_string(&self) -> (r: String)
        ensures
            r@ == spec_tag_attrs(self.attributes@, self.styles@),
    {
        let mut s = self.attributes.to_string();
        if !self.styles.is_empty() {
            s.append(" style=\"");
            let st = self.styles.to_string();
            s.append(st.as_str());
            s.append("\"");
        }
        s
    }

    /// Renders the opening markup `<name ...>`.
    pub fn open(&self) -> (r: String)
        ensures
            r@ == spec_tag_open(*self),
    {
        let mut s = String::new();
        s.append("<");
        s.append(self.name.as_str());
        let attrs = self.attrs_string();
        s.append(attrs.as_str());
        s.append(">");
        s
    }

    /// Renders the closing markup `</name>`.
    pub fn close(&self) -> (r: String)
        ensures
            r@ == spec_tag_close(*self),
    {
        let mut s = String::new();
        s.append("</");
        s.append(self.name.as_str());
        s.append(">");
        s
    }

    /// Renders the self-closed markup `<name ... />`.
    pub fn closed(&self) -> (r: String)
        ensures
            r@ == spec_tag_closed(*self),
    {
        let mut s = String::new();
        s.append("<");
        s.append(self.name.as_str());
        let attrs = self.attrs_string();
        s.append(attrs.as_str());
        s.append(" />");
        s
    }

    /// Renders the tag wrapped around already-rendered content.
    pub fn render(&self, content: String) -> (r: String)
        ensures
            r@ == spec_tag_render(*self, content@),
    {
        let mut s = self.open();
        s.append(content.as_str());
        let c = self.close();
        s.append(c.as_str());
        s
    }
}

/// Opening marker of a conditional-comment block: markup between this and
/// the end marker is seen only by the legacy rendering engine.
pub fn conditional_start() -> (r: &'static str)
    ensures
        r@ == "<!--[if mso | IE]>"@,
{
    "<!--[if mso | IE]>"
}

/// Closing marker of a conditional-comment block.
pub fn conditional_end() -> (r: &'static str)
    ensures
        r@ == "<![endif]-->"@,
{
    "<![endif]-->"
}

/// A tag with no style declaration emits no `style` attribute at all: its
/// attribute block is exactly that of its ordinary attributes.
pub proof fn lemma_no_empty_style_attribute(
    attrs: Seq<(Seq<char>, Seq<char>)>,
    styles: Seq<(Seq<char>, Seq<char>)>,
)
    requires
        styles.len() == 0,
    ensures
        spec_tag_attrs(attrs, styles) == spec_attrs_str(attrs),
{
    assert(spec_tag_attrs(attrs, styles) =~= spec_attrs_str(attrs));
}

} // verus!

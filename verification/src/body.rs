//! The document body: the tree root that the render pass starts from.
//!
//! `MJBody` owns the body's attributes and the top-level elements. Its
//! container width comes from its own `width` attribute (default `600px`)
//! and is what the context-assignment pass hands to every top-level child.

use vstd::prelude::*;

use crate::attributes::{spec_attrs_str, spec_lookup, spec_opt_view, str_eq, Attributes};
use crate::context::Context;
use crate::element::{
    assign_children, parse_children, render_elements_from, spec_assigned_children,
    spec_children_assigned, spec_children_wf, spec_parses_children, spec_push_maybe,
    spec_render_elements, BodyElement, Error,
};
use crate::header::Header;
use crate::size::{spec_parse_size, Size};
use crate::source::SourceNode;
use crate::style::{spec_style_str, Style};

verus! {

/// The document body element.
#[derive(Debug)]
pub struct MJBody {
    pub attributes: Attributes,
    pub context: Option<Context>,
    pub children: Vec<BodyElement>,
    /// Whether a body element was present in the source at all; an absent
    /// body still renders the `<body>` shell, but no inner `div`.
    pub exists: bool,
}

impl MJBody {
    /// A body standing in for a document with no body element.
    pub fn empty() -> (r: MJBody)
        ensures
            r.attributes@ == Seq::<(Seq<char>, Seq<char>)>::empty(),
            r.children@ == Seq::<BodyElement>::empty(),
            r.context is None,
            !r.exists,
    {
        let r = MJBody {
            attributes: Attributes::new(),
            context: None,
            children: Vec::new(),
            exists: false,
        };
        proof {
            assert(r.children@ =~= Seq::<BodyElement>::empty());
        }
        r
    }

    /// Builds a body from a source node: its attributes and its children,
    /// parsed in order, with no context assigned yet.
    pub fn parse(node: &SourceNode) -> (r: Result<MJBody, Error>)
        ensures
            r matches Ok(b) && b.attributes@ == node.attributes@ && b.context is None
                && b.exists && spec_parses_children(node.children, b.children, 0),
    {
        let children = parse_children(&node.children);
        Ok(MJBody {
            attributes: node.attributes.duplicate(),
            context: None,
            children,
            exists: true,
        })
    }

    /// The body's hardcoded attribute defaults.
    pub open spec fn spec_default(key: Seq<char>) -> Option<Seq<char>> {
        if key == "width"@ {
            Some("600px"@)
        } else {
            None
        }
    }

    /// The hardcoded default for one attribute key.
    pub fn default_attribute(&self, key: &str) -> (r: Option<String>)
        ensures
            spec_opt_view(r) == Self::spec_default(key@),
    {
        if str_eq(key, "width") {
            Some("600px".to_owned())
        } else {
            None
        }
    }

    /// What attribute resolution yields on the body.
    pub open spec fn spec_attr(b: MJBody, key: Seq<char>) -> Option<Seq<char>> {
        match spec_lookup(b.attributes@, key) {
            Some(v) => Some(v),
            None => Self::spec_default(key),
        }
    }

    /// Resolves one attribute: the explicit value wins over the default.
    pub fn get_attribute(&self, key: &str) -> (r: Option<String>)
        ensures
            spec_opt_view(r) == Self::spec_attr(*self, key@),
    {
        match self.attributes.get(key) {
            Some(v) => Some(v),
            None => self.default_attribute(key),
        }
    }

    /// The resolved attribute read as a size.
    pub open spec fn spec_size_attr(b: MJBody, key: Seq<char>) -> Option<Size> {
        match Self::spec_attr(b, key) {
            Some(v) => spec_parse_size(v),
            None => None,
        }
    }

    /// Resolves an attribute and parses it as a size.
    pub fn get_size_attribute(&self, key: &str) -> (r: Option<Size>)
        ensures
            r == Self::spec_size_attr(*self, key@),
            r matches Some(sz) ==> sz.wf(),
    {
        proof {
            crate::size::lemma_parse_size_bounded(
                match Self::spec_attr(*self, key@) {
                    Some(v) => v,
                    None => Seq::empty(),
                },
            );
        }
        match self.get_attribute(key) {
            Some(v) => Size::parse(v.as_str()),
            None => None,
        }
    }

    /// The one style the body computes, used for both the `body` tag and
    /// the inner `div`: its background color, when set.
    pub open spec fn spec_style_body_div(b: MJBody) -> Seq<(Seq<char>, Seq<char>)> {
        spec_push_maybe(Seq::empty(), "background-color"@, Self::spec_attr(
            b,
            "background-color"@,
        ))
    }

    /// The style for a role name: `body` and `div` share one style, and an
    /// unknown role is empty.
    pub open spec fn spec_style(b: MJBody, name: Seq<char>) -> Seq<(Seq<char>, Seq<char>)> {
        if name == "body"@ || name == "div"@ {
            Self::spec_style_body_div(b)
        } else {
            Seq::empty()
        }
    }

    /// Looks a style up by its role name.
    pub fn get_style(&self, name: &str) -> (r: Style)
        ensures
            r@ == Self::spec_style(*self, name@),
    {
        if str_eq(name, "body") || str_eq(name, "div") {
            let mut res = Style::new();
            res.maybe_set("background-color", self.get_attribute("background-color"));
            res
        } else {
            Style::new()
        }
    }

    /// The body's own source attributes.
    pub fn source_attributes(&self) -> (r: Option<&Attributes>)
        ensures
            r matches Some(a) && *a == self.attributes,
    {
        Some(&self.attributes)
    }

    /// The header facts the whole tree contributes; the body variants
    /// introduce none, so the collected header is empty.
    pub fn to_header(&self) -> (r: Header)
        ensures
            crate::header::spec_fonts(r) == Seq::<Seq<char>>::empty(),
            r.breakpoint is None,
            r.title is None,
        decreases *self, 15int, 0int,
    {
        let mut hd = Header::new();
        let n = self.children.len();
        let mut i: usize = 0;
        while i < n
            invariant
                i <= n,
                n == self.children.len(),
                crate::header::spec_fonts(hd) == Seq::<Seq<char>>::empty(),
                hd.breakpoint is None,
                hd.title is None,
            decreases n - i,
        {
            let ch = self.children[i].to_header();
            hd.merge(&ch);
            i += 1;
        }
        hd
    }

    /// The container width the body passes to its children: its own
    /// `width` attribute, read as a size.
    pub open spec fn spec_cw(b: MJBody) -> Option<Size> {
        Self::spec_size_attr(b, "width"@)
    }

    /// Assigns the body's own context and, from the body's `width`
    /// attribute, a fresh context for every top-level child.
    pub fn assign_context(self, ctx: Context) -> (r: MJBody)
        requires
            ctx.wf(),
        ensures
            r.attributes == self.attributes,
            r.exists == self.exists,
            r.context == Some(ctx),
            spec_assigned_children(self.children, r.children, Self::spec_cw(self), 0),
    {
        let cw = self.get_size_attribute("width");
        let ghost orig = self;
        let MJBody { attributes, context: _, children, exists } = self;
        let new_children = assign_children(children, cw, Ghost(orig.children));
        MJBody { attributes, context: Some(ctx), children: new_children, exists }
    }

    /// The `style` attribute list of the `body` tag: empty when the style
    /// has no declarations, so no stray `style=""` is emitted.
    pub open spec fn spec_body_attrs(b: MJBody) -> Seq<(Seq<char>, Seq<char>)> {
        if Self::spec_style_body_div(b).len() == 0 {
            Seq::empty()
        } else {
            Seq::empty().push(("style"@, spec_style_str(Self::spec_style_body_div(b))))
        }
    }

    /// The attribute list of the inner `div`: the `css-class`, then the
    /// style when it has declarations.
    pub open spec fn spec_div_attrs(b: MJBody) -> Seq<(Seq<char>, Seq<char>)> {
        let base = spec_push_maybe(Seq::empty(), "class"@, Self::spec_attr(b, "css-class"@));
        if Self::spec_style_body_div(b).len() == 0 {
            base
        } else {
            base.push(("style"@, spec_style_str(Self::spec_style_body_div(b))))
        }
    }

    /// What rendering the body yields: the `<body>` shell; inside it, when
    /// a body element exists in the source, a `div` wrapping the rendered
    /// children.
    pub open spec fn spec_render(b: MJBody) -> Seq<char> {
        "<body"@ + spec_attrs_str(Self::spec_body_attrs(b)) + ">"@ + (if b.exists {
            "<div"@ + spec_attrs_str(Self::spec_div_attrs(b)) + ">"@ + spec_render_elements(
                b.children,
                0,
            ) + "</div>"@
        } else {
            Seq::<char>::empty()
        }) + "</body>"@
    }

    /// Renders the document body. Fails exactly when the body itself, or,
    /// when it exists, some node below it, has no assigned context.
    pub fn render(&self, header: &Header) -> (r: Result<String, Error>)
        requires
            spec_children_wf(self.children, 0),
        ensures
            r is Ok <==> (self.context is Some && (self.exists
                ==> spec_children_assigned(self.children, 0))),
            r matches Ok(s) ==> s@ == Self::spec_render(*self),
            r matches Err(e) ==> e == Error::MissingContext,
    {
        if self.context.is_none() {
            return Err(Error::MissingContext);
        }
        let mut res = String::new();
        res.append("<body");
        let style = self.get_style("body");
        let mut battrs = Attributes::new();
        if !style.is_empty() {
            let st = style.to_string();
            battrs.set("style", st.as_str());
        }
        let a = battrs.to_string();
        res.append(a.as_str());
        res.append(">");
        if self.exists {
            let dstyle = self.get_style("div");
            let mut dattrs = Attributes::new();
            dattrs.maybe_set("class", self.get_attribute("css-class"));
            if !dstyle.is_empty() {
                let st = dstyle.to_string();
                dattrs.set("style", st.as_str());
            }
            res.append("<div");
            let a = dattrs.to_string();
            res.append(a.as_str());
            res.append(">");
            let children = match render_elements_from(&self.children, header, 0) {
                Ok(s) => s,
                Err(e) => {
                    return Err(e);
                }
            };
            res.append(children.as_str());
            res.append("</div>");
        }
        res.append("</body>");
        proof {
            assert(res@ =~= Self::spec_render(*self));
        }
        Ok(res)
    }
}

} // verus!

//! The component tree: one variant per markup tag, and the three passes
//! over it.
//!
//! A [`BodyElement`] owns its resolved attributes, an optional assigned
//! [`Context`], and, for containers, its children. The tree is built once
//! from a [`SourceNode`] tree, contexts are assigned in a single top-down
//! pass ([`BodyElement::assign_context`]), header facts are collected
//! bottom-up, and rendering is a final top-down pass. Rendering a node
//! whose context was never assigned is a caller error and is rejected with
//! [`Error::MissingContext`] rather than ignored.

use vstd::prelude::*;

use crate::attributes::{spec_lookup, spec_opt_view, str_eq, Attributes};
use crate::context::Context;
use crate::header::Header;
use crate::size::{
    spec_fixed_str, spec_parse_size, Size, MAX_PARSED_HUNDREDTHS,
};
use crate::source::SourceNode;
use crate::style::Style;
use crate::tag::{conditional_end, conditional_start, Tag};

verus! {

broadcast use vstd::std_specs::vec::group_vec_axioms;

/// Why rendering refused to produce output.
#[derive(Clone, Copy, Debug, PartialEq, Eq, Structural)]
pub enum Error {
    /// A node was rendered before the context-assignment pass reached it.
    MissingContext,
}

impl Error {
    /// A short description of the error.
    pub fn message(&self) -> (r: String)
        ensures
            r@ == "node rendered before its context was assigned"@,
    {
        "node rendered before its context was assigned".to_owned()
    }
}

/// An unmanaged passthrough node: an unrecognized tag, or bare text. It
/// re-emits its verbatim source text and takes no part in managed layout.
#[derive(Debug)]
pub struct RawElement {
    pub content: String,
    pub context: Option<Context>,
}

/// A text block: its children (usually raw nodes) provide the content.
#[derive(Debug)]
pub struct MJText {
    pub attributes: Attributes,
    pub context: Option<Context>,
    pub children: Vec<BodyElement>,
}

/// A full-width banner with two layout modes: `fluid`, and fixed-height.
#[derive(Debug)]
pub struct MJHero {
    pub attributes: Attributes,
    pub context: Option<Context>,
    pub children: Vec<BodyElement>,
}

/// The closed set of body component variants.
#[derive(Debug)]
pub enum BodyElement {
    MJHero(MJHero),
    MJText(MJText),
    Raw(RawElement),
}

/// The context assigned to an element, if any.
pub open spec fn spec_ctx_of(e: BodyElement) -> Option<Context> {
    match e {
        BodyElement::MJHero(h) => h.context,
        BodyElement::MJText(t) => t.context,
        BodyElement::Raw(r) => r.context,
    }
}

/// How many of the children are raw passthrough nodes, counting from `i`.
pub open spec fn spec_count_raw_from(cs: Vec<BodyElement>, i: int) -> int
    decreases cs.len() - i,
{
    if i < 0 || i >= cs.len() {
        0
    } else {
        (if cs[i] is Raw {
            1int
        } else {
            0int
        }) + spec_count_raw_from(cs, i + 1)
    }
}

pub proof fn lemma_count_raw_bounds(cs: Vec<BodyElement>, i: int)
    ensures
        0 <= spec_count_raw_from(cs, i) <= (if 0 <= i <= cs.len() {
            cs.len() - i
        } else {
            0int
        }),
    decreases cs.len() - i,
{
    if 0 <= i && i < cs.len() {
        lemma_count_raw_bounds(cs, i + 1);
    }
}

/// Every node of the subtree has been assigned a context.
pub open spec fn spec_el_assigned(e: BodyElement) -> bool
    decreases e, 1int, 0int,
{
    match e {
        BodyElement::MJHero(h) => h.context is Some && spec_children_assigned(h.children, 0),
        BodyElement::MJText(t) => t.context is Some && spec_children_assigned(t.children, 0),
        BodyElement::Raw(r) => r.context is Some,
    }
}

pub open spec fn spec_children_assigned(cs: Vec<BodyElement>, i: int) -> bool
    decreases cs, 0int, cs.len() - i,
{
    i >= cs.len() || (0 <= i && spec_el_assigned(cs[i]) && spec_children_assigned(cs, i + 1))
}

/// Every context assigned in the subtree is well formed.
pub open spec fn spec_el_wf(e: BodyElement) -> bool
    decreases e, 1int, 0int,
{
    match e {
        BodyElement::MJHero(h) => (h.context matches Some(c) ==> c.wf())
            && spec_children_wf(h.children, 0),
        BodyElement::MJText(t) => (t.context matches Some(c) ==> c.wf())
            && spec_children_wf(t.children, 0),
        BodyElement::Raw(r) => r.context matches Some(c) ==> c.wf(),
    }
}

pub open spec fn spec_children_wf(cs: Vec<BodyElement>, i: int) -> bool
    decreases cs, 0int, cs.len() - i,
{
    i >= cs.len() || (0 <= i && spec_el_wf(cs[i]) && spec_children_wf(cs, i + 1))
}

pub proof fn lemma_children_wf_index(cs: Vec<BodyElement>, i: int, j: int)
    requires
        spec_children_wf(cs, i),
        i <= j < cs.len(),
        0 <= i,
    ensures
        spec_el_wf(cs[j]),
    decreases j - i,
{
    if i < j {
        lemma_children_wf_index(cs, i + 1, j);
    }
}

/// The context a container computes for its child at index `i`: the
/// container width it passes down, the child generation's sibling counts,
/// and the child's own position.
pub open spec fn spec_child_context(
    cs: Vec<BodyElement>,
    cw: Option<Size>,
    i: int,
) -> Context {
    Context {
        container_width: cw,
        sibling_count: cs.len() as usize,
        raw_sibling_count: spec_count_raw_from(cs, 0) as usize,
        index: i as usize,
    }
}

/// Relates a tree before and after the context-assignment pass rooted with
/// parent context `ctx`: attributes and structure are untouched, the node's
/// context becomes `ctx`, and each child is assigned the context its parent
/// computes for it, recursively.
pub open spec fn spec_assigned_el(o: BodyElement, n: BodyElement, ctx: Context) -> bool
    decreases o, 1int, 0int,
{
    match o {
        BodyElement::MJHero(h) => n matches BodyElement::MJHero(hn) && hn.attributes
            == h.attributes && hn.context == Some(ctx) && spec_assigned_children(
            h.children,
            hn.children,
            ctx.container_width,
            0,
        ),
        BodyElement::MJText(t) => n matches BodyElement::MJText(tn) && tn.attributes
            == t.attributes && tn.context == Some(ctx) && spec_assigned_children(
            t.children,
            tn.children,
            ctx.container_width,
            0,
        ),
        BodyElement::Raw(r) => n matches BodyElement::Raw(rn) && rn.content == r.content
            && rn.context == Some(ctx),
    }
}

pub open spec fn spec_assigned_children(
    os: Vec<BodyElement>,
    ns: Vec<BodyElement>,
    cw: Option<Size>,
    i: int,
) -> bool
    decreases os, 0int, os.len() - i,
{
    if i >= os.len() {
        ns.len() == os.len()
    } else {
        0 <= i && i < ns.len() && spec_assigned_el(
            os[i],
            ns[i],
            spec_child_context(os, cw, i),
        ) && spec_assigned_children(os, ns, cw, i + 1)
    }
}

/// Appends a declaration or attribute only when the value is present.
pub open spec fn spec_push_maybe(
    s: Seq<(Seq<char>, Seq<char>)>,
    k: Seq<char>,
    o: Option<Seq<char>>,
) -> Seq<(Seq<char>, Seq<char>)> {
    match o {
        Some(v) => s.push((k, v)),
        None => s,
    }
}

/// The value of a size, or zero when absent.
pub open spec fn spec_opt_size_val(o: Option<Size>) -> int {
    match o {
        Some(s) => s.spec_value(),
        None => 0,
    }
}

impl MJHero {
    /// Builds a hero from its resolved attributes and parsed children.
    pub fn new(attributes: Attributes, children: Vec<BodyElement>) -> (r: MJHero)
        ensures
            r.attributes == attributes,
            r.context is None,
            r.children == children,
    {
        MJHero { attributes, context: None, children }
    }

    /// The hero's hardcoded attribute defaults.
    pub open spec fn spec_default(key: Seq<char>) -> Option<Seq<char>> {
        if key == "background-color"@ {
            Some("#ffffff"@)
        } else if key == "background-position"@ {
            Some("center center"@)
        } else if key == "height"@ {
            Some("0px"@)
        } else if key == "mode"@ {
            Some("fixed-height"@)
        } else if key == "padding"@ {
            Some("0px"@)
        } else if key == "vertical-align"@ {
            Some("top"@)
        } else {
            None
        }
    }

    /// The hardcoded default for one attribute key, if the hero has one.
    pub fn default_attribute(&self, key: &str) -> (r: Option<String>)
        ensures
            spec_opt_view(r) == Self::spec_default(key@),
    {
        if str_eq(key, "background-color") {
            Some("#ffffff".to_owned())
        } else if str_eq(key, "background-position") {
            Some("center center".to_owned())
        } else if str_eq(key, "height") {
            Some("0px".to_owned())
        } else if str_eq(key, "mode") {
            Some("fixed-height".to_owned())
        } else if str_eq(key, "padding") {
            Some("0px".to_owned())
        } else if str_eq(key, "vertical-align") {
            Some("top".to_owned())
        } else {
            None
        }
    }

    /// What attribute resolution yields on a hero: the explicit source
    /// attribute when set, else the hero's hardcoded default.
    pub open spec fn spec_attr(h: MJHero, key: Seq<char>) -> Option<Seq<char>> {
        match spec_lookup(h.attributes@, key) {
            Some(v) => Some(v),
            None => Self::spec_default(key),
        }
    }

    /// Resolves one attribute: the explicit value wins over the default.
    pub fn get_attribute(&self, key: &str) -> (r: Option<String>)
        ensures
            spec_opt_view(r) == Self::spec_attr(*self, key@),
    {
        match self.attributes.get(key) {
            Some(v) => Some(v),
            None => self.default_attribute(key),
        }
    }

    /// The resolved attribute read as a size; text that is not a size
    /// counts as absent.
    pub open spec fn spec_size_attr(h: MJHero, key: Seq<char>) -> Option<Size> {
        match Self::spec_attr(h, key) {
            Some(v) => spec_parse_size(v),
            None => None,
        }
    }

    /// Resolves an attribute and parses it as a size.
    pub fn get_size_attribute(&self, key: &str) -> (r: Option<Size>)
        ensures
            r == Self::spec_size_attr(*self, key@),
            r matches Some(sz) ==> sz.wf() && -MAX_PARSED_HUNDREDTHS < sz.spec_value()
                < MAX_PARSED_HUNDREDTHS,
    {
        proof {
            crate::size::lemma_parse_size_bounded(
                match Self::spec_attr(*self, key@) {
                    Some(v) => v,
                    None => Seq::empty(),
                },
            );
        }
        match self.get_attribute(key) {
            Some(v) => Size::parse(v.as_str()),
            None => None,
        }
    }

    /// The container width this node was assigned, if known.
    pub open spec fn spec_cw(h: MJHero) -> Option<Size> {
        match h.context {
            Some(c) => c.container_width,
            None => None,
        }
    }

    /// The node's own source attributes.
    pub fn source_attributes(&self) -> (r: Option<&Attributes>)
        ensures
            r matches Some(a) && *a == self.attributes,
    {
        Some(&self.attributes)
    }

    /// The children of this container, in source order.
    pub fn get_children(&self) -> (r: &Vec<BodyElement>)
        ensures
            *r == self.children,
    {
        &self.children
    }

    /// The width currently available to this node: its context's width.
    pub fn get_current_width(&self) -> (r: Option<Size>)
        ensures
            r == Self::spec_cw(*self),
    {
        self.get_container_width()
    }

    /// The assigned container width.
    pub fn get_container_width(&self) -> (r: Option<Size>)
        ensures
            r == Self::spec_cw(*self),
    {
        match &self.context {
            Some(c) => c.container_width,
            None => None,
        }
    }

    /// The container width with its unit, e.g. `600px`.
    pub open spec fn spec_cw_str(h: MJHero) -> Option<Seq<char>> {
        match Self::spec_cw(h) {
            Some(w) => Some(w.spec_str()),
            None => None,
        }
    }

    /// Renders the assigned container width with its unit.
    pub fn get_container_width_str(&self) -> (r: Option<String>)
        requires
            spec_el_wf(BodyElement::MJHero(*self)),
        ensures
            spec_opt_view(r) == Self::spec_cw_str(*self),
    {
        match self.get_container_width() {
            Some(w) => Some(w.to_string()),
            None => None,
        }
    }

    /// The container width as a bare number, e.g. `600`.
    pub open spec fn spec_cw_value(h: MJHero) -> Option<Seq<char>> {
        match Self::spec_cw(h) {
            Some(w) => Some(spec_fixed_str(w.spec_value())),
            None => None,
        }
    }

    /// Renders the assigned container width as a bare number.
    pub fn get_container_width_value(&self) -> (r: Option<String>)
        requires
            spec_el_wf(BodyElement::MJHero(*self)),
        ensures
            spec_opt_view(r) == Self::spec_cw_value(*self),
    {
        match self.get_container_width() {
            Some(w) => Some(w.value_string()),
            None => None,
        }
    }

    /// The vertical padding this node's attributes declare: the sum of
    /// `padding-top` and `padding-bottom` when either is set, else the
    /// `padding` shorthand read as one size.
    pub open spec fn spec_padding_vertical(h: MJHero) -> Option<int> {
        let pt = Self::spec_size_attr(h, "padding-top"@);
        let pb = Self::spec_size_attr(h, "padding-bottom"@);
        if pt is Some || pb is Some {
            Some(spec_opt_size_val(pt) + spec_opt_size_val(pb))
        } else {
            match Self::spec_size_attr(h, "padding"@) {
                Some(p) => Some(p.spec_value()),
                None => None,
            }
        }
    }

    /// The declared vertical padding, in pixels.
    pub fn get_padding_vertical(&self) -> (r: Option<Size>)
        ensures
            (match r {
                Some(s) => Self::spec_padding_vertical(*self) == Some(s.spec_value())
                    && s is Pixel && -2 * MAX_PARSED_HUNDREDTHS < s.spec_value() < 2
                    * MAX_PARSED_HUNDREDTHS,
                None => Self::spec_padding_vertical(*self) is None,
            }),
    {
        let pt = self.get_size_attribute("padding-top");
        let pb = self.get_size_attribute("padding-bottom");
        if pt.is_some() || pb.is_some() {
            let a: i64 = match pt {
                Some(s) => s.value(),
                None => 0,
            };
            let b: i64 = match pb {
                Some(s) => s.value(),
                None => 0,
            };
            Some(Size::Pixel(a + b))
        } else {
            match self.get_size_attribute("padding") {
                Some(p) => Some(Size::Pixel(p.value())),
                None => None,
            }
        }
    }

    /// `margin:0 auto` plus the container width as a `max-width` cap.
    pub open spec fn spec_style_div(h: MJHero) -> Seq<(Seq<char>, Seq<char>)> {
        spec_push_maybe(
            Seq::empty().push(("margin"@, "0 auto"@)),
            "max-width"@,
            Self::spec_cw_str(h),
        )
    }

    /// The style of the outer flow `div`.
    pub fn get_style_div(&self) -> (r: Style)
        requires
            spec_el_wf(BodyElement::MJHero(*self)),
        ensures
            r@ == Self::spec_style_div(*self),
    {
        let mut res = Style::new();
        res.set("margin", "0 auto");
        res.maybe_set("max-width", self.get_container_width_str());
        res
    }

    pub open spec fn spec_style_table(h: MJHero) -> Seq<(Seq<char>, Seq<char>)> {
        Seq::empty().push(("width"@, "100%"@))
    }

    /// The style of the outer flow `table`.
    pub fn get_style_table(&self) -> (r: Style)
        ensures
            r@ == Self::spec_style_table(*self),
    {
        let mut res = Style::new();
        res.set("width", "100%");
        res
    }

    pub open spec fn spec_style_tr(h: MJHero) -> Seq<(Seq<char>, Seq<char>)> {
        Seq::empty().push(("vertical-align"@, "top"@))
    }

    /// The style of the outer flow `tr`.
    pub fn get_style_tr(&self) -> (r: Style)
        ensures
            r@ == Self::spec_style_tr(*self),
    {
        let mut res = Style::new();
        res.set("vertical-align", "top");
        res
    }

    /// The background aspect ratio in percent (height over width), when
    /// both background dimensions are declared, the width is positive and
    /// the height is not negative; otherwise absent.
    pub open spec fn spec_bg_ratio(h: MJHero) -> Option<Seq<char>> {
        match Self::spec_size_attr(h, "background-height"@) {
            Some(bh) => match Self::spec_size_attr(h, "background-width"@) {
                Some(bw) => if bh.spec_value() >= 0 && bw.spec_value() > 0 {
                    Some(spec_fixed_str(bh.spec_value() * 10000 / bw.spec_value()))
                } else {
                    None
                },
                None => None,
            },
            None => None,
        }
    }

    /// Renders the background aspect ratio as a bare number.
    pub fn get_bg_ratio(&self) -> (r: Option<String>)
        ensures
            spec_opt_view(r) == Self::spec_bg_ratio(*self),
    {
        match self.get_size_attribute("background-height") {
            Some(bh) => match self.get_size_attribute("background-width") {
                Some(bw) => {
                    let hv = bh.value();
                    let wv = bw.value();
                    if hv >= 0 && wv > 0 {
                        let ratio = (hv as u64) * 10000 / (wv as u64);
                        proof {
                            vstd::arithmetic::div_mod::lemma_div_is_ordered(
                                (hv as u64 * 10000) as int,
                                1_000_000_000_000,
                                wv as int,
                            );
                            vstd::arithmetic::div_mod::lemma_div_is_ordered_by_denominator(
                                1_000_000_000_000,
                                1,
                                wv as int,
                            );
                        }
                        Some(crate::size::fixed_to_string(ratio as i64))
                    } else {
                        None
                    }
                }
                None => None,
            },
            None => None,
        }
    }

    /// `mso-padding-bottom-alt:0`, the background ratio as bottom padding,
    /// and a hairline width.
    pub open spec fn spec_style_td_fluid(h: MJHero) -> Seq<(Seq<char>, Seq<char>)> {
        spec_push_maybe(
            Seq::empty().push(("mso-padding-bottom-alt"@, "0"@)),
            "padding-bottom"@,
            Self::spec_bg_ratio(h),
        ).push(("width"@, "0.01%"@))
    }

    /// The style of the spacer cells of the fluid layout.
    pub fn get_style_td_fluid(&self) -> (r: Style)
        ensures
            r@ == Self::spec_style_td_fluid(*self),
    {
        let mut res = Style::new();
        res.set("mso-padding-bottom-alt", "0");
        res.maybe_set("padding-bottom", self.get_bg_ratio());
        res.set("width", "0.01%");
        res
    }

    pub open spec fn spec_style_outlook_table(h: MJHero) -> Seq<(Seq<char>, Seq<char>)> {
        spec_push_maybe(Seq::empty(), "width"@, Self::spec_cw_str(h))
    }

    /// The style of the legacy fallback's outer table.
    pub fn get_style_outlook_table(&self) -> (r: Style)
        requires
            spec_el_wf(BodyElement::MJHero(*self)),
        ensures
            r@ == Self::spec_style_outlook_table(*self),
    {
        let mut res = Style::new();
        res.maybe_set("width", self.get_container_width_str());
        res
    }

    /// The style of the legacy fallback's inner table: the same as its
    /// outer table.
    pub fn get_style_outlook_inner_table(&self) -> (r: Style)
        requires
            spec_el_wf(BodyElement::MJHero(*self)),
        ensures
            r@ == Self::spec_style_outlook_table(*self),
    {
        self.get_style_outlook_table()
    }

    pub open spec fn spec_style_outlook_inner_td(h: MJHero) -> Seq<(Seq<char>, Seq<char>)> {
        spec_push_maybe(
            spec_push_maybe(
                spec_push_maybe(
                    spec_push_maybe(
                        spec_push_maybe(
                            spec_push_maybe(
                                Seq::empty(),
                                "background-color"@,
                                Self::spec_attr(h, "inner-background-color"@),
                            ),
                            "padding"@,
                            Self::spec_attr(h, "inner-padding"@),
                        ),
                        "padding-top"@,
                        Self::spec_attr(h, "inner-padding-top"@),
                    ),
                    "padding-right"@,
                    Self::spec_attr(h, "inner-padding-right"@),
                ),
                "padding-bottom"@,
                Self::spec_attr(h, "inner-padding-bottom"@),
            ),
            "padding-left"@,
            Self::spec_attr(h, "inner-padding-left"@),
        )
    }

    /// The style of the legacy fallback's inner cell.
    pub fn get_style_outlook_inner_td(&self) -> (r: Style)
        ensures
            r@ == Self::spec_style_outlook_inner_td(*self),
    {
        let mut res = Style::new();
        res.maybe_set("background-color", self.get_attribute("inner-background-color"));
        res.maybe_set("padding", self.get_attribute("inner-padding"));
        res.maybe_set("padding-top", self.get_attribute("inner-padding-top"));
        res.maybe_set("padding-right", self.get_attribute("inner-padding-right"));
        res.maybe_set("padding-bottom", self.get_attribute("inner-padding-bottom"));
        res.maybe_set("padding-left", self.get_attribute("inner-padding-left"));
        res
    }

    pub open spec fn spec_style_inner_div(h: MJHero) -> Seq<(Seq<char>, Seq<char>)> {
        spec_push_maybe(
            spec_push_maybe(
                spec_push_maybe(
                    Seq::empty(),
                    "background-color"@,
                    Self::spec_attr(h, "inner-background-color"@),
                ),
                "float"@,
                Self::spec_attr(h, "align"@),
            ).push(("margin"@, "0px auto"@)),
            "width"@,
            Self::spec_attr(h, "width"@),
        )
    }

    /// The style of the content wrapper `div`.
    pub fn get_style_inner_div(&self) -> (r: Style)
        ensures
            r@ == Self::spec_style_inner_div(*self),
    {
        let mut res = Style::new();
        res.maybe_set("background-color", self.get_attribute("inner-background-color"));
        res.maybe_set("float", self.get_attribute("align"));
        res.set("margin", "0px auto");
        res.maybe_set("width", self.get_attribute("width"));
        res
    }

    pub open spec fn spec_style_inner_table(h: MJHero) -> Seq<(Seq<char>, Seq<char>)> {
        Seq::empty().push(("width"@, "100%"@)).push(("margin"@, "0px"@))
    }

    /// The style of the content tables.
    pub fn get_style_inner_table(&self) -> (r: Style)
        ensures
            r@ == Self::spec_style_inner_table(*self),
    {
        let mut res = Style::new();
        res.set("width", "100%");
        res.set("margin", "0px");
        res
    }

    pub open spec fn spec_style_outlook_image(h: MJHero) -> Seq<(Seq<char>, Seq<char>)> {
        spec_push_maybe(
            spec_push_maybe(
                Seq::empty().push(("border"@, "0"@)),
                "height"@,
                Self::spec_attr(h, "background-height"@),
            ).push(("mso-position-horizontal"@, "center"@)).push(("position"@, "absolute"@))
                .push(("top"@, "0"@)),
            "width"@,
            (match Self::spec_attr(h, "background-width"@) {
                Some(v) => Some(v),
                None => Self::spec_cw_str(h),
            }),
        ).push(("z-index"@, "-3"@))
    }

    /// The style of the legacy fallback's absolutely positioned image.
    pub fn get_style_outlook_image(&self) -> (r: Style)
        requires
            spec_el_wf(BodyElement::MJHero(*self)),
        ensures
            r@ == Self::spec_style_outlook_image(*self),
    {
        let mut res = Style::new();
        res.set("border", "0");
        res.maybe_set("height", self.get_attribute("background-height"));
        res.set("mso-position-horizontal", "center");
        res.set("position", "absolute");
        res.set("top", "0");
        let width = match self.get_attribute("background-width") {
            Some(v) => Some(v),
            None => self.get_container_width_str(),
        };
        res.maybe_set("width", width);
        res.set("z-index", "-3");
        res
    }

    pub open spec fn spec_style_outlook_td(h: MJHero) -> Seq<(Seq<char>, Seq<char>)> {
        Seq::empty().push(("line-height"@, "0"@)).push(("font-size"@, "0"@)).push(
            ("mso-line-height-rule"@, "exactly"@),
        )
    }

    /// The style of the legacy fallback's outer cell.
    pub fn get_style_outlook_td(&self) -> (r: Style)
        ensures
            r@ == Self::spec_style_outlook_td(*self),
    {
        let mut res = Style::new();
        res.set("line-height", "0");
        res.set("font-size", "0");
        res.set("mso-line-height-rule", "exactly");
        res
    }

    /// The node's background: the color alone, or, when a background image
    /// is set, the full CSS `background` shorthand.
    pub open spec fn spec_background(h: MJHero) -> Option<Seq<char>> {
        match Self::spec_attr(h, "background-url"@) {
            Some(url) => Some(
                Self::spec_attr(h, "background-color"@).unwrap() + " url("@ + url
                    + ") no-repeat "@ + Self::spec_attr(h, "background-position"@).unwrap()
                    + " / cover"@,
            ),
            None => Self::spec_attr(h, "background-color"@),
        }
    }

    /// Builds the CSS background of this node.
    pub fn get_background(&self) -> (r: Option<String>)
        ensures
            spec_opt_view(r) == Self::spec_background(*self),
    {
        match self.get_attribute("background-url") {
            Some(url) => {
                let mut s = match self.get_attribute("background-color") {
                    Some(c) => c,
                    None => {
                        proof {
                            assert(false);
                        }
                        String::new()
                    }
                };
                let pos = match self.get_attribute("background-position") {
                    Some(p) => p,
                    None => {
                        proof {
                            assert(false);
                        }
                        String::new()
                    }
                };
                s.append(" url(");
                s.append(url.as_str());
                s.append(") no-repeat ");
                s.append(pos.as_str());
                s.append(" / cover");
                Some(s)
            }
            None => self.get_attribute("background-color"),
        }
    }

    pub open spec fn spec_style_hero(h: MJHero) -> Seq<(Seq<char>, Seq<char>)> {
        spec_push_maybe(
            spec_push_maybe(
                spec_push_maybe(
                    spec_push_maybe(
                        spec_push_maybe(
                            spec_push_maybe(
                                spec_push_maybe(
                                    spec_push_maybe(
                                        Seq::empty(),
                                        "background"@,
                                        Self::spec_background(h),
                                    ),
                                    "background-position"@,
                                    Self::spec_attr(h, "background-position"@),
                                ).push(("background-repeat"@, "no-repeat"@)),
                                "padding"@,
                                Self::spec_attr(h, "padding"@),
                            ),
                            "padding-top"@,
                            Self::spec_attr(h, "padding-top"@),
                        ),
                        "padding-right"@,
                        Self::spec_attr(h, "padding-right"@),
                    ),
                    "padding-bottom"@,
                    Self::spec_attr(h, "padding-bottom"@),
                ),
                "padding-left"@,
                Self::spec_attr(h, "padding-left"@),
            ),
            "vertical-align"@,
            Self::spec_attr(h, "vertical-align"@),
        )
    }

    /// The style of the hero's own content cell.
    pub fn get_style_hero(&self) -> (r: Style)
        ensures
            r@ == Self::spec_style_hero(*self),
    {
        let mut res = Style::new();
        res.maybe_set("background", self.get_background());
        res.maybe_set("background-position", self.get_attribute("background-position"));
        res.set("background-repeat", "no-repeat");
        res.maybe_set("padding", self.get_attribute("padding"));
        res.maybe_set("padding-top", self.get_attribute("padding-top"));
        res.maybe_set("padding-right", self.get_attribute("padding-right"));
        res.maybe_set("padding-bottom", self.get_attribute("padding-bottom"));
        res.maybe_set("padding-left", self.get_attribute("padding-left"));
        res.maybe_set("vertical-align", self.get_attribute("vertical-align"));
        res
    }

    /// The style a caller asks for by role name; an unknown role is an
    /// empty style.
    pub open spec fn spec_style(h: MJHero, name: Seq<char>) -> Seq<(Seq<char>, Seq<char>)> {
        if name == "div"@ {
            Self::spec_style_div(h)
        } else if name == "table"@ {
            Self::spec_style_table(h)
        } else if name == "tr"@ {
            Self::spec_style_tr(h)
        } else if name == "td-fluid"@ {
            Self::spec_style_td_fluid(h)
        } else if name == "hero"@ {
            Self::spec_style_hero(h)
        } else if name == "outlook-table"@ {
            Self::spec_style_outlook_table(h)
        } else if name == "outlook-td"@ {
            Self::spec_style_outlook_td(h)
        } else if name == "outlook-image"@ {
            Self::spec_style_outlook_image(h)
        } else if name == "outlook-inner-table"@ {
            Self::spec_style_outlook_table(h)
        } else if name == "inner-div"@ {
            Self::spec_style_inner_div(h)
        } else if name == "inner-table"@ {
            Self::spec_style_inner_table(h)
        } else {
            Seq::empty()
        }
    }

    /// The attributes of the legacy outer table: centered, capped at the
    /// container width.
    pub open spec fn spec_outlook_table_attrs(h: MJHero) -> Seq<(Seq<char>, Seq<char>)> {
        spec_push_maybe(
            Seq::empty().push(("align"@, "center"@)),
            "width"@,
            Self::spec_cw_value(h),
        )
    }

    /// The attributes of the legacy background image.
    pub open spec fn spec_v_image_attrs(h: MJHero) -> Seq<(Seq<char>, Seq<char>)> {
        spec_push_maybe(Seq::empty(), "src"@, Self::spec_attr(h, "background-url"@)).push(
            ("xmlns:v"@, "urn:schemas-microsoft-com:vml"@),
        )
    }

    /// The attributes of the outer flow `div`.
    pub open spec fn spec_div_attrs(h: MJHero) -> Seq<(Seq<char>, Seq<char>)> {
        spec_push_maybe(
            spec_push_maybe(Seq::empty(), "align"@, Self::spec_attr(h, "align"@)),
            "class"@,
            Self::spec_attr(h, "css-class"@),
        )
    }

    /// The attributes of the legacy inner table.
    pub open spec fn spec_content_table_attrs(h: MJHero) -> Seq<(Seq<char>, Seq<char>)> {
        spec_push_maybe(
            spec_push_maybe(Seq::empty(), "align"@, Self::spec_attr(h, "align"@)).push(
                ("border"@, "0"@),
            ).push(("cellpadding"@, "0"@)).push(("cellspacing"@, "0"@)),
            "width"@,
            Self::spec_cw_value(h),
        )
    }

    /// The attributes of the content wrapper `div`.
    pub open spec fn spec_inner_div_attrs(h: MJHero) -> Seq<(Seq<char>, Seq<char>)> {
        spec_push_maybe(Seq::empty(), "width"@, Self::spec_attr(h, "align"@)).push(
            ("class"@, "mj-hero-content"@),
        )
    }

    /// The content cell's attributes in fluid mode.
    pub open spec fn spec_fluid_td_attrs(h: MJHero) -> Seq<(Seq<char>, Seq<char>)> {
        spec_push_maybe(Seq::empty(), "background"@, Self::spec_attr(h, "background-url"@))
    }

    /// The visible content height in fixed mode: the declared height minus
    /// the node's own vertical padding, in hundredths of a pixel.
    pub open spec fn spec_fixed_height(h: MJHero) -> int {
        (match Self::spec_size_attr(h, "height"@) {
            Some(s) => s.spec_value(),
            None => 0,
        }) - (match Self::spec_padding_vertical(h) {
            Some(p) => p,
            None => 0,
        })
    }

    /// The content cell's attributes in fixed-height mode.
    pub open spec fn spec_fixed_td_attrs(h: MJHero) -> Seq<(Seq<char>, Seq<char>)> {
        spec_push_maybe(Seq::empty(), "background"@, Self::spec_attr(h, "background-url"@))
            .push(("height"@, spec_fixed_str(Self::spec_fixed_height(h))))
    }

    /// Looks a style up by its role name.
    pub fn get_style(&self, name: &str) -> (r: Style)
        requires
            spec_el_wf(BodyElement::MJHero(*self)),
        ensures
            r@ == Self::spec_style(*self, name@),
    {
        if str_eq(name, "div") {
            self.get_style_div()
        } else if str_eq(name, "table") {
            self.get_style_table()
        } else if str_eq(name, "tr") {
            self.get_style_tr()
        } else if str_eq(name, "td-fluid") {
            self.get_style_td_fluid()
        } else if str_eq(name, "hero") {
            self.get_style_hero()
        } else if str_eq(name, "outlook-table") {
            self.get_style_outlook_table()
        } else if str_eq(name, "outlook-td") {
            self.get_style_outlook_td()
        } else if str_eq(name, "outlook-image") {
            self.get_style_outlook_image()
        } else if str_eq(name, "outlook-inner-table") {
            self.get_style_outlook_inner_table()
        } else if str_eq(name, "inner-div") {
            self.get_style_inner_div()
        } else if str_eq(name, "inner-table") {
            self.get_style_inner_table()
        } else {
            Style::new()
        }
    }
}

/// What attribute resolution yields on any element: raw passthrough nodes
/// have no attributes.
pub open spec fn spec_el_attr(e: BodyElement, key: Seq<char>) -> Option<Seq<char>> {
    match e {
        BodyElement::MJHero(h) => MJHero::spec_attr(h, key),
        BodyElement::MJText(t) => spec_lookup(t.attributes@, key),
        BodyElement::Raw(_) => None,
    }
}

/// The style declarations of the wrapping cell a hero builds around one of
/// its managed children, derived from the child's own attributes.
pub open spec fn spec_child_td_styles(c: BodyElement) -> Seq<(Seq<char>, Seq<char>)> {
    spec_push_maybe(
        spec_push_maybe(
            spec_push_maybe(
                spec_push_maybe(
                    spec_push_maybe(
                        spec_push_maybe(
                            Seq::empty(),
                            "background"@,
                            spec_el_attr(c, "container-background-color"@),
                        ).push(("font-size"@, "0px"@)),
                        "padding"@,
                        spec_el_attr(c, "padding"@),
                    ),
                    "padding-top"@,
                    spec_el_attr(c, "padding-top"@),
                ),
                "padding-right"@,
                spec_el_attr(c, "padding-right"@),
            ),
            "padding-bottom"@,
            spec_el_attr(c, "padding-bottom"@),
        ),
        "padding-left"@,
        spec_el_attr(c, "padding-left"@),
    ).push(("word-break"@, "break-word"@))
}

/// The attributes of that wrapping cell.
pub open spec fn spec_child_td_attrs(c: BodyElement) -> Seq<(Seq<char>, Seq<char>)> {
    spec_push_maybe(
        spec_push_maybe(
            spec_push_maybe(Seq::empty(), "align"@, spec_el_attr(c, "align"@)),
            "background"@,
            spec_el_attr(c, "container-background-color"@),
        ),
        "class"@,
        spec_el_attr(c, "css-class"@),
    )
}

/// One managed child wrapped in its own table row and cell.
pub open spec fn spec_render_child_wrap(c: BodyElement) -> Seq<char>
    decreases c, 10int, 0int,
{
    crate::tag::spec_wrap_str(
        "tr"@,
        Seq::empty(),
        Seq::empty(),
        crate::tag::spec_wrap_str(
            "td"@,
            spec_child_td_attrs(c),
            spec_child_td_styles(c),
            spec_render_el(c),
        ),
    )
}

/// The hero's children in order: raw nodes pass through bare, managed
/// nodes are wrapped in a row and cell.
pub open spec fn spec_render_children(cs: Vec<BodyElement>, i: int) -> Seq<char>
    decreases cs, 3int, cs.len() - i,
{
    if i < 0 || i >= cs.len() {
        Seq::empty()
    } else {
        (match cs[i] {
            BodyElement::Raw(_) => spec_render_el(cs[i]),
            _ => spec_render_child_wrap(cs[i]),
        }) + spec_render_children(cs, i + 1)
    }
}

/// The hero's content block: the legacy inner table around the modern
/// content wrapper.
pub open spec fn spec_render_content(h: MJHero) -> Seq<char>
    decreases h, 5int, 0int,
{
    "<!--[if mso | IE]>"@ + crate::tag::spec_open_str(
        "table"@,
        MJHero::spec_content_table_attrs(h),
        MJHero::spec_style_outlook_table(h),
    ) + crate::tag::spec_open_str("tr"@, Seq::empty(), Seq::empty())
        + crate::tag::spec_open_str(
        "td"@,
        Seq::empty(),
        MJHero::spec_style_outlook_inner_td(h),
    ) + "<![endif]-->"@ + crate::tag::spec_wrap_str(
        "div"@,
        MJHero::spec_inner_div_attrs(h),
        MJHero::spec_style_inner_div(h),
        crate::tag::spec_wrap_str(
            "table"@,
            Seq::empty(),
            MJHero::spec_style_inner_table(h),
            crate::tag::spec_wrap_str(
                "tr"@,
                Seq::empty(),
                Seq::empty(),
                crate::tag::spec_wrap_str(
                    "td"@,
                    Seq::empty(),
                    Seq::empty(),
                    crate::tag::spec_wrap_str(
                        "table"@,
                        Seq::empty(),
                        MJHero::spec_style_inner_table(h),
                        spec_render_children(h.children, 0),
                    ),
                ),
            ),
        ),
    ) + "<!--[if mso | IE]>"@ + crate::tag::spec_close_str("td"@)
        + crate::tag::spec_close_str("tr"@) + crate::tag::spec_close_str("table"@)
        + "<![endif]-->"@
}

/// Fluid mode: the content cell between two hairline spacer cells.
pub open spec fn spec_render_mode_fluid(h: MJHero) -> Seq<char>
    decreases h, 6int, 0int,
{
    crate::tag::spec_closed_str("td"@, Seq::empty(), MJHero::spec_style_td_fluid(h))
        + crate::tag::spec_wrap_str(
        "td"@,
        MJHero::spec_fluid_td_attrs(h),
        MJHero::spec_style_hero(h),
        spec_render_content(h),
    ) + crate::tag::spec_closed_str("td"@, Seq::empty(), MJHero::spec_style_td_fluid(h))
}

/// Fixed-height mode: one content cell whose height is the declared height
/// less the node's own vertical padding.
pub open spec fn spec_render_mode_fixed(h: MJHero) -> Seq<char>
    decreases h, 6int, 0int,
{
    crate::tag::spec_wrap_str(
        "td"@,
        MJHero::spec_fixed_td_attrs(h),
        MJHero::spec_style_hero(h),
        spec_render_content(h),
    )
}

/// The mode decision, made once per render: `fluid` when the `mode`
/// attribute says so, fixed-height otherwise.
pub open spec fn spec_render_mode(h: MJHero) -> Seq<char>
    decreases h, 7int, 0int,
{
    match MJHero::spec_attr(h, "mode"@) {
        Some(m) => if m == "fluid"@ {
            spec_render_mode_fluid(h)
        } else {
            spec_render_mode_fixed(h)
        },
        None => spec_render_mode_fixed(h),
    }
}

/// The hero's full markup: the legacy fallback block strictly between the
/// conditional-comment markers, the modern flow markup strictly outside
/// them, in fixed order.
pub open spec fn spec_render_hero(h: MJHero) -> Seq<char>
    decreases h, 8int, 0int,
{
    "<!--[if mso | IE]>"@ + crate::tag::spec_open_str(
        "table"@,
        MJHero::spec_outlook_table_attrs(h),
        MJHero::spec_style_outlook_table(h),
    ) + crate::tag::spec_open_str("tr"@, Seq::empty(), Seq::empty())
        + crate::tag::spec_open_str("td"@, Seq::empty(), MJHero::spec_style_outlook_td(h))
        + crate::tag::spec_closed_str(
        "v:image"@,
        MJHero::spec_v_image_attrs(h),
        MJHero::spec_style_outlook_image(h),
    ) + "<![endif]-->"@ + crate::tag::spec_open_str(
        "div"@,
        MJHero::spec_div_attrs(h),
        MJHero::spec_style_div(h),
    ) + crate::tag::spec_open_str("table"@, Seq::empty(), MJHero::spec_style_table(h))
        + crate::tag::spec_open_str("tr"@, Seq::empty(), MJHero::spec_style_tr(h))
        + spec_render_mode(h) + crate::tag::spec_close_str("tr"@)
        + crate::tag::spec_close_str("table"@) + crate::tag::spec_close_str("div"@)
        + "<!--[if mso | IE]>"@ + crate::tag::spec_close_str("td"@)
        + crate::tag::spec_close_str("tr"@) + crate::tag::spec_close_str("table"@)
        + "<![endif]-->"@
}

/// A run of elements rendered back to back, in order.
pub open spec fn spec_render_elements(cs: Vec<BodyElement>, i: int) -> Seq<char>
    decreases cs, 3int, cs.len() - i,
{
    if i < 0 || i >= cs.len() {
        Seq::empty()
    } else {
        spec_render_el(cs[i]) + spec_render_elements(cs, i + 1)
    }
}

pub open spec fn spec_render_text(t: MJText) -> Seq<char>
    decreases t, 8int, 0int,
{
    spec_render_elements(t.children, 0)
}

/// What rendering an element yields once its contexts are assigned: a raw
/// node re-emits its verbatim source text.
pub open spec fn spec_render_el(e: BodyElement) -> Seq<char>
    decreases e, 9int, 0int,
{
    match e {
        BodyElement::MJHero(h) => spec_render_hero(h),
        BodyElement::MJText(t) => spec_render_text(t),
        BodyElement::Raw(r) => r.content@,
    }
}

proof fn lemma_concat_empty_left<A>(s: Seq<A>)
    ensures
        Seq::<A>::empty() + s == s,
{
    assert(Seq::<A>::empty() + s =~= s);
}

impl RawElement {
    /// Builds a raw passthrough node from its verbatim source text.
    pub fn new(content: String) -> (r: RawElement)
        ensures
            r.content == content,
            r.context is None,
    {
        RawElement { content, context: None }
    }

    /// Re-emits the node's source text unchanged.
    pub fn render(&self, header: &Header) -> (r: Result<String, Error>)
        ensures
            r is Ok <==> spec_el_assigned(BodyElement::Raw(*self)),
            r matches Ok(s) ==> s@ == self.content@,
            r matches Err(e) ==> e == Error::MissingContext,
    {
        if self.context.is_none() {
            return Err(Error::MissingContext);
        }
        Ok(self.content.clone())
    }
}

impl MJText {
    /// Builds a text block from its attributes and children.
    pub fn new(attributes: Attributes, children: Vec<BodyElement>) -> (r: MJText)
        ensures
            r.attributes == attributes,
            r.context is None,
            r.children == children,
    {
        MJText { attributes, context: None, children }
    }

    /// Resolves one attribute; a text block has no hardcoded defaults.
    pub fn get_attribute(&self, key: &str) -> (r: Option<String>)
        ensures
            spec_opt_view(r) == spec_lookup(self.attributes@, key@),
    {
        self.attributes.get(key)
    }

    fn render_children_from(&self, header: &Header, i: usize) -> (r: Result<String, Error>)
        requires
            spec_el_wf(BodyElement::MJText(*self)),
            i <= self.children.len(),
        ensures
            r is Ok <==> spec_children_assigned(self.children, i as int),
            r matches Ok(s) ==> s@ == spec_render_elements(self.children, i as int),
            r matches Err(e) ==> e == Error::MissingContext,
        decreases *self, 3int, self.children.len() - i,
    {
        if i == self.children.len() {
            return Ok(String::new());
        }
        proof {
            lemma_children_wf_index(self.children, 0, i as int);
        }
        let child = &self.children[i];
        let first = match child.render(header) {
            Ok(s) => s,
            Err(e) => {
                return Err(e);
            }
        };
        let rest = match self.render_children_from(header, i + 1) {
            Ok(s) => s,
            Err(e) => {
                return Err(e);
            }
        };
        let mut s = first;
        s.append(rest.as_str());
        Ok(s)
    }

    /// Renders the text block: its children's markup, in order.
    pub fn render(&self, header: &Header) -> (r: Result<String, Error>)
        requires
            spec_el_wf(BodyElement::MJText(*self)),
        ensures
            r is Ok <==> spec_el_assigned(BodyElement::MJText(*self)),
            r matches Ok(s) ==> s@ == spec_render_text(*self),
            r matches Err(e) ==> e == Error::MissingContext,
        decreases *self, 8int, 0int,
    {
        if self.context.is_none() {
            return Err(Error::MissingContext);
        }
        self.render_children_from(header, 0)
    }
}

impl MJHero {
    /// Wraps one managed child in its own table row and cell, the cell's
    /// padding, background and alignment taken from the child's own
    /// attributes.
    pub fn render_child(&self, header: &Header, child: &BodyElement) -> (r: Result<
        String,
        Error,
    >)
        requires
            spec_el_wf(*child),
        ensures
            r is Ok <==> spec_el_assigned(*child),
            r matches Ok(s) ==> s@ == spec_render_child_wrap(*child),
            r matches Err(e) ==> e == Error::MissingContext,
        decreases *child, 10int, 0int,
    {
        let tr = Tag::new("tr");
        let td = Tag::new("td").maybe_set_style(
            "background",
            child.get_attribute("container-background-color"),
        ).set_style("font-size", "0px").maybe_set_style(
            "padding",
            child.get_attribute("padding"),
        ).maybe_set_style("padding-top", child.get_attribute("padding-top")).maybe_set_style(
            "padding-right",
            child.get_attribute("padding-right"),
        ).maybe_set_style("padding-bottom", child.get_attribute("padding-bottom"))
            .maybe_set_style("padding-left", child.get_attribute("padding-left")).set_style(
            "word-break",
            "break-word",
        ).maybe_set_attribute("align", child.get_attribute("align")).maybe_set_attribute(
            "background",
            child.get_attribute("container-background-color"),
        ).maybe_set_attribute("class", child.get_attribute("css-class"));
        let inner = match child.render(header) {
            Ok(s) => s,
            Err(e) => {
                return Err(e);
            }
        };
        let s = tr.render(td.render(inner));
        Ok(s)
    }

    fn render_children_from(&self, header: &Header, i: usize) -> (r: Result<String, Error>)
        requires
            spec_el_wf(BodyElement::MJHero(*self)),
            i <= self.children.len(),
        ensures
            r is Ok <==> spec_children_assigned(self.children, i as int),
            r matches Ok(s) ==> s@ == spec_render_children(self.children, i as int),
            r matches Err(e) ==> e == Error::MissingContext,
        decreases *self, 3int, self.children.len() - i,
    {
        if i == self.children.len() {
            return Ok(String::new());
        }
        proof {
            lemma_children_wf_index(self.children, 0, i as int);
        }
        let child = &self.children[i];
        let first = match child {
            BodyElement::Raw(_) => child.render(header),
            _ => self.render_child(header, child),
        };
        let first = match first {
            Ok(s) => s,
            Err(e) => {
                return Err(e);
            }
        };
        let rest = match self.render_children_from(header, i + 1) {
            Ok(s) => s,
            Err(e) => {
                return Err(e);
            }
        };
        let mut s = first;
        s.append(rest.as_str());
        Ok(s)
    }

    /// Renders every child in order: raw nodes pass through bare, managed
    /// nodes are each wrapped in a row and cell.
    pub fn render_children(&self, header: &Header) -> (r: Result<String, Error>)
        requires
            spec_el_wf(BodyElement::MJHero(*self)),
        ensures
            r is Ok <==> spec_children_assigned(self.children, 0),
            r matches Ok(s) ==> s@ == spec_render_children(self.children, 0),
            r matches Err(e) ==> e == Error::MissingContext,
        decreases *self, 4int, 0int,
    {
        self.render_children_from(header, 0)
    }

    /// Renders the content block: the children inside the modern wrapper
    /// `div`, with the legacy inner table around it.
    pub fn render_content(&self, header: &Header) -> (r: Result<String, Error>)
        requires
            spec_el_wf(BodyElement::MJHero(*self)),
        ensures
            r is Ok <==> spec_children_assigned(self.children, 0),
            r matches Ok(s) ==> s@ == spec_render_content(*self),
            r matches Err(e) ==> e == Error::MissingContext,
        decreases *self, 5int, 0int,
    {
        let st_outlook_inner_table = self.get_style_outlook_inner_table();
        let table = Tag::table().maybe_set_attribute("align", self.get_attribute("align"))
            .set_attribute("border", "0").set_attribute("cellpadding", "0").set_attribute(
            "cellspacing",
            "0",
        ).insert_style(&st_outlook_inner_table).maybe_set_attribute(
            "width",
            self.get_container_width_value(),
        );
        let tr = Tag::tr();
        let st_outlook_inner_td = self.get_style_outlook_inner_td();
        let outlook_inner_td = Tag::new("td").insert_style(&st_outlook_inner_td);
        let st_inner_div = self.get_style_inner_div();
        let outlook_inner_div = Tag::new("div").maybe_set_attribute(
            "width",
            self.get_attribute("align"),
        ).set_class("mj-hero-content").insert_style(&st_inner_div);
        let st_inner_table = self.get_style_inner_table();
        let inner_table = Tag::table().insert_style(&st_inner_table);
        let children = match self.render_children(header) {
            Ok(s) => s,
            Err(e) => {
                return Err(e);
            }
        };
        proof {
            lemma_concat_empty_left(Self::spec_style_outlook_table(*self));
            lemma_concat_empty_left(Self::spec_style_outlook_inner_td(*self));
            lemma_concat_empty_left(Self::spec_style_inner_div(*self));
            lemma_concat_empty_left(Self::spec_style_inner_table(*self));
        }
        let mut res = String::new();
        res.append(conditional_start());
        let part = table.open();
        res.append(part.as_str());
        let part = tr.open();
        res.append(part.as_str());
        let part = outlook_inner_td.open();
        res.append(part.as_str());
        res.append(conditional_end());
        let inner = inner_table.render(children);
        let inner = Tag::td().render(inner);
        let inner = tr.render(inner);
        let inner = inner_table.render(inner);
        let inner = outlook_inner_div.render(inner);
        res.append(inner.as_str());
        res.append(conditional_start());
        let part = outlook_inner_td.close();
        res.append(part.as_str());
        let part = tr.close();
        res.append(part.as_str());
        let part = table.close();
        res.append(part.as_str());
        res.append(conditional_end());
        proof {
            assert(res@ =~= spec_render_content(*self));
        }
        Ok(res)
    }

    /// Renders the fluid layout: the content cell between two hairline
    /// spacer cells.
    pub fn render_mode_fluid(&self, header: &Header) -> (r: Result<String, Error>)
        requires
            spec_el_wf(BodyElement::MJHero(*self)),
        ensures
            r is Ok <==> spec_children_assigned(self.children, 0),
            r matches Ok(s) ==> s@ == spec_render_mode_fluid(*self),
            r matches Err(e) ==> e == Error::MissingContext,
        decreases *self, 6int, 0int,
    {
        let st_td_fluid = self.get_style_td_fluid();
        let td_fluid = Tag::td().insert_style(&st_td_fluid);
        let st_hero = self.get_style_hero();
        let td = Tag::td().maybe_set_attribute(
            "background",
            self.get_attribute("background-url"),
        ).insert_style(&st_hero);
        let content = match self.render_content(header) {
            Ok(s) => s,
            Err(e) => {
                return Err(e);
            }
        };
        proof {
            lemma_concat_empty_left(Self::spec_style_td_fluid(*self));
            lemma_concat_empty_left(Self::spec_style_hero(*self));
        }
        let mut res = td_fluid.closed();
        let part = td.render(content);
        res.append(part.as_str());
        let part = td_fluid.closed();
        res.append(part.as_str());
        proof {
            assert(res@ =~= spec_render_mode_fluid(*self));
        }
        Ok(res)
    }

    /// Renders the fixed-height layout: one content cell whose height is
    /// the declared height less the node's own vertical padding.
    pub fn render_mode_fixed(&self, header: &Header) -> (r: Result<String, Error>)
        requires
            spec_el_wf(BodyElement::MJHero(*self)),
        ensures
            r is Ok <==> spec_children_assigned(self.children, 0),
            r matches Ok(s) ==> s@ == spec_render_mode_fixed(*self),
            r matches Err(e) ==> e == Error::MissingContext,
        decreases *self, 6int, 0int,
    {
        let hv: i64 = match self.get_size_attribute("height") {
            Some(s) => s.value(),
            None => 0,
        };
        let pv: i64 = match self.get_padding_vertical() {
            Some(p) => p.value(),
            None => 0,
        };
        let height = hv - pv;
        let hstr = crate::size::fixed_to_string(height);
        let st_hero = self.get_style_hero();
        let td = Tag::td().maybe_set_attribute(
            "background",
            self.get_attribute("background-url"),
        ).insert_style(&st_hero).set_attribute("height", hstr.as_str());
        let content = match self.render_content(header) {
            Ok(s) => s,
            Err(e) => {
                return Err(e);
            }
        };
        proof {
            lemma_concat_empty_left(Self::spec_style_hero(*self));
        }
        let res = td.render(content);
        proof {
            assert(res@ =~= spec_render_mode_fixed(*self));
        }
        Ok(res)
    }

    /// Decides the layout mode once and renders it: `fluid` when the
    /// `mode` attribute says so, fixed-height otherwise.
    pub fn render_mode(&self, header: &Header) -> (r: Result<String, Error>)
        requires
            spec_el_wf(BodyElement::MJHero(*self)),
        ensures
            r is Ok <==> spec_children_assigned(self.children, 0),
            r matches Ok(s) ==> s@ == spec_render_mode(*self),
            r matches Err(e) ==> e == Error::MissingContext,
        decreases *self, 7int, 0int,
    {
        match self.get_attribute("mode") {
            Some(mode) => {
                if str_eq(mode.as_str(), "fluid") {
                    self.render_mode_fluid(header)
                } else {
                    self.render_mode_fixed(header)
                }
            }
            None => self.render_mode_fixed(header),
        }
    }

    /// Renders the hero: the legacy fallback block (outer table and
    /// absolutely positioned background image) strictly between the
    /// conditional-comment markers, the modern flow markup strictly
    /// outside them. Fails only when a node of the subtree was never
    /// assigned a context.
    pub fn render(&self, header: &Header) -> (r: Result<String, Error>)
        requires
            spec_el_wf(BodyElement::MJHero(*self)),
        ensures
            r is Ok <==> spec_el_assigned(BodyElement::MJHero(*self)),
            r matches Ok(s) ==> s@ == spec_render_hero(*self),
            r matches Err(e) ==> e == Error::MissingContext,
        decreases *self, 8int, 0int,
    {
        if self.context.is_none() {
            return Err(Error::MissingContext);
        }
        let st_outlook_table = self.get_style_outlook_table();
        let outlook_table = Tag::table().set_attribute("align", "center").insert_style(
            &st_outlook_table,
        ).maybe_set_attribute("width", self.get_container_width_value());
        let outlook_tr = Tag::tr();
        let st_outlook_td = self.get_style_outlook_td();
        let outlook_td = Tag::td().insert_style(&st_outlook_td);
        let st_outlook_image = self.get_style_outlook_image();
        let v_image = Tag::new("v:image").insert_style(&st_outlook_image).maybe_set_attribute(
            "src",
            self.get_attribute("background-url"),
        ).set_attribute("xmlns:v", "urn:schemas-microsoft-com:vml");
        let st_div = self.get_style_div();
        let div = Tag::div().maybe_set_attribute("align", self.get_attribute("align"))
            .maybe_set_class(self.get_attribute("css-class")).insert_style(&st_div);
        let st_table = self.get_style_table();
        let table = Tag::table().insert_style(&st_table);
        let st_tr = self.get_style_tr();
        let tr = Tag::tr().insert_style(&st_tr);
        let mode = match self.render_mode(header) {
            Ok(s) => s,
            Err(e) => {
                return Err(e);
            }
        };
        proof {
            lemma_concat_empty_left(Self::spec_style_outlook_table(*self));
            lemma_concat_empty_left(Self::spec_style_outlook_td(*self));
            lemma_concat_empty_left(Self::spec_style_outlook_image(*self));
            lemma_concat_empty_left(Self::spec_style_div(*self));
            lemma_concat_empty_left(Self::spec_style_table(*self));
            lemma_concat_empty_left(Self::spec_style_tr(*self));
        }
        let mut res = String::new();
        res.append(conditional_start());
        let part = outlook_table.open();
        res.append(part.as_str());
        let part = outlook_tr.open();
        res.append(part.as_str());
        let part = outlook_td.open();
        res.append(part.as_str());
        let part = v_image.closed();
        res.append(part.as_str());
        res.append(conditional_end());
        let part = div.open();
        res.append(part.as_str());
        let part = table.open();
        res.append(part.as_str());
        let part = tr.open();
        res.append(part.as_str());
        res.append(mode.as_str());
        let part = tr.close();
        res.append(part.as_str());
        let part = table.close();
        res.append(part.as_str());
        let part = div.close();
        res.append(part.as_str());
        res.append(conditional_start());
        let part = outlook_td.close();
        res.append(part.as_str());
        let part = outlook_tr.close();
        res.append(part.as_str());
        let part = outlook_table.close();
        res.append(part.as_str());
        res.append(conditional_end());
        proof {
            assert(res@ =~= spec_render_hero(*self));
        }
        Ok(res)
    }
}

impl BodyElement {
    /// The context assigned to this element, if any.
    pub fn context(&self) -> (r: Option<Context>)
        ensures
            r == spec_ctx_of(*self),
    {
        match self {
            BodyElement::MJHero(h) => h.context,
            BodyElement::MJText(t) => t.context,
            BodyElement::Raw(r) => r.context,
        }
    }

    /// The node's own source attributes; a raw passthrough node has none.
    pub fn source_attributes(&self) -> (r: Option<&Attributes>)
        ensures
            (match *self {
                BodyElement::MJHero(h) => r matches Some(a) && *a == h.attributes,
                BodyElement::MJText(t) => r matches Some(a) && *a == t.attributes,
                BodyElement::Raw(_) => r is None,
            }),
    {
        match self {
            BodyElement::MJHero(h) => Some(&h.attributes),
            BodyElement::MJText(t) => Some(&t.attributes),
            BodyElement::Raw(_) => None,
        }
    }

    /// Looks a style up by its role name; only the hero computes styles.
    pub fn get_style(&self, name: &str) -> (r: Style)
        requires
            spec_el_wf(*self),
        ensures
            r@ == (match *self {
                BodyElement::MJHero(h) => MJHero::spec_style(h, name@),
                _ => Seq::<(Seq<char>, Seq<char>)>::empty(),
            }),
    {
        match self {
            BodyElement::MJHero(h) => h.get_style(name),
            _ => Style::new(),
        }
    }

    /// Resolves one attribute on whatever variant this is.
    pub fn get_attribute(&self, key: &str) -> (r: Option<String>)
        ensures
            spec_opt_view(r) == spec_el_attr(*self, key@),
    {
        match self {
            BodyElement::MJHero(h) => h.get_attribute(key),
            BodyElement::MJText(t) => t.get_attribute(key),
            BodyElement::Raw(_) => None,
        }
    }

    /// Renders this element; a raw node re-emits its source text. Fails
    /// exactly when some node of the subtree has no assigned context.
    pub fn render(&self, header: &Header) -> (r: Result<String, Error>)
        requires
            spec_el_wf(*self),
        ensures
            r is Ok <==> spec_el_assigned(*self),
            r matches Ok(s) ==> s@ == spec_render_el(*self),
            r matches Err(e) ==> e == Error::MissingContext,
        decreases *self, 9int, 0int,
    {
        match self {
            BodyElement::MJHero(h) => h.render(header),
            BodyElement::MJText(t) => t.render(header),
            BodyElement::Raw(r) => r.render(header),
        }
    }
}

/// How many of the given elements are raw passthrough nodes.
pub fn count_raw_children(cs: &Vec<BodyElement>) -> (r: usize)
    ensures
        r as int == spec_count_raw_from(*cs, 0),
        r <= cs.len(),
{
    let mut i = cs.len();
    let mut acc: usize = 0;
    while i > 0
        invariant
            i <= cs.len(),
            acc as int == spec_count_raw_from(*cs, i as int),
            acc as int <= cs.len() - i,
        decreases i,
    {
        i -= 1;
        match cs[i] {
            BodyElement::Raw(_) => {
                acc += 1;
            }
            _ => {}
        }
    }
    acc
}

proof fn lemma_assigned_children_from_forall(
    os: Vec<BodyElement>,
    ns: Vec<BodyElement>,
    cw: Option<Size>,
    i: int,
)
    requires
        ns.len() == os.len(),
        0 <= i,
        forall|j: int|
            i <= j < os.len() ==> #[trigger] spec_assigned_el(
                os[j],
                ns[j],
                spec_child_context(os, cw, j),
            ),
    ensures
        spec_assigned_children(os, ns, cw, i),
    decreases os.len() - i,
{
    if i < os.len() {
        assert(spec_assigned_el(os[i], ns[i], spec_child_context(os, cw, i)));
        lemma_assigned_children_from_forall(os, ns, cw, i + 1);
    }
}

/// After the assignment pass with a well-formed parent context, every node
/// of the new tree has a well-formed context.
pub proof fn lemma_assigned_el_ready(o: BodyElement, n: BodyElement, ctx: Context)
    requires
        spec_assigned_el(o, n, ctx),
        ctx.wf(),
    ensures
        spec_el_assigned(n),
        spec_el_wf(n),
    decreases o, 1int, 0int,
{
    match o {
        BodyElement::MJHero(h) => {
            lemma_assigned_children_ready(
                h.children,
                n->MJHero_0.children,
                ctx.container_width,
                0,
            );
        }
        BodyElement::MJText(t) => {
            lemma_assigned_children_ready(
                t.children,
                n->MJText_0.children,
                ctx.container_width,
                0,
            );
        }
        BodyElement::Raw(_) => {}
    }
}

proof fn lemma_assigned_children_ready(
    os: Vec<BodyElement>,
    ns: Vec<BodyElement>,
    cw: Option<Size>,
    i: int,
)
    requires
        spec_assigned_children(os, ns, cw, i),
        cw matches Some(w) ==> w.wf(),
        0 <= i,
    ensures
        spec_children_assigned(ns, i),
        spec_children_wf(ns, i),
    decreases os, 0int, os.len() - i,
{
    if i < os.len() {
        let cctx = spec_child_context(os, cw, i);
        lemma_count_raw_bounds(os, 0);
        assert(cctx.wf());
        lemma_assigned_el_ready(os[i], ns[i], cctx);
        lemma_assigned_children_ready(os, ns, cw, i + 1);
    }
}

impl RawElement {
    /// Attaches the context the parent computed for this node.
    pub fn assign_context(self, ctx: Context) -> (r: RawElement)
        ensures
            r.content == self.content,
            r.context == Some(ctx),
    {
        RawElement { content: self.content, context: Some(ctx) }
    }
}

impl MJText {
    /// Assigns this node's context and, from it, a fresh context for every
    /// child, top-down in source order.
    pub fn assign_context(self, ctx: Context) -> (r: MJText)
        requires
            ctx.wf(),
        ensures
            spec_assigned_el(BodyElement::MJText(self), BodyElement::MJText(r), ctx),
        decreases self, 11int, 0int,
    {
        let ghost orig = self;
        let MJText { attributes, context: _, children } = self;
        let new_children = assign_children(children, ctx.container_width, Ghost(orig.children));
        MJText { attributes, context: Some(ctx), children: new_children }
    }
}

impl MJHero {
    /// The context assigned to this node, if any.
    pub fn context(&self) -> (r: Option<Context>)
        ensures
            r == self.context,
    {
        self.context
    }

    /// Assigns this node's context and, from it, a fresh context for every
    /// child: the container width this node passes down, the child
    /// generation's sibling and raw-sibling counts, and each child's index.
    pub fn assign_context(self, ctx: Context) -> (r: MJHero)
        requires
            ctx.wf(),
        ensures
            spec_assigned_el(BodyElement::MJHero(self), BodyElement::MJHero(r), ctx),
        decreases self, 11int, 0int,
    {
        let ghost orig = self;
        let MJHero { attributes, context: _, children } = self;
        let new_children = assign_children(children, ctx.container_width, Ghost(orig.children));
        MJHero { attributes, context: Some(ctx), children: new_children }
    }
}

/// Assigns contexts to a container's children: each child receives the
/// container width passed down, the generation's sibling counts, and its
/// own index, then recurses.
pub fn assign_children(
    children: Vec<BodyElement>,
    cw: Option<Size>,
    Ghost(orig): Ghost<Vec<BodyElement>>,
) -> (r: Vec<BodyElement>)
    requires
        cw matches Some(w) ==> w.wf(),
        children == orig,
    ensures
        spec_assigned_children(orig, r, cw, 0),
    decreases orig, 10int, 0int,
{
    let sibling = children.len();
    let raw = count_raw_children(&children);
    proof {
        lemma_count_raw_bounds(orig, 0);
    }
    let mut rest = children;
    let mut done: Vec<BodyElement> = Vec::new();
    let mut idx: usize = 0;
    proof {
        assert(rest@ =~= orig@.skip(0));
    }
    while rest.len() > 0
        invariant
            cw matches Some(w) ==> w.wf(),
            idx + rest@.len() == orig@.len(),
            rest@ == orig@.skip(idx as int),
            done@.len() == idx,
            sibling as int == orig@.len(),
            raw as int == spec_count_raw_from(orig, 0),
            raw <= sibling,
            forall|j: int|
                0 <= j < idx ==> spec_assigned_el(
                    orig[j],
                    #[trigger] done@[j],
                    spec_child_context(orig, cw, j),
                ),
        decreases rest@.len(),
    {
        let c = rest.remove(0);
        proof {
            assert(c == orig@[idx as int]);
            assert(rest@ =~= orig@.skip(idx + 1));
            assert(decreases_to!(orig => c));
        }
        let cctx = Context::new(cw, sibling, raw, idx);
        proof {
            assert(cctx == spec_child_context(orig, cw, idx as int));
        }
        let nc = c.assign_context(cctx);
        done.push(nc);
        idx += 1;
    }
    proof {
        lemma_assigned_children_from_forall(orig, done, cw, 0);
    }
    done
}

impl BodyElement {
    /// Assigns the context the parent computed for this node, then
    /// recurses into the children in source order.
    pub fn assign_context(self, ctx: Context) -> (r: BodyElement)
        requires
            ctx.wf(),
        ensures
            spec_assigned_el(self, r, ctx),
        decreases self, 12int, 0int,
    {
        match self {
            BodyElement::MJHero(h) => BodyElement::MJHero(h.assign_context(ctx)),
            BodyElement::MJText(t) => BodyElement::MJText(t.assign_context(ctx)),
            BodyElement::Raw(rw) => BodyElement::Raw(rw.assign_context(ctx)),
        }
    }

    /// The header facts this subtree contributes. None of the body
    /// variants introduces fonts, a breakpoint or a title, so the
    /// collected header is empty; the fold mirrors the pass's shape.
    pub fn to_header(&self) -> (r: Header)
        ensures
            crate::header::spec_fonts(r) == Seq::<Seq<char>>::empty(),
            r.breakpoint is None,
            r.title is None,
        decreases *self, 13int, 0int,
    {
        let mut hd = Header::new();
        match self {
            BodyElement::MJHero(h) => {
                let n = h.children.len();
                let mut i: usize = 0;
                while i < n
                    invariant
                        i <= n,
                        n == h.children.len(),
                        *self == BodyElement::MJHero(*h),
                        crate::header::spec_fonts(hd) == Seq::<Seq<char>>::empty(),
                        hd.breakpoint is None,
                        hd.title is None,
                    decreases n - i,
                {
                    proof {
                        assert(decreases_to!(*self => self->MJHero_0));
                        assert(self->MJHero_0 == *h);
                        assert(decreases_to!(*h => h.children));
                        assert(decreases_to!(h.children => h.children@[i as int]));
                    }
                    let ch = h.children[i].to_header();
                    hd.merge(&ch);
                    i += 1;
                }
            }
            BodyElement::MJText(t) => {
                let n = t.children.len();
                let mut i: usize = 0;
                while i < n
                    invariant
                        i <= n,
                        n == t.children.len(),
                        *self == BodyElement::MJText(*t),
                        crate::header::spec_fonts(hd) == Seq::<Seq<char>>::empty(),
                        hd.breakpoint is None,
                        hd.title is None,
                    decreases n - i,
                {
                    proof {
                        assert(decreases_to!(*self => self->MJText_0));
                        assert(self->MJText_0 == *t);
                        assert(decreases_to!(*t => t.children));
                        assert(decreases_to!(t.children => t.children@[i as int]));
                    }
                    let ch = t.children[i].to_header();
                    hd.merge(&ch);
                    i += 1;
                }
            }
            BodyElement::Raw(_) => {}
        }
        hd
    }
}

impl MJHero {
    /// Folds the children's header contributions into the accumulator.
    pub fn update_header(&self, header: &mut Header)
        ensures
            crate::header::spec_fonts(*final(header)) == crate::header::spec_fonts(
                *old(header),
            ),
            final(header).breakpoint == old(header).breakpoint,
            crate::attributes::spec_opt_view(final(header).title)
                == crate::attributes::spec_opt_view(old(header).title),
        decreases *self, 14int, 0int,
    {
        let n = self.children.len();
        let mut i: usize = 0;
        while i < n
            invariant
                i <= n,
                n == self.children.len(),
                crate::header::spec_fonts(*header) == crate::header::spec_fonts(
                    *old(header),
                ),
                header.breakpoint == old(header).breakpoint,
                crate::attributes::spec_opt_view(header.title)
                    == crate::attributes::spec_opt_view(old(header).title),
            decreases n - i,
        {
            let ch = self.children[i].to_header();
            header.merge(&ch);
            i += 1;
        }
    }
}

/// Relates a source node to the element it parses to: a known tag gives
/// its variant with the node's attributes and recursively parsed children;
/// anything else becomes a raw passthrough of the node's verbatim source
/// text. No context is assigned at parse time.
pub open spec fn spec_parses_to(n: SourceNode, e: BodyElement) -> bool
    decreases n, 1int, 0int,
{
    if n.tag@ == "mj-hero"@ {
        e matches BodyElement::MJHero(h) && h.attributes@ == n.attributes@ && h.context
            is None && spec_parses_children(n.children, h.children, 0)
    } else if n.tag@ == "mj-text"@ {
        e matches BodyElement::MJText(t) && t.attributes@ == n.attributes@ && t.context
            is None && spec_parses_children(n.children, t.children, 0)
    } else {
        e matches BodyElement::Raw(r) && r.content@ == n.source@ && r.context is None
    }
}

pub open spec fn spec_parses_children(
    ns: Vec<SourceNode>,
    es: Vec<BodyElement>,
    i: int,
) -> bool
    decreases ns, 0int, ns.len() - i,
{
    if i >= ns.len() {
        es.len() == ns.len()
    } else {
        0 <= i && i < es.len() && spec_parses_to(ns[i], es[i]) && spec_parses_children(
            ns,
            es,
            i + 1,
        )
    }
}

proof fn lemma_parses_children_from_forall(ns: Vec<SourceNode>, es: Vec<BodyElement>, i: int)
    requires
        es.len() == ns.len(),
        0 <= i,
        forall|j: int| i <= j < ns.len() ==> #[trigger] spec_parses_to(ns[j], es[j]),
    ensures
        spec_parses_children(ns, es, i),
    decreases ns.len() - i,
{
    if i < ns.len() {
        assert(spec_parses_to(ns[i], es[i]));
        lemma_parses_children_from_forall(ns, es, i + 1);
    }
}

/// Parses every child of a source node, in order.
pub fn parse_children(ns: &Vec<SourceNode>) -> (r: Vec<BodyElement>)
    ensures
        spec_parses_children(*ns, r, 0),
    decreases *ns, 2int, 0int,
{
    let mut out: Vec<BodyElement> = Vec::new();
    let n = ns.len();
    let mut i: usize = 0;
    while i < n
        invariant
            i <= n,
            n == ns.len(),
            out@.len() == i,
            forall|j: int| 0 <= j < i ==> #[trigger] spec_parses_to(ns[j], out@[j]),
        decreases n - i,
    {
        proof {
            assert(decreases_to!(ns => ns@[i as int]));
        }
        let e = match BodyElement::parse(&ns[i]) {
            Ok(e) => e,
            Err(_) => {
                proof {
                    assert(false);
                }
                return out;
            }
        };
        out.push(e);
        i += 1;
    }
    proof {
        lemma_parses_children_from_forall(*ns, out, 0);
    }
    out
}

impl MJHero {
    /// Builds a hero from a source node: the node's attributes become the
    /// hero's, the children are parsed in order, and no context is
    /// assigned yet.
    pub fn parse(node: &SourceNode) -> (r: Result<MJHero, Error>)
        ensures
            r matches Ok(h) && h.attributes@ == node.attributes@ && h.context is None
                && spec_parses_children(node.children, h.children, 0),
        decreases *node, 1int, 0int,
    {
        let children = parse_children(&node.children);
        Ok(MJHero::new(node.attributes.duplicate(), children))
    }
}

/// Renders a run of elements back to back, starting at index `i`.
pub fn render_elements_from(cs: &Vec<BodyElement>, header: &Header, i: usize) -> (r: Result<
    String,
    Error,
>)
    requires
        spec_children_wf(*cs, 0),
        i <= cs.len(),
    ensures
        r is Ok <==> spec_children_assigned(*cs, i as int),
        r matches Ok(s) ==> s@ == spec_render_elements(*cs, i as int),
        r matches Err(e) ==> e == Error::MissingContext,
    decreases *cs, 4int, cs.len() - i,
{
    if i == cs.len() {
        return Ok(String::new());
    }
    proof {
        lemma_children_wf_index(*cs, 0, i as int);
    }
    let first = match cs[i].render(header) {
        Ok(s) => s,
        Err(e) => {
            return Err(e);
        }
    };
    let rest = match render_elements_from(cs, header, i + 1) {
        Ok(s) => s,
        Err(e) => {
            return Err(e);
        }
    };
    let mut s = first;
    s.append(rest.as_str());
    Ok(s)
}

impl BodyElement {
    /// Builds the element a source node describes: a known tag gives its
    /// variant; an unrecognized tag within the grammar becomes a raw
    /// passthrough that re-emits the node's source text unchanged.
    pub fn parse(node: &SourceNode) -> (r: Result<BodyElement, Error>)
        ensures
            r matches Ok(e) && spec_parses_to(*node, e),
        decreases *node, 3int, 0int,
    {
        if str_eq(node.tag.as_str(), "mj-hero") {
            match MJHero::parse(node) {
                Ok(h) => Ok(BodyElement::MJHero(h)),
                Err(e) => {
                    proof {
                        assert(false);
                    }
                    Err(e)
                }
            }
        } else if str_eq(node.tag.as_str(), "mj-text") {
            let children = parse_children(&node.children);
            Ok(BodyElement::MJText(MJText::new(node.attributes.duplicate(), children)))
        } else {
            Ok(BodyElement::Raw(RawElement::new(node.source.clone())))
        }
    }
}

} // verus!

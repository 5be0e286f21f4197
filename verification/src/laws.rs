//! Properties of the render pass, stated and proved once for all trees.

use vstd::prelude::*;

use crate::element::{
    spec_render_content, spec_render_el, spec_render_hero, spec_render_mode, BodyElement,
    MJHero,
};
use crate::tag::{spec_close_str, spec_closed_str, spec_open_str, spec_wrap_str};

verus! {

/// Rendering is idempotent: the markup is a function of the assigned tree
/// alone, so rendering the same tree twice yields byte-identical output.
pub proof fn lemma_render_idempotent(e: BodyElement, s1: Seq<char>, s2: Seq<char>)
    requires
        s1 == spec_render_el(e),
        s2 == spec_render_el(e),
    ensures
        s1 == s2,
{
}

/// A block between the conditional-comment markers: only the legacy
/// rendering engine sees it.
pub open spec fn spec_conditional(x: Seq<char>) -> Seq<char> {
    "<!--[if mso | IE]>"@ + x + "<![endif]-->"@
}

/// The legacy-only markup a hero opens with: the fallback table down to
/// its absolutely positioned background image.
pub open spec fn spec_hero_legacy_open(h: MJHero) -> Seq<char> {
    spec_open_str(
        "table"@,
        MJHero::spec_outlook_table_attrs(h),
        MJHero::spec_style_outlook_table(h),
    ) + spec_open_str("tr"@, Seq::empty(), Seq::empty()) + spec_open_str(
        "td"@,
        Seq::empty(),
        MJHero::spec_style_outlook_td(h),
    ) + spec_closed_str("v:image"@, MJHero::spec_v_image_attrs(h), MJHero::spec_style_outlook_image(h))
}

/// The modern flow markup of a hero, seen by every other client.
pub open spec fn spec_hero_modern(h: MJHero) -> Seq<char> {
    spec_open_str("div"@, MJHero::spec_div_attrs(h), MJHero::spec_style_div(h))
        + spec_open_str("table"@, Seq::empty(), MJHero::spec_style_table(h)) + spec_open_str(
        "tr"@,
        Seq::empty(),
        MJHero::spec_style_tr(h),
    ) + spec_render_mode(h) + spec_close_str("tr"@) + spec_close_str("table"@)
        + spec_close_str("div"@)
}

/// The legacy-only markup a hero closes with.
pub open spec fn spec_hero_legacy_close(h: MJHero) -> Seq<char> {
    spec_close_str("td"@) + spec_close_str("tr"@) + spec_close_str("table"@)
}

/// A hero's markup decomposes exactly into a legacy block strictly between
/// conditional-comment markers, the modern markup strictly outside them,
/// and a closing legacy block again strictly between markers, in that
/// fixed order.
#[verifier::rlimit(100)]
pub proof fn lemma_hero_conditional_blocks(h: MJHero)
    ensures
        spec_render_hero(h) == spec_conditional(spec_hero_legacy_open(h)) + spec_hero_modern(
            h,
        ) + spec_conditional(spec_hero_legacy_close(h)),
{
    assert(spec_render_hero(h) =~= spec_conditional(spec_hero_legacy_open(h))
        + spec_hero_modern(h) + spec_conditional(spec_hero_legacy_close(h)));
}

/// The legacy-only markup the hero's content block opens with.
pub open spec fn spec_content_legacy_open(h: MJHero) -> Seq<char> {
    spec_open_str(
        "table"@,
        MJHero::spec_content_table_attrs(h),
        MJHero::spec_style_outlook_table(h),
    ) + spec_open_str("tr"@, Seq::empty(), Seq::empty()) + spec_open_str(
        "td"@,
        Seq::empty(),
        MJHero::spec_style_outlook_inner_td(h),
    )
}

/// The modern markup of the hero's content block.
pub open spec fn spec_content_modern(h: MJHero) -> Seq<char> {
    spec_wrap_str(
        "div"@,
        MJHero::spec_inner_div_attrs(h),
        MJHero::spec_style_inner_div(h),
        spec_wrap_str(
            "table"@,
            Seq::empty(),
            MJHero::spec_style_inner_table(h),
            spec_wrap_str(
                "tr"@,
                Seq::empty(),
                Seq::empty(),
                spec_wrap_str(
                    "td"@,
                    Seq::empty(),
                    Seq::empty(),
                    spec_wrap_str(
                        "table"@,
                        Seq::empty(),
                        MJHero::spec_style_inner_table(h),
                        crate::element::spec_render_children(h.children, 0),
                    ),
                ),
            ),
        ),
    )
}

/// The legacy-only markup the content block closes with.
pub open spec fn spec_content_legacy_close(h: MJHero) -> Seq<char> {
    spec_close_str("td"@) + spec_close_str("tr"@) + spec_close_str("table"@)
}

/// The hero's content block decomposes the same way: legacy markup
/// strictly between the markers, modern markup strictly outside them.
#[verifier::rlimit(100)]
pub proof fn lemma_content_conditional_blocks(h: MJHero)
    ensures
        spec_render_content(h) == spec_conditional(spec_content_legacy_open(h))
            + spec_content_modern(h) + spec_conditional(spec_content_legacy_close(h)),
{
    assert(spec_render_content(h) =~= spec_conditional(spec_content_legacy_open(h))
        + spec_content_modern(h) + spec_conditional(spec_content_legacy_close(h)));
}

/// On any single component the same precedence holds: an attribute
/// explicitly set on the source node wins over the component's hardcoded
/// default.
pub proof fn lemma_hero_explicit_attribute_wins(h: MJHero, key: Seq<char>)
    requires
        crate::attributes::spec_lookup(h.attributes@, key) is Some,
    ensures
        MJHero::spec_attr(h, key) == crate::attributes::spec_lookup(h.attributes@, key),
{
}

} // verus!

//! Rendering scenarios for the hero and body components.

use mjml::{BodyElement, Context, Header, MJBody, MJHero, Size, SourceNode};

fn hero_node() -> SourceNode {
    SourceNode::new("mj-hero", "")
}

fn render_hero(node: &SourceNode) -> String {
    let hero = MJHero::parse(node).unwrap();
    let ctx = Context::new(Some(Size::Pixel(60000)), 1, 0, 0);
    let hero = hero.assign_context(ctx);
    hero.render(&Header::new()).unwrap()
}

fn render_body(node: &SourceNode) -> String {
    let body = MJBody::parse(node).unwrap();
    let ctx = Context::new(None, 1, 0, 0);
    let body = body.assign_context(ctx);
    body.render(&Header::new()).unwrap()
}

fn body_with_text(attrs: &[(&str, &str)]) -> SourceNode {
    let mut node = SourceNode::new("mj-body", "");
    for (k, v) in attrs {
        node.add_attribute(k, v);
    }
    node.add_child(SourceNode::new("", "Hello World"));
    node
}

#[test]
fn base() {
    let expected = "<!--[if mso | IE]>\
<table align=\"center\" width=\"600\" style=\"width:600px;\">\
<tr>\
<td style=\"line-height:0;font-size:0;mso-line-height-rule:exactly;\">\
<v:image xmlns:v=\"urn:schemas-microsoft-com:vml\" style=\"border:0;\
mso-position-horizontal:center;position:absolute;top:0;width:600px;\
z-index:-3;\" />\
<![endif]-->\
<div style=\"margin:0 auto;max-width:600px;\">\
<table style=\"width:100%;\">\
<tr style=\"vertical-align:top;\">\
<td height=\"0\" style=\"background:#ffffff;background-position:center center;\
background-repeat:no-repeat;padding:0px;vertical-align:top;\">\
<!--[if mso | IE]>\
<table border=\"0\" cellpadding=\"0\" cellspacing=\"0\" width=\"600\" \
style=\"width:600px;\"><tr><td>\
<![endif]-->\
<div class=\"mj-hero-content\" style=\"margin:0px auto;\">\
<table style=\"width:100%;margin:0px;\"><tr><td>\
<table style=\"width:100%;margin:0px;\"></table>\
</td></tr></table></div>\
<!--[if mso | IE]>\
</td></tr></table>\
<![endif]-->\
</td>\
</tr></table></div>\
<!--[if mso | IE]>\
</td></tr></table>\
<![endif]-->";
    assert_eq!(expected, render_hero(&hero_node()));
}

#[test]
fn mj_hero_with_background_color() {
    let mut node = hero_node();
    node.add_attribute("background-color", "#2A3448");
    let out = render_hero(&node);
    assert!(out.contains(
        "style=\"background:#2A3448;background-position:center center;\
         background-repeat:no-repeat;padding:0px;vertical-align:top;\""
    ));
}

#[test]
fn with_background_height() {
    let mut node = hero_node();
    node.add_attribute("mode", "fluid");
    node.add_attribute("background-height", "300px");
    node.add_attribute("background-width", "600px");
    let out = render_hero(&node);
    // the fluid spacer cells carry the background aspect ratio
    assert!(out.contains(
        "<td style=\"mso-padding-bottom-alt:0;padding-bottom:50;width:0.01%;\" />"
    ));
    // the legacy image keeps the declared height
    assert!(out.contains("height:300px;"));
}

#[test]
fn with_background_position() {
    let mut node = hero_node();
    node.add_attribute("background-position", "top center");
    let out = render_hero(&node);
    assert!(out.contains("background-position:top center;"));
    assert!(!out.contains("center center"));
}

#[test]
fn with_background_url() {
    let mut node = hero_node();
    node.add_attribute("background-url", "https://imgs.test/hero.png");
    let out = render_hero(&node);
    assert!(out.contains(
        "background:#ffffff url(https://imgs.test/hero.png) no-repeat center center / cover;"
    ));
    assert!(out.contains("src=\"https://imgs.test/hero.png\""));
    assert!(out.contains("<td background=\"https://imgs.test/hero.png\""));
}

#[test]
fn with_background_width() {
    let mut node = hero_node();
    node.add_attribute("background-width", "800px");
    let out = render_hero(&node);
    // the declared background width wins over the container width in the
    // legacy image
    assert!(out.contains(
        "style=\"border:0;mso-position-horizontal:center;position:absolute;top:0;\
         width:800px;z-index:-3;\""
    ));
}

#[test]
fn mj_hero_with_class() {
    let mut node = hero_node();
    node.add_attribute("css-class", "hero-class");
    let out = render_hero(&node);
    assert!(out.contains("<div class=\"hero-class\" style=\"margin:0 auto;max-width:600px;\">"));
}

#[test]
fn with_height() {
    let mut node = hero_node();
    node.add_attribute("height", "300px");
    let out = render_hero(&node);
    assert!(out.contains("<td height=\"300\""));
}

#[test]
fn with_mode() {
    let mut node = hero_node();
    node.add_attribute("mode", "fluid");
    let out = render_hero(&node);
    // the fluid layout has hairline spacer cells and no fixed height
    assert!(out.contains("<td style=\"mso-padding-bottom-alt:0;width:0.01%;\" />"));
    assert!(!out.contains("height=\""));
}

#[test]
fn with_vertical_align() {
    let mut node = hero_node();
    node.add_attribute("vertical-align", "middle");
    let out = render_hero(&node);
    assert!(out.contains("vertical-align:middle;"));
    assert!(out.contains("<tr style=\"vertical-align:top;\">"));
}

#[test]
fn mj_hero_with_width() {
    let mut node = hero_node();
    node.add_attribute("width", "400px");
    let out = render_hero(&node);
    assert!(out.contains("<div class=\"mj-hero-content\" style=\"margin:0px auto;width:400px;\">"));
}

#[test]
fn basic() {
    let node = body_with_text(&[]);
    assert_eq!("<body><div>Hello World</div></body>", render_body(&node));
}

#[test]
fn mj_body_with_background_color() {
    let node = body_with_text(&[("background-color", "#ffffff")]);
    assert_eq!(
        "<body style=\"background-color:#ffffff;\">\
         <div style=\"background-color:#ffffff;\">Hello World</div></body>",
        render_body(&node)
    );
}

#[test]
fn mj_body_with_class() {
    let node = body_with_text(&[("css-class", "body-class")]);
    assert_eq!(
        "<body><div class=\"body-class\">Hello World</div></body>",
        render_body(&node)
    );
}

#[test]
fn mj_body_with_width() {
    let mut node = SourceNode::new("mj-body", "");
    node.add_attribute("width", "800px");
    node.add_child(SourceNode::new("mj-hero", ""));
    let out = render_body(&node);
    // the body's width is the container width its children see
    assert!(out.contains("max-width:800px;"));
    assert!(out.starts_with("<body><div>"));
}

#[test]
fn hero_fixed_height_subtracts_vertical_padding() {
    let mut node = hero_node();
    node.add_attribute("height", "300px");
    node.add_attribute("padding", "20px");
    let out = render_hero(&node);
    assert!(out.contains("<td height=\"280\""));
}

#[test]
fn unknown_tag_passes_through_verbatim() {
    let source = "<marquee scrolls=\"yes\">  keep\n\tthis text as is  </marquee>";
    let node = SourceNode::new("marquee", source);
    let el = BodyElement::parse(&node).unwrap();
    let el = el.assign_context(Context::new(None, 1, 1, 0));
    assert_eq!(source, el.render(&Header::new()).unwrap());
}

#[test]
fn rendering_is_idempotent() {
    let mut node = hero_node();
    node.add_attribute("background-url", "https://imgs.test/x.png");
    node.add_child(SourceNode::new("", "inner text"));
    let hero = MJHero::parse(&node).unwrap();
    let hero = hero.assign_context(Context::new(Some(Size::Pixel(60000)), 1, 0, 0));
    let first = hero.render(&Header::new()).unwrap();
    let second = hero.render(&Header::new()).unwrap();
    assert_eq!(first, second);
}

#[test]
fn render_before_assignment_is_rejected() {
    let hero = MJHero::parse(&hero_node()).unwrap();
    assert_eq!(Err(mjml::Error::MissingContext), hero.render(&Header::new()));
    let body = MJBody::parse(&body_with_text(&[])).unwrap();
    assert!(body.render(&Header::new()).is_err());
}

#[test]
fn child_render_failure_propagates() {
    // children parsed under the hero but never assigned a context
    let mut node = hero_node();
    node.add_child(SourceNode::new("", "text"));
    let hero = MJHero::parse(&node).unwrap();
    let hero = MJHero::new(hero.attributes, hero.children);
    // hand-build a hero whose own context is set but whose child's is not
    let mut broken = hero;
    broken.context = Some(Context::new(None, 1, 1, 0));
    assert_eq!(Err(mjml::Error::MissingContext), broken.render(&Header::new()));
}

#[test]
fn legacy_block_sits_between_conditional_markers() {
    let out = render_hero(&hero_node());
    let start = "<!--[if mso | IE]>";
    let end = "<![endif]-->";
    // the markup opens with a marker pair around the legacy table and image
    assert!(out.starts_with(start));
    let first_end = out.find(end).unwrap();
    let v_image = out.find("<v:image").unwrap();
    assert!(v_image < first_end);
    // the modern markup follows strictly after the first marker pair
    let modern = out.find("<div style=\"margin:0 auto;").unwrap();
    assert!(first_end < modern);
    // the closing legacy block is again between markers, after the modern part
    let second_start = out[modern..].find(start).unwrap() + modern;
    let closing_legacy = out[second_start..].find("</td></tr></table>").unwrap() + second_start;
    let last_end = out.rfind(end).unwrap();
    assert!(modern < second_start);
    assert!(second_start < closing_legacy);
    assert!(closing_legacy < last_end);
    assert!(out.ends_with(end));
}

#[test]
fn no_empty_style_attribute_in_output() {
    let out = render_body(&body_with_text(&[]));
    assert!(!out.contains("style=\"\""));
    let out = render_hero(&hero_node());
    assert!(!out.contains("style=\"\""));
}

#[test]
fn hero_without_container_width_degrades() {
    let hero = MJHero::parse(&hero_node()).unwrap();
    let hero = hero.assign_context(Context::new(None, 1, 0, 0));
    let out = hero.render(&Header::new()).unwrap();
    // no width constraint anywhere: the outer div gets no max-width
    assert!(out.contains("<div style=\"margin:0 auto;\">"));
    assert!(!out.contains("max-width"));
}

#[test]
fn raw_sibling_counts_reach_children() {
    let mut node = SourceNode::new("mj-body", "");
    node.add_child(SourceNode::new("", "raw one"));
    node.add_child(SourceNode::new("mj-hero", ""));
    let body = MJBody::parse(&node).unwrap();
    let body = body.assign_context(Context::new(None, 1, 0, 0));
    match &body.children[1] {
        BodyElement::MJHero(h) => {
            let ctx = h.context().unwrap();
            assert_eq!(2, ctx.sibling_count);
            assert_eq!(1, ctx.raw_sibling_count);
            assert_eq!(1, ctx.index);
            assert_eq!(Some(Size::Pixel(60000)), ctx.container_width);
        }
        _ => panic!("expected a hero"),
    }
}

//! Unit-level checks: sizes, styles, attributes, width distribution, header.

use mjml::attributes::{resolve_attribute, resolve_node_attribute};
use mjml::DocumentDefaults;
use mjml::{distribute_widths, Attributes, DeclaredWidth, Header, Size, Style, Tag};

#[test]
fn size_parses_pixels_percent_and_raw() {
    assert_eq!(Some(Size::Pixel(60000)), Size::parse("600px"));
    assert_eq!(Some(Size::Percent(5000)), Size::parse("50%"));
    assert_eq!(Some(Size::Percent(250)), Size::parse("2.5%"));
    assert_eq!(Some(Size::Raw(1234)), Size::parse("12.34"));
    assert_eq!(Some(Size::Pixel(-500)), Size::parse("-5px"));
    assert_eq!(Some(Size::Pixel(1)), Size::parse("0.01px"));
}

#[test]
fn size_rejects_text_that_is_not_a_size() {
    assert_eq!(None, Size::parse(""));
    assert_eq!(None, Size::parse("abc"));
    assert_eq!(None, Size::parse("12.345px"));
    assert_eq!(None, Size::parse("12..3"));
    assert_eq!(None, Size::parse("px"));
    assert_eq!(None, Size::parse("1 0px"));
    assert_eq!(None, Size::parse("9999999px"));
}

#[test]
fn size_renders_its_notation() {
    assert_eq!("600px", Size::Pixel(60000).to_string());
    assert_eq!("50%", Size::Percent(5000).to_string());
    assert_eq!("2.5%", Size::Percent(250).to_string());
    assert_eq!("12.34", Size::Raw(1234).to_string());
    assert_eq!("-5px", Size::Pixel(-500).to_string());
    assert_eq!("280", Size::Pixel(28000).value_string());
}

#[test]
fn empty_style_serializes_to_empty_string() {
    let style = Style::new();
    assert_eq!("", style.to_string());
    assert!(style.is_empty());
}

#[test]
fn style_keeps_insertion_order_and_skips_absent_values() {
    let mut style = Style::new();
    style.set("margin", "0 auto");
    style.maybe_set("max-width", None);
    style.maybe_set("width", Some("100%".to_string()));
    assert_eq!("margin:0 auto;width:100%;", style.to_string());
}

#[test]
fn tag_with_no_styles_has_no_style_attribute() {
    let tag = Tag::new("td").set_attribute("align", "left");
    assert_eq!("<td align=\"left\">", tag.open());
    assert_eq!("</td>", tag.close());
    assert_eq!("<td align=\"left\" />", tag.closed());
    assert_eq!("<td align=\"left\">x</td>", tag.render("x".to_string()));
}

#[test]
fn tag_emits_styles_last() {
    let mut style = Style::new();
    style.set("width", "100%");
    let tag = Tag::table().set_attribute("border", "0").insert_style(&style);
    assert_eq!("<table border=\"0\" style=\"width:100%;\">", tag.open());
}

#[test]
fn explicit_attribute_wins_over_both_defaults() {
    let mut source = Attributes::new();
    source.set("padding", "10px");
    let mut doc = Attributes::new();
    doc.set("padding", "20px");
    let got = resolve_attribute(&source, &doc, Some("30px".to_string()), "padding");
    assert_eq!(Some("10px".to_string()), got);
}

#[test]
fn document_default_wins_over_hardcoded_default() {
    let source = Attributes::new();
    let mut doc = Attributes::new();
    doc.set("padding", "20px");
    let got = resolve_attribute(&source, &doc, Some("30px".to_string()), "padding");
    assert_eq!(Some("20px".to_string()), got);
    let empty_doc = Attributes::new();
    let got = resolve_attribute(&source, &empty_doc, Some("30px".to_string()), "padding");
    assert_eq!(Some("30px".to_string()), got);
    let got = resolve_attribute(&source, &empty_doc, None, "padding");
    assert_eq!(None, got);
}

#[test]
fn document_override_applies_per_tag_name() {
    let mut section_defaults = Attributes::new();
    section_defaults.set("padding", "20px");
    let mut document = DocumentDefaults::new();
    document.add_tag("mj-section", section_defaults);
    let source = Attributes::new();
    // a node of the declared tag inherits the override
    let got = resolve_node_attribute(&source, &document, "mj-section", None, "padding");
    assert_eq!(Some("20px".to_string()), got);
    // a node of another tag falls through to the hardcoded default
    let got = resolve_node_attribute(
        &source,
        &document,
        "mj-hero",
        Some("0px".to_string()),
        "padding",
    );
    assert_eq!(Some("0px".to_string()), got);
    // and the explicit source attribute still wins
    let mut explicit = Attributes::new();
    explicit.set("padding", "5px");
    let got = resolve_node_attribute(&explicit, &document, "mj-section", None, "padding");
    assert_eq!(Some("5px".to_string()), got);
}

#[test]
fn attribute_absence_is_not_empty_string() {
    let mut attrs = Attributes::new();
    attrs.set("alt", "");
    assert_eq!(Some(String::new()), attrs.get("alt"));
    assert_eq!(None, attrs.get("title"));
}

#[test]
fn percent_widths_share_the_container() {
    let declared = vec![DeclaredWidth::Percent(5000), DeclaredWidth::Percent(3000)];
    let widths = distribute_widths(60000, &declared);
    assert_eq!(vec![30000, 18000], widths);
    assert!(widths.iter().sum::<u64>() <= 60000);
}

#[test]
fn auto_children_split_the_remaining_width() {
    let declared = vec![
        DeclaredWidth::Pixel(20000),
        DeclaredWidth::Auto,
        DeclaredWidth::Auto,
    ];
    assert_eq!(vec![20000, 20000, 20000], distribute_widths(60000, &declared));
    // nothing left: the auto children get nothing
    let declared = vec![DeclaredWidth::Pixel(70000), DeclaredWidth::Auto];
    assert_eq!(vec![70000, 0], distribute_widths(60000, &declared));
}

#[test]
fn header_merge_keeps_fonts_distinct_and_first_values() {
    let mut a = Header::new();
    a.add_font(&"Roboto".to_string());
    a.maybe_set_title(Some("first".to_string()));
    let mut b = Header::new();
    b.add_font(&"Open Sans".to_string());
    b.add_font(&"Roboto".to_string());
    b.maybe_set_breakpoint(Some(Size::Pixel(48000)));
    b.maybe_set_title(Some("second".to_string()));
    a.merge(&b);
    assert_eq!(vec!["Roboto".to_string(), "Open Sans".to_string()], a.fonts);
    assert_eq!(Some(Size::Pixel(48000)), a.breakpoint);
    assert_eq!(Some("first".to_string()), a.title);
}

#[test]
fn accordion_title_starts_empty() {
    let mut attrs = Attributes::new();
    attrs.set("css-class", "title");
    let title = mjml::MJAccordionTitle::new(attrs);
    assert_eq!("", title.content);
    assert!(title.context.is_none());
}

#[test]
fn error_has_a_message() {
    assert_eq!(
        "node rendered before its context was assigned",
        mjml::Error::MissingContext.message()
    );
}

use numbat_kernel::classify::{CSSClass, TermColor, TerminalColorSpec};
use numbat_kernel::html::HtmlFormatter;
use numbat_kernel::markup::{Fragment, Markup, StyleTag};

fn markup_of(parts: Vec<(StyleTag, &str)>) -> Markup {
    let mut m = Markup::new();
    for (style, text) in parts {
        m.push(Fragment::new(style, text.to_string()));
    }
    m
}

#[test]
fn style_tag_classes_are_total_and_namespaced() {
    assert_eq!(StyleTag::Whitespace.cssclass(), Some("numbat-whitespace".to_string()));
    assert_eq!(StyleTag::Emphasized.cssclass(), Some("numbat-emphasized".to_string()));
    assert_eq!(StyleTag::Dimmed.cssclass(), Some("numbat-dimmed".to_string()));
    assert_eq!(StyleTag::PlainText.cssclass(), Some("numbat-text".to_string()));
    assert_eq!(StyleTag::StringLit.cssclass(), Some("numbat-string".to_string()));
    assert_eq!(StyleTag::Keyword.cssclass(), Some("numbat-keyword".to_string()));
    assert_eq!(StyleTag::Value.cssclass(), Some("numbat-value".to_string()));
    assert_eq!(StyleTag::Unit.cssclass(), Some("numbat-unit".to_string()));
    assert_eq!(StyleTag::Identifier.cssclass(), Some("numbat-identifier".to_string()));
    assert_eq!(StyleTag::TypeIdentifier.cssclass(), Some("numbat-type-identifier".to_string()));
    assert_eq!(StyleTag::Operator.cssclass(), Some("numbat-operator".to_string()));
    assert_eq!(StyleTag::Decorator.cssclass(), Some("numbat-decorator".to_string()));
}

#[test]
fn style_tag_classification_is_deterministic() {
    for tag in [StyleTag::Operator, StyleTag::Value, StyleTag::Whitespace, StyleTag::Decorator] {
        let first = tag.cssclass();
        let second = tag.cssclass();
        assert_eq!(first, second);
    }
}

#[test]
fn color_spec_red_wins_over_bold() {
    let spec = TerminalColorSpec { fg: Some(TermColor::Red), bold: true };
    assert_eq!(spec.cssclass(), Some("numbat-diagnostic-red".to_string()));
}

#[test]
fn color_spec_priority_order() {
    let red = TerminalColorSpec { fg: Some(TermColor::Red), bold: false };
    assert_eq!(red.cssclass(), Some("numbat-diagnostic-red".to_string()));
    let blue_bold = TerminalColorSpec { fg: Some(TermColor::Blue), bold: true };
    assert_eq!(blue_bold.cssclass(), Some("numbat-diagnostic-blue".to_string()));
    let bold_only = TerminalColorSpec { fg: None, bold: true };
    assert_eq!(bold_only.cssclass(), Some("numbat-diagnostic-bold".to_string()));
    let green_bold = TerminalColorSpec { fg: Some(TermColor::Green), bold: true };
    assert_eq!(green_bold.cssclass(), Some("numbat-diagnostic-bold".to_string()));
    let plain = TerminalColorSpec { fg: Some(TermColor::Green), bold: false };
    assert_eq!(plain.cssclass(), None);
    let idle = TerminalColorSpec { fg: None, bold: false };
    assert_eq!(idle.cssclass(), None);
}

#[test]
fn html_renders_one_span_per_fragment_in_order() {
    let m = markup_of(vec![
        (StyleTag::Operator, "="),
        (StyleTag::Whitespace, " "),
        (StyleTag::Value, "20"),
    ]);
    let fmt = HtmlFormatter;
    let html = fmt.format(&m, false);
    let expected = "<span class=\"numbat-operator\">=</span><span class=\"numbat-whitespace\"> </span><span class=\"numbat-value\">20</span>";
    assert_eq!(html, expected);
}

#[test]
fn html_escapes_markup_significant_characters() {
    let m = markup_of(vec![(StyleTag::PlainText, "a<b&c>d")]);
    let fmt = HtmlFormatter;
    let html = fmt.format(&m, false);
    assert_eq!(html, "<span class=\"numbat-text\">a&lt;b&amp;c&gt;d</span>");
}

#[test]
fn html_leaves_quotes_and_plain_text_untouched() {
    let m = markup_of(vec![(StyleTag::StringLit, "say \"hi\" now")]);
    let fmt = HtmlFormatter;
    let html = fmt.format(&m, false);
    assert_eq!(html, "<span class=\"numbat-string\">say \"hi\" now</span>");
}

#[test]
fn html_empty_markup_renders_empty_output() {
    let m = Markup::new();
    let fmt = HtmlFormatter;
    assert_eq!(fmt.format(&m, false), "");
    assert_eq!(fmt.format(&m, true), "  ");
}

#[test]
fn html_indent_mode_prefixes_and_reindents_after_newline() {
    let m = markup_of(vec![(StyleTag::Whitespace, "\n"), (StyleTag::Value, "3")]);
    let fmt = HtmlFormatter;
    let html = fmt.format(&m, true);
    assert_eq!(
        html,
        "  <span class=\"numbat-whitespace\">\n</span>  <span class=\"numbat-value\">3</span>"
    );
}

#[test]
fn html_format_part_renders_single_fragment() {
    let fmt = HtmlFormatter;
    let part = Fragment::new(StyleTag::Keyword, "let".to_string());
    assert_eq!(fmt.format_part(&part), "<span class=\"numbat-keyword\">let</span>");
}

use codespan_reporting::term::termcolor::{Color, ColorSpec, WriteColor};
use codespan_reporting::term::{emit, Config};
use numbat_kernel::classify::{TermColor, TerminalColorSpec};
use numbat_kernel::html::HtmlFormatter;
use numbat_kernel::markup::{Fragment, Markup, StyleTag};
use numbat_kernel::node::{NodeFormatter, OutputNode};
use numbat_kernel::session::{
    names_markup, sort_names, success_nodes, tidy_completions, to_typed, FailureKind, Numbat,
    RenderedOutcome,
};
use numbat_kernel::CompletionType;

fn term_spec_of(spec: &ColorSpec) -> TerminalColorSpec {
    let fg = spec.fg().map(|c| match c {
        Color::Black => TermColor::Black,
        Color::Blue => TermColor::Blue,
        Color::Green => TermColor::Green,
        Color::Red => TermColor::Red,
        Color::Cyan => TermColor::Cyan,
        Color::Magenta => TermColor::Magenta,
        Color::Yellow => TermColor::Yellow,
        Color::White => TermColor::White,
        Color::Ansi256(v) => TermColor::Ansi256(*v),
        Color::Rgb(r, g, b) => TermColor::Rgb(*r, *g, *b),
        _ => TermColor::White,
    });
    TerminalColorSpec { fg, bold: spec.bold() }
}

struct EmitSink {
    fmt: NodeFormatter,
}

impl std::io::Write for EmitSink {
    fn write(&mut self, buf: &[u8]) -> std::io::Result<usize> {
        Ok(self.fmt.write(buf))
    }

    fn flush(&mut self) -> std::io::Result<()> {
        self.fmt.flush();
        Ok(())
    }
}

impl WriteColor for EmitSink {
    fn supports_color(&self) -> bool {
        self.fmt.supports_color()
    }

    fn set_color(&mut self, spec: &ColorSpec) -> std::io::Result<()> {
        self.fmt.set_color(&term_spec_of(spec));
        Ok(())
    }

    fn reset(&mut self) -> std::io::Result<()> {
        self.fmt.reset();
        Ok(())
    }
}

fn render_result(outcome: &RenderedOutcome) -> String {
    match outcome {
        RenderedOutcome::Success { result, .. } => {
            let fmt = HtmlFormatter;
            fmt.format(result, false)
        }
        RenderedOutcome::Failure { .. } => panic!("expected a success outcome"),
    }
}

#[test]
fn session_renders_a_stored_value() {
    let mut session = Numbat::new(false, false);
    let first = session.interpret("let a = 20");
    assert!(!first.is_error());
    let second = session.interpret("a");
    assert!(!second.is_error());
    let html = render_result(&second);
    assert!(html.contains("<span class=\"numbat-operator\">=</span>"));
    assert!(html.contains("<span class=\"numbat-value\">20</span>"));
}

#[test]
fn cloned_sessions_evolve_independently() {
    let mut session = Numbat::new(false, false);
    assert!(!session.interpret("let a = 20").is_error());
    let mut cloned = session.clone();
    let original_before = render_result(&session.interpret("a"));
    assert!(!cloned.interpret("let a = 100").is_error());
    let original_after = render_result(&session.interpret("a"));
    let cloned_value = render_result(&cloned.interpret("a"));
    assert_eq!(original_before, original_after);
    assert!(original_after.contains("<span class=\"numbat-value\">20</span>"));
    assert!(cloned_value.contains("<span class=\"numbat-value\">100</span>"));
}

#[test]
fn session_reports_type_check_failure() {
    let mut session = Numbat::new(false, false);
    let outcome = session.interpret("a");
    assert!(outcome.is_error());
    match outcome {
        RenderedOutcome::Failure { kind, diagnostics } => {
            assert_eq!(kind, FailureKind::TypeCheck);
            assert!(!diagnostics.is_empty());
        }
        RenderedOutcome::Success { .. } => panic!("expected a failure outcome"),
    }
}

#[test]
fn type_check_diagnostic_renders_with_a_terminal_color_class() {
    let mut session = Numbat::new(false, false);
    let outcome = session.interpret("1 + nothing_defined");
    assert!(outcome.is_error());
    let diagnostics = match outcome {
        RenderedOutcome::Failure { kind, diagnostics } => {
            assert_eq!(kind, FailureKind::TypeCheck);
            diagnostics
        }
        RenderedOutcome::Success { .. } => panic!("expected a failure outcome"),
    };
    let mut error_elem = OutputNode::element("div");
    error_elem.set_class_name("rechner-cell-error");
    let mut sink = EmitSink { fmt: NodeFormatter::new(error_elem) };
    let config = Config::default();
    for diagnostic in &diagnostics {
        emit(&mut sink, &config, &session.ctx.resolver().files, diagnostic).unwrap();
    }
    let node = sink.fmt.into_node();
    assert!(!node.children.is_empty());
    let classes = ["numbat-diagnostic-red", "numbat-diagnostic-blue", "numbat-diagnostic-bold"];
    let mut classed = 0;
    let mut text_len = 0;
    for child in &node.children {
        if classes.contains(&child.class_name.as_str()) {
            classed += 1;
        }
        text_len += child.text.len();
    }
    assert!(classed > 0);
    assert!(text_len > 0);
}

#[test]
fn session_reports_runtime_failure() {
    let mut session = Numbat::new(false, false);
    let outcome = session.interpret("1 / 0");
    match outcome {
        RenderedOutcome::Failure { kind, diagnostics } => {
            assert_eq!(kind, FailureKind::Runtime);
            assert!(!diagnostics.is_empty());
        }
        RenderedOutcome::Success { .. } => panic!("expected a runtime failure"),
    }
}

#[test]
fn session_reports_resolver_failure() {
    let mut session = Numbat::new(false, false);
    let outcome = session.interpret("use no_such_module_anywhere");
    match outcome {
        RenderedOutcome::Failure { kind, .. } => {
            assert_eq!(kind, FailureKind::Resolver);
        }
        RenderedOutcome::Success { .. } => panic!("expected a resolver failure"),
    }
}

#[test]
fn session_reports_name_resolution_failure() {
    let mut session = Numbat::new(false, false);
    let outcome = session.interpret("let ans = 1");
    match outcome {
        RenderedOutcome::Failure { kind, .. } => {
            assert_eq!(kind, FailureKind::NameResolution);
        }
        RenderedOutcome::Success { .. } => panic!("expected a name resolution failure"),
    }
}

#[test]
fn session_collects_printed_markup_in_order() {
    let mut session = Numbat::new(false, false);
    let outcome = session.interpret("print(\"first\")\nprint(\"second\")");
    match outcome {
        RenderedOutcome::Success { printed, .. } => {
            assert_eq!(printed.len(), 2);
        }
        RenderedOutcome::Failure { .. } => panic!("expected a success outcome"),
    }
}

#[test]
fn session_keeps_flags_and_reports_no_prelude_error() {
    let session = Numbat::new(false, false);
    assert!(session.prelude_error.is_none());
    let mut with_prelude = Numbat::new(true, true);
    assert!(with_prelude.prelude_error.is_none());
    with_prelude.interpret("let a = 1");
    assert!(with_prelude.enable_pretty_printing);
    assert!(with_prelude.prelude_error.is_none());
}

#[test]
fn session_completions_contain_keywords() {
    let session = Numbat::new(false, false);
    let completions = session.get_completions_for("le");
    assert!(completions.iter().any(|c| c == "let"));
}

#[test]
fn session_typed_completions_carry_unknown_category() {
    let session = Numbat::new(false, false);
    let typed = session.get_typed_completions_for("le", false);
    assert!(!typed.is_empty());
    assert!(typed.iter().any(|t| t.text == "let "));
    assert!(typed.iter().all(|t| matches!(t.ctype, CompletionType::Unknown)));
}

#[test]
fn completions_with_prelude_strip_parens() {
    let session = Numbat::new(true, false);
    let completions = session.get_completions_for("si");
    assert!(completions.iter().any(|c| c == "sin"));
    assert!(completions.iter().all(|c| !c.ends_with('(')));
}

#[test]
fn tidy_completions_trims_and_strips_parens() {
    let raw = vec!["  sin(  ".to_string(), "cos((".to_string(), "tan".to_string()];
    let tidied = tidy_completions(&raw);
    assert_eq!(tidied, vec!["sin".to_string(), "cos".to_string(), "tan".to_string()]);
}

#[test]
fn to_typed_keeps_text_and_marks_unknown() {
    let raw = vec!["alpha".to_string(), "beta".to_string()];
    let typed = to_typed(&raw);
    assert_eq!(typed.len(), 2);
    assert_eq!(typed[0].text, "alpha");
    assert!(matches!(typed[1].ctype, CompletionType::Unknown));
}

#[test]
fn print_environment_renders_engine_markup() {
    let session = Numbat::new(false, false);
    let html = session.print_environment();
    assert!(html.contains("List of functions"));
    assert!(html.contains("numbat-emphasized"));
}

#[test]
fn print_listing_methods_render_names_one_per_line() {
    let mut session = Numbat::new(false, false);
    let before = session.print_variables();
    assert_eq!(before, "");
    let outcome = session.interpret("let answer = 42");
    assert!(!outcome.is_error());
    let after = session.print_variables();
    assert!(after.contains("<span class=\"numbat-identifier\">answer</span>"));
    assert!(after.contains("<span class=\"numbat-whitespace\">\n</span>"));
}

#[test]
fn print_variables_lists_names_in_case_folded_order() {
    let mut session = Numbat::new(false, false);
    assert!(!session.interpret("let zz = 1").is_error());
    assert!(!session.interpret("let aa = 2").is_error());
    let listing = session.print_variables();
    let first = listing.find("<span class=\"numbat-identifier\">aa</span>").unwrap();
    let second = listing.find("<span class=\"numbat-identifier\">zz</span>").unwrap();
    assert!(first < second);
}

#[test]
fn sort_names_orders_without_regard_to_case_and_keeps_duplicates() {
    let names = vec!["b".to_string(), "A".to_string(), "a".to_string(), "B".to_string()];
    let sorted = sort_names(&names);
    assert_eq!(
        sorted,
        vec!["A".to_string(), "a".to_string(), "b".to_string(), "B".to_string()]
    );
    let with_dup = vec!["m".to_string(), "k".to_string(), "m".to_string()];
    assert_eq!(
        sort_names(&with_dup),
        vec!["k".to_string(), "m".to_string(), "m".to_string()]
    );
}

#[test]
fn help_renders_indented_markup() {
    let session = Numbat::new(false, false);
    let html = session.help();
    assert!(html.starts_with("  "));
    assert!(!html.is_empty());
}

#[test]
fn print_info_renders_for_keyword() {
    let mut session = Numbat::new(true, false);
    let html = session.print_info("sin");
    assert!(!html.is_empty());
}

#[test]
fn names_markup_lists_names_with_line_breaks() {
    let names = vec!["metre".to_string(), "second".to_string()];
    let m = names_markup(&names, StyleTag::Unit);
    assert_eq!(m.len(), 4);
    assert_eq!(m.fragments[0].text, "metre");
    assert_eq!(m.fragments[1].text, "\n");
    assert_eq!(m.fragments[2].text, "second");
    let fmt = HtmlFormatter;
    let html = fmt.format(&m, false);
    assert!(html.contains("<span class=\"numbat-unit\">metre</span>"));
}

#[test]
fn success_nodes_build_printed_and_result_containers() {
    let mut printed_markup = Markup::new();
    printed_markup.push(Fragment::new(StyleTag::PlainText, "hello".to_string()));
    let printed = vec![printed_markup];
    let mut result = Markup::new();
    result.push(Fragment::new(StyleTag::Value, "42".to_string()));
    let nodes = success_nodes(&printed, &result);
    assert_eq!(nodes.len(), 2);
    assert_eq!(nodes[0].tag, "div");
    assert_eq!(nodes[0].class_name, "numbat-printed");
    assert_eq!(nodes[0].children.len(), 1);
    assert_eq!(nodes[0].children[0].tag, "div");
    assert_eq!(nodes[0].children[0].class_name, "");
    assert_eq!(nodes[0].children[0].children[0].text, "hello");
    assert_eq!(nodes[1].class_name, "numbat-result");
    assert_eq!(nodes[1].children[0].class_name, "numbat-value");
    assert_eq!(nodes[1].children[0].text, "42");
}

#[test]
fn success_nodes_empty_outcome_builds_nothing() {
    let printed: Vec<Markup> = vec![];
    let result = Markup::new();
    let nodes = success_nodes(&printed, &result);
    assert!(nodes.is_empty());
}

//! The trusted boundary around the interpreter engine and the few std text
//! functions that vstd gives no specification. Everything here is believed,
//! not proved: each item's doc comment names the outside function relied on.

use vstd::prelude::*;

use numbat::diagnostic::ErrorDiagnostic;

use crate::markup::StyleTag;
use crate::session::FailureKind;

verus! {

#[verifier::external_type_specification]
#[verifier::external_body]
pub struct ExContext(numbat::Context);

#[verifier::external_type_specification]
#[verifier::external_body]
pub struct ExFormattedString(numbat::markup::FormattedString);

#[verifier::external_type_specification]
#[verifier::external_body]
pub struct ExNumbatError(numbat::NumbatError);

#[verifier::external_type_specification]
#[verifier::external_body]
#[verifier::reject_recursive_types(FileId)]
pub struct ExDiagnostic<FileId>(codespan_reporting::diagnostic::Diagnostic<FileId>);

/// What lossy text decoding yields on a byte sequence; a function of the
/// bytes alone.
pub uninterp spec fn lossy_of(bytes: Seq<u8>) -> Seq<char>;

/// Relies on String::from_utf8_lossy: decodes bytes as UTF-8, replacing
/// invalid sequences with the replacement character; the result depends on
/// the bytes alone, an empty input decodes to an empty text, and bytes that
/// are all ASCII decode each to the character with that code.
#[verifier::external_body]
pub(crate) fn lossy_string(bytes: &[u8]) -> (r: String)
    ensures
        r@ == lossy_of(bytes@),
        bytes@.len() == 0 ==> r@.len() == 0,
        (forall|i: int| 0 <= i < bytes@.len() ==> bytes@[i] < 128) ==> (r@.len() == bytes@.len()
            && forall|i: int| 0 <= i < bytes@.len() ==> r@[i] == bytes@[i] as char),
{
    String::from_utf8_lossy(bytes).into_owned()
}

/// What trimming yields on a text; a function of the characters alone.
pub uninterp spec fn trimmed_of(s: Seq<char>) -> Seq<char>;

/// Relies on str::trim: returns the text with leading and trailing
/// whitespace removed, so never longer than the input.
#[verifier::external_body]
pub(crate) fn trim_str(s: &str) -> (r: String)
    ensures
        r@ == trimmed_of(s@),
        r@.len() <= s@.len(),
{
    s.trim().to_string()
}

/// Relies on numbat::Context::new with the builtin module importer: builds a
/// fresh interpreter context.
#[verifier::external_body]
pub(crate) fn ctx_new() -> numbat::Context {
    numbat::Context::new(numbat::module_importer::BuiltinModuleImporter::default())
}

/// Relies on numbat::Context's Clone impl: duplicates the whole interpreter
/// state, so the copy evolves independently of the original.
#[verifier::external_body]
pub(crate) fn ctx_clone(ctx: &numbat::Context) -> numbat::Context {
    ctx.clone()
}

/// Relies on numbat::Context::interpret with the internal code source; used
/// to load builtin modules. The result markup is dropped; a failure comes
/// back as its error text so the host can report it.
#[verifier::external_body]
pub(crate) fn ctx_interpret_internal(ctx: &mut numbat::Context, code: &str) -> (r: Option<String>) {
    match ctx.interpret(code, numbat::resolver::CodeSource::Internal) {
        Ok(_) => None,
        Err(e) => Some(e.to_string()),
    }
}

/// Relies on numbat::Context::set_terminal_width: fixes the width used by
/// the engine's own markup layout.
#[verifier::external_body]
pub(crate) fn ctx_set_terminal_width(ctx: &mut numbat::Context, width: usize) {
    ctx.set_terminal_width(Some(width));
}

/// Relies on numbat::Context::interpret_with_settings to evaluate source
/// text, collecting every print callback invocation in call order, and on
/// InterpreterResult::to_markup (with the context's dimension registry and
/// default format options) to render the final result; each markup is handed
/// out as its fragment list.
#[verifier::external_body]
pub(crate) fn interpret_raw(ctx: &mut numbat::Context, code: &str) -> (r: (
    Vec<Vec<numbat::markup::FormattedString>>,
    Result<Vec<numbat::markup::FormattedString>, Box<numbat::NumbatError>>,
)) {
    let printed = std::sync::Arc::new(std::sync::Mutex::new(Vec::new()));
    let printed_c = printed.clone();
    let mut settings = numbat::InterpreterSettings {
        print_fn: Box::new(move |m: &numbat::markup::Markup| printed_c.lock().unwrap().push(m.clone())),
    };
    let outcome = ctx.interpret_with_settings(&mut settings, code, numbat::resolver::CodeSource::Text);
    let result = outcome.map(|(statements, result)| {
        result.to_markup(statements.last(), ctx.dimension_registry(), true, true, &numbat::FormatOptions::default()).0
    });
    let collected = printed.lock().unwrap().drain(..).map(|m: numbat::markup::Markup| m.0).collect();
    (collected, result)
}

/// Relies on the ErrorDiagnostic impls of numbat's error types (a runtime
/// error renders through numbat's ResolverDiagnostic helper, which needs the
/// context's resolver): each arm names the failure kind of one NumbatError
/// variant and extracts that error's diagnostics.
#[verifier::external_body]
pub(crate) fn failure_parts(ctx: &numbat::Context, error: &numbat::NumbatError) -> (r: (
    FailureKind,
    Vec<codespan_reporting::diagnostic::Diagnostic<usize>>,
)) {
    match error {
        numbat::NumbatError::ResolverError(e) => (FailureKind::Resolver, e.diagnostics()),
        numbat::NumbatError::NameResolutionError(e) => (FailureKind::NameResolution, e.diagnostics()),
        numbat::NumbatError::TypeCheckError(e) => (FailureKind::TypeCheck, e.diagnostics()),
        numbat::NumbatError::RuntimeError(e) => (
            FailureKind::Runtime,
            numbat::diagnostic::ResolverDiagnostic { resolver: ctx.resolver(), error: e }.diagnostics(),
        ),
    }
}

/// Relies on numbat::markup::FormatType: maps each engine style variant to
/// the library's style tag, one arm per variant.
#[verifier::external_body]
pub(crate) fn part_style_tag(part: &numbat::markup::FormattedString) -> StyleTag {
    match part.1 {
        numbat::markup::FormatType::Whitespace => StyleTag::Whitespace,
        numbat::markup::FormatType::Emphasized => StyleTag::Emphasized,
        numbat::markup::FormatType::Dimmed => StyleTag::Dimmed,
        numbat::markup::FormatType::Text => StyleTag::PlainText,
        numbat::markup::FormatType::String => StyleTag::StringLit,
        numbat::markup::FormatType::Keyword => StyleTag::Keyword,
        numbat::markup::FormatType::Value => StyleTag::Value,
        numbat::markup::FormatType::Unit => StyleTag::Unit,
        numbat::markup::FormatType::Identifier => StyleTag::Identifier,
        numbat::markup::FormatType::TypeIdentifier => StyleTag::TypeIdentifier,
        numbat::markup::FormatType::Operator => StyleTag::Operator,
        numbat::markup::FormatType::Decorator => StyleTag::Decorator,
    }
}

/// Relies on the text payload of numbat::markup::FormattedString: copies one
/// fragment's display text.
#[verifier::external_body]
pub(crate) fn part_text(part: &numbat::markup::FormattedString) -> String {
    part.2.to_string()
}

/// Relies on numbat::Context::print_environment: the engine's markup dump of
/// its environment, handed out as its fragment list.
#[verifier::external_body]
pub(crate) fn print_environment_parts(ctx: &numbat::Context) -> Vec<numbat::markup::FormattedString> {
    ctx.print_environment().0
}

/// Relies on numbat::Context::print_info_for_keyword: the engine's markup
/// documentation of one keyword, handed out as its fragment list.
#[verifier::external_body]
pub(crate) fn print_info_parts(ctx: &mut numbat::Context, keyword: &str) -> Vec<numbat::markup::FormattedString> {
    ctx.print_info_for_keyword(keyword).0
}

/// Relies on numbat::help::basic_help_markup: the engine's help text, handed
/// out as its fragment list.
#[verifier::external_body]
pub(crate) fn help_parts() -> Vec<numbat::markup::FormattedString> {
    numbat::help::basic_help_markup().0
}

/// Relies on numbat::Context::function_names: the names of the functions
/// defined in the context.
#[verifier::external_body]
pub(crate) fn function_names(ctx: &numbat::Context) -> Vec<String> {
    ctx.function_names().map(|n| n.to_string()).collect()
}

/// Relies on numbat::Context::variable_names: the names of the variables
/// defined in the context.
#[verifier::external_body]
pub(crate) fn variable_names(ctx: &numbat::Context) -> Vec<String> {
    ctx.variable_names().map(|n| n.to_string()).collect()
}

/// Relies on numbat::Context::dimension_names: the names of the dimensions
/// defined in the context.
#[verifier::external_body]
pub(crate) fn dimension_names(ctx: &numbat::Context) -> Vec<String> {
    ctx.dimension_names().iter().map(|n| n.to_string()).collect()
}

/// Relies on numbat::Context::unit_names: the alias groups of the units
/// defined in the context, one group per unit.
#[verifier::external_body]
pub(crate) fn unit_name_groups(ctx: &numbat::Context) -> Vec<Vec<String>> {
    ctx.unit_names().iter().map(|g| g.iter().map(|n| n.to_string()).collect()).collect()
}

/// Relies on numbat::Context::get_completions_for: collects the engine's
/// completion suggestions for a word prefix.
#[verifier::external_body]
pub(crate) fn completions_raw(ctx: &numbat::Context, word_part: &str, add_paren: bool) -> Vec<String> {
    ctx.get_completions_for(word_part, add_paren).collect()
}

} // verus!

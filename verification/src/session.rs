//! The interpreter session facade: owns one engine context, forwards source
//! text to it, collects printed markup and the result markup, and routes the
//! outcome to the renderers.

use vstd::prelude::*;

use crate::classify::style_class;
use crate::engine::{
    completions_raw, ctx_clone, ctx_interpret_internal, ctx_new, ctx_set_terminal_width,
    dimension_names, failure_parts, function_names, help_parts, interpret_raw,
    part_style_tag, part_text, print_environment_parts, print_info_parts, trim_str, trimmed_of,
    unit_name_groups, variable_names,
};
use crate::html::{html_render, HtmlFormatter};
use crate::markup::{Fragment, Markup, StyleTag};
use crate::node::{is_span, NodeFormatter, OutputNode};
use crate::{CompletionType, TypedCompletion};

verus! {

/// The closed set of failure kinds the engine reports.
#[derive(Clone, Copy, Debug, PartialEq, Eq, Structural)]
pub enum FailureKind {
    Resolver,
    NameResolution,
    TypeCheck,
    Runtime,
}

/// The outcome of one interpretation call: on success, the printed markups
/// in emission order together with the rendered result markup; on failure,
/// the kind the engine reported and its diagnostics, forwarded untouched.
pub enum RenderedOutcome {
    Success { printed: Vec<Markup>, result: Markup },
    Failure {
        kind: FailureKind,
        diagnostics: Vec<codespan_reporting::diagnostic::Diagnostic<usize>>,
    },
}

impl RenderedOutcome {
    /// Whether this outcome is a failure; failures are distinct from
    /// successes that rendered nothing.
    pub fn is_error(&self) -> (r: bool)
        ensures
            r == (self is Failure),
    {
        match self {
            RenderedOutcome::Failure { .. } => true,
            RenderedOutcome::Success { .. } => false,
        }
    }
}

/// Converts one engine fragment list into the library's markup model, one
/// fragment per part, in order.
pub(crate) fn markup_from_parts(parts: &Vec<numbat::markup::FormattedString>) -> (r: Markup)
    ensures
        r.fragments@.len() == parts@.len(),
{
    let mut out = Markup::new();
    let n = parts.len();
    let mut i: usize = 0;
    while i < n
        invariant
            n == parts@.len(),
            i <= n,
            out.fragments@.len() == i,
        decreases n - i,
    {
        let style = part_style_tag(&parts[i]);
        let text = part_text(&parts[i]);
        out.push(Fragment::new(style, text));
        i = i + 1;
    }
    out
}

/// Converts a list of engine fragment lists, keeping order and length.
pub(crate) fn markups_from_parts(lists: &Vec<Vec<numbat::markup::FormattedString>>) -> (r: Vec<
    Markup,
>)
    ensures
        r@.len() == lists@.len(),
        forall|i: int| 0 <= i < lists@.len() ==> #[trigger] r@[i].fragments@.len() == lists@[i]@.len(),
{
    let mut out: Vec<Markup> = Vec::new();
    let n = lists.len();
    let mut i: usize = 0;
    while i < n
        invariant
            n == lists@.len(),
            i <= n,
            out@.len() == i,
            forall|j: int| 0 <= j < i ==> #[trigger] out@[j].fragments@.len() == lists@[j]@.len(),
        decreases n - i,
    {
        out.push(markup_from_parts(&lists[i]));
        i = i + 1;
    }
    out
}

/// Builds a markup that lists the given names, one per line, all styled
/// with the same tag: each name becomes one fragment, followed by one
/// whitespace fragment holding the line break.
pub fn names_markup(names: &Vec<String>, style: StyleTag) -> (r: Markup)
    ensures
        r.fragments@.len() == 2 * names@.len(),
        forall|j: int|
            0 <= j < names@.len() ==> (#[trigger] r.fragments@[2 * j].style == style
                && r.fragments@[2 * j].text@ == names@[j]@),
        forall|j: int|
            0 <= j < names@.len() ==> (#[trigger] r.fragments@[2 * j + 1].style
                == StyleTag::Whitespace && r.fragments@[2 * j + 1].text@ == "\n"@),
{
    let mut out = Markup::new();
    let n = names.len();
    let mut i: usize = 0;
    while i < n
        invariant
            n == names@.len(),
            i <= n,
            out.fragments@.len() == 2 * i,
            forall|j: int|
                0 <= j < i ==> (#[trigger] out.fragments@[2 * j].style == style
                    && out.fragments@[2 * j].text@ == names@[j]@),
            forall|j: int|
                0 <= j < i ==> (#[trigger] out.fragments@[2 * j + 1].style == StyleTag::Whitespace
                    && out.fragments@[2 * j + 1].text@ == "\n"@),
        decreases n - i,
    {
        out.push(Fragment::new(style, names[i].clone()));
        out.push(Fragment::new(StyleTag::Whitespace, String::from_str("\n")));
        i = i + 1;
    }
    out
}


/// The case-folded weight of a character: an ASCII upper-case letter weighs
/// as its lower-case form, every other character as itself.
pub open spec fn fold_lower(c: char) -> u32 {
    if 65 <= c as u32 && c as u32 <= 90 {
        (c as u32 + 32) as u32
    } else {
        c as u32
    }
}

/// The listing order: lexicographic on the case-folded weights.
pub open spec fn key_le(a: Seq<char>, b: Seq<char>) -> bool
    decreases a.len(),
{
    if a.len() == 0 {
        true
    } else if b.len() == 0 {
        false
    } else if fold_lower(a[0]) == fold_lower(b[0]) {
        key_le(a.drop_first(), b.drop_first())
    } else {
        fold_lower(a[0]) < fold_lower(b[0])
    }
}

/// The listing order is total: of any two texts, one comes no later than
/// the other.
pub proof fn lemma_key_le_total(a: Seq<char>, b: Seq<char>)
    ensures
        key_le(a, b) || key_le(b, a),
    decreases a.len(),
{
    if a.len() > 0 && b.len() > 0 && fold_lower(a[0]) == fold_lower(b[0]) {
        lemma_key_le_total(a.drop_first(), b.drop_first());
    }
}

/// The listing order is transitive.
pub proof fn lemma_key_le_trans(a: Seq<char>, b: Seq<char>, c: Seq<char>)
    requires
        key_le(a, b),
        key_le(b, c),
    ensures
        key_le(a, c),
    decreases a.len(),
{
    if a.len() > 0 && b.len() > 0 && c.len() > 0 && fold_lower(a[0]) == fold_lower(b[0])
        && fold_lower(b[0]) == fold_lower(c[0]) {
        lemma_key_le_trans(a.drop_first(), b.drop_first(), c.drop_first());
    }
}

/// The case-folded weight, computed.
fn fold_lower_exec(c: char) -> (r: u32)
    ensures
        r == fold_lower(c),
{
    let u = c as u32;
    if 65 <= u && u <= 90 {
        u + 32
    } else {
        u
    }
}

/// Whether `a` comes no later than `b` in the listing order.
fn key_le_exec(a: &str, b: &str) -> (r: bool)
    ensures
        r == key_le(a@, b@),
{
    let na = a.unicode_len();
    let nb = b.unicode_len();
    let mut i: usize = 0;
    proof {
        assert(a@.skip(0) =~= a@);
        assert(b@.skip(0) =~= b@);
    }
    loop
        invariant
            na == a@.len(),
            nb == b@.len(),
            i <= na,
            i <= nb,
            key_le(a@, b@) == key_le(a@.skip(i as int), b@.skip(i as int)),
        decreases na - i,
    {
        if i >= na {
            proof {
                assert(a@.skip(i as int).len() == 0);
            }
            return true;
        }
        if i >= nb {
            proof {
                assert(b@.skip(i as int).len() == 0);
                assert(a@.skip(i as int).len() > 0);
            }
            return false;
        }
        let ca = fold_lower_exec(a.get_char(i));
        let cb = fold_lower_exec(b.get_char(i));
        proof {
            assert(a@.skip(i as int)[0] == a@[i as int]);
            assert(b@.skip(i as int)[0] == b@[i as int]);
        }
        if ca < cb {
            return true;
        }
        if cb < ca {
            return false;
        }
        proof {
            assert(a@.skip(i as int).drop_first() =~= a@.skip(i + 1));
            assert(b@.skip(i as int).drop_first() =~= b@.skip(i + 1));
        }
        i = i + 1;
    }
}

/// The first place in a sorted listing where the name may stand: every name
/// before it comes no later than the name, and the name at it (when one is
/// there) comes strictly later.
fn insert_position(out: &Vec<String>, name: &str) -> (k: usize)
    ensures
        k <= out@.len(),
        forall|t: int| 0 <= t < k ==> key_le(out@[t]@, name@),
        k < out@.len() ==> !key_le(out@[k as int]@, name@),
{
    let m = out.len();
    let mut k: usize = 0;
    while k < m
        invariant
            m == out@.len(),
            k <= m,
            forall|t: int| 0 <= t < k ==> key_le(out@[t]@, name@),
        decreases m - k,
    {
        if !key_le_exec(out[k].as_str(), name) {
            return k;
        }
        k = k + 1;
    }
    k
}

/// Names listed in the listing order: each one comes no later than any name
/// after it.
pub open spec fn names_sorted(s: Seq<String>) -> bool {
    forall|p: int, q: int| 0 <= p < q < s.len() ==> key_le(s[p]@, s[q]@)
}

/// Inserting a name anywhere adds exactly that name to the multiset of a
/// name list.
proof fn lemma_insert_to_multiset(s: Seq<String>, k: int, x: String)
    requires
        0 <= k <= s.len(),
    ensures
        s.insert(k, x).to_multiset() == s.to_multiset().insert(x),
{
    broadcast use vstd::seq_lib::group_to_multiset_ensures;
    broadcast use vstd::multiset::group_multiset_axioms;

    let t = s.insert(k, x);
    s.insert_ensures(k, x);
    assert(t.remove(k) =~= s);
    assert(t[k] == x);
    assert(t.remove(k).to_multiset() =~= t.to_multiset().remove(x));
    assert(t.contains(x)) by {
        assert(t[k] == x);
    }
    assert(t.to_multiset().count(x) > 0);
    assert forall|a: String| #[trigger] t.to_multiset().count(a) == s.to_multiset().insert(
        x,
    ).count(a) by {
        assert(s.to_multiset().count(a) == t.to_multiset().remove(x).count(a));
    }
    assert(t.to_multiset() =~= s.to_multiset().insert(x));
}

/// Sorts names into the listing order, stably; the result holds exactly the
/// given names.
pub fn sort_names(names: &Vec<String>) -> (r: Vec<String>)
    ensures
        r@.to_multiset() == names@.to_multiset(),
        names_sorted(r@),
{
    let mut out: Vec<String> = Vec::new();
    let n = names.len();
    let mut i: usize = 0;
    proof {
        broadcast use vstd::seq_lib::group_to_multiset_ensures;

        assert(names@.take(0) =~= Seq::<String>::empty());
        assert(out@.to_multiset() =~= names@.take(0).to_multiset());
    }
    while i < n
        invariant
            n == names@.len(),
            i <= n,
            out@.to_multiset() == names@.take(i as int).to_multiset(),
            names_sorted(out@),
        decreases n - i,
    {
        let name = names[i].clone();
        let ghost nval = name;
        let k = insert_position(&out, name.as_str());
        let ghost pre = out@;
        out.insert(k, name);
        proof {
            broadcast use vstd::seq_lib::group_to_multiset_ensures;

            pre.insert_ensures(k as int, nval);
            assert(out@ == pre.insert(k as int, nval));
            lemma_insert_to_multiset(pre, k as int, nval);
            assert(names@.take(i + 1) =~= names@.take(i as int).push(names@[i as int]));
            assert(out@.to_multiset() =~= names@.take(i + 1).to_multiset());
            assert forall|p: int, q: int| 0 <= p < q < out@.len() implies key_le(
                out@[p]@,
                out@[q]@,
            ) by {
                if q < k {
                    assert(out@[p] == pre[p]);
                    assert(out@[q] == pre[q]);
                } else if q == k {
                    assert(out@[q] == nval);
                    assert(out@[p] == pre[p]);
                } else {
                    assert(out@[q] == pre[q - 1]);
                    if p < k {
                        assert(out@[p] == pre[p]);
                    } else if p == k {
                        assert(out@[p] == nval);
                        assert(!key_le(pre[k as int]@, nval@));
                        lemma_key_le_total(pre[k as int]@, nval@);
                        if k < q - 1 {
                            lemma_key_le_trans(nval@, pre[k as int]@, pre[q - 1]@);
                        }
                    } else {
                        assert(out@[p] == pre[p - 1]);
                    }
                }
            }
        }
        i = i + 1;
    }
    proof {
        assert(names@.take(n as int) =~= names@);
    }
    out
}

/// The concatenation of a sequence of name groups, group order and the
/// order within each group kept.
pub open spec fn concat_groups(groups: Seq<Vec<String>>) -> Seq<String>
    decreases groups.len(),
{
    if groups.len() == 0 {
        Seq::empty()
    } else {
        concat_groups(groups.drop_last()) + groups.last()@
    }
}

/// Flattens unit alias groups into one name list, keeping group order and
/// the order within each group.
pub(crate) fn flatten_names(groups: &Vec<Vec<String>>) -> (r: Vec<String>)
    ensures
        r@ == concat_groups(groups@),
{
    let mut out: Vec<String> = Vec::new();
    let n = groups.len();
    let mut i: usize = 0;
    while i < n
        invariant
            n == groups@.len(),
            i <= n,
            out@ == concat_groups(groups@.take(i as int)),
        decreases n - i,
    {
        let g = &groups[i];
        let m = g.len();
        let mut j: usize = 0;
        while j < m
            invariant
                m == g@.len(),
                j <= m,
                out@ == concat_groups(groups@.take(i as int)) + g@.take(j as int),
            decreases m - j,
        {
            out.push(g[j].clone());
            proof {
                assert(g@.take(j + 1) =~= g@.take(j as int).push(g@[j as int]));
                assert(out@ =~= concat_groups(groups@.take(i as int)) + g@.take(j + 1));
            }
            j = j + 1;
        }
        proof {
            let next = groups@.take(i + 1);
            assert(next.drop_last() =~= groups@.take(i as int));
            assert(next.last() == groups@[i as int]);
            assert(g@.take(m as int) =~= g@);
        }
        i = i + 1;
    }
    proof {
        assert(groups@.take(n as int) =~= groups@);
        assert(concat_groups(groups@.take(0)) + Seq::<String>::empty() =~= concat_groups(
            groups@.take(0),
        ));
    }
    out
}

/// Trailing opening parentheses removed.
pub open spec fn paren_stripped(s: Seq<char>) -> Seq<char>
    decreases s.len(),
{
    if s.len() > 0 && s.last() == '(' {
        paren_stripped(s.drop_last())
    } else {
        s
    }
}

/// A stripped text never ends with an opening parenthesis.
pub proof fn lemma_paren_stripped_no_trailing(s: Seq<char>)
    ensures
        paren_stripped(s).len() > 0 ==> paren_stripped(s).last() != '(',
    decreases s.len(),
{
    if s.len() > 0 && s.last() == '(' {
        lemma_paren_stripped_no_trailing(s.drop_last());
    }
}

/// Strips every trailing opening parenthesis from the text.
fn strip_paren_suffix(s: &str) -> (r: String)
    ensures
        r@ == paren_stripped(s@),
{
    let mut end = s.unicode_len();
    proof {
        assert(s@.take(end as int) =~= s@);
    }
    while end > 0 && s.get_char(end - 1) == '('
        invariant
            end <= s@.len(),
            paren_stripped(s@.take(end as int)) == paren_stripped(s@),
        decreases end,
    {
        proof {
            assert(s@.take(end as int).last() == s@[end - 1]);
            assert(s@.take(end as int).drop_last() =~= s@.take(end - 1));
        }
        end = end - 1;
    }
    let piece = s.substring_char(0, end);
    proof {
        assert(s@.subrange(0, end as int) == s@.take(end as int));
        if end > 0 {
            assert(s@.take(end as int).last() == s@[end as int - 1]);
        }
    }
    piece.to_owned()
}

/// Tidies raw completion suggestions: each one trimmed, then stripped of
/// trailing opening parentheses; order and count are kept.
pub fn tidy_completions(words: &Vec<String>) -> (r: Vec<String>)
    ensures
        r@.len() == words@.len(),
        forall|j: int|
            0 <= j < words@.len() ==> #[trigger] r@[j]@ == paren_stripped(trimmed_of(words@[j]@)),
{
    let mut out: Vec<String> = Vec::new();
    let n = words.len();
    let mut i: usize = 0;
    while i < n
        invariant
            n == words@.len(),
            i <= n,
            out@.len() == i,
            forall|j: int|
                0 <= j < i ==> #[trigger] out@[j]@ == paren_stripped(trimmed_of(words@[j]@)),
        decreases n - i,
    {
        let t = trim_str(words[i].as_str());
        out.push(strip_paren_suffix(t.as_str()));
        i = i + 1;
    }
    out
}

/// Wraps raw completion suggestions as typed completions; every suggestion
/// keeps its text and gets the unknown category.
pub fn to_typed(words: &Vec<String>) -> (r: Vec<TypedCompletion>)
    ensures
        r@.len() == words@.len(),
        forall|j: int| #![trigger r@[j]] 0 <= j < words@.len() ==> r@[j].text@ == words@[j]@,
        forall|j: int| #![trigger r@[j]]
            0 <= j < words@.len() ==> r@[j].ctype == CompletionType::Unknown,
{
    let mut out: Vec<TypedCompletion> = Vec::new();
    let n = words.len();
    let mut i: usize = 0;
    while i < n
        invariant
            n == words@.len(),
            i <= n,
            out@.len() == i,
            forall|j: int| #![trigger out@[j]] 0 <= j < i ==> out@[j].text@ == words@[j]@,
            forall|j: int| #![trigger out@[j]]
                0 <= j < i ==> out@[j].ctype == CompletionType::Unknown,
        decreases n - i,
    {
        let item = TypedCompletion { text: words[i].clone(), ctype: CompletionType::Unknown };
        out.push(item);
        i = i + 1;
    }
    out
}

/// A div node rendering one markup: one classed span per fragment.
pub open spec fn is_markup_container(n: OutputNode, frags: Seq<Fragment>, class: Seq<char>) -> bool {
    &&& n.tag@ == "div"@
    &&& n.class_name@ == class
    &&& n.text@.len() == 0
    &&& n.children@.len() == frags.len()
    &&& forall|j: int|
        0 <= j < frags.len() ==> is_span(n.children@[j], style_class(frags[j].style), frags[j].text@)
}

/// The div node collecting everything printed during one run: one inner
/// unclassed div per printed markup, in emission order.
pub open spec fn is_printed_container(n: OutputNode, printed: Seq<Markup>) -> bool {
    &&& n.tag@ == "div"@
    &&& n.class_name@ == "numbat-printed"@
    &&& n.text@.len() == 0
    &&& n.children@.len() == printed.len()
    &&& forall|j: int|
        0 <= j < printed.len() ==> is_markup_container(
            n.children@[j],
            printed[j].fragments@,
            Seq::empty(),
        )
}

/// Builds the output nodes of a successful interpretation: a printed-output
/// div when anything was printed, then a result div when the result markup
/// is non-empty. An empty outcome builds no node at all.
pub fn success_nodes(printed: &Vec<Markup>, result: &Markup) -> (r: Vec<OutputNode>)
    ensures
        r@.len() == (if printed@.len() > 0 { 1int } else { 0int })
            + (if result.fragments@.len() > 0 { 1int } else { 0int }),
        printed@.len() > 0 ==> is_printed_container(r@[0], printed@),
        result.fragments@.len() > 0 ==> is_markup_container(
            r@[r@.len() - 1],
            result.fragments@,
            "numbat-result"@,
        ),
{
    let mut out: Vec<OutputNode> = Vec::new();
    if printed.len() > 0 {
        let mut print_statements = OutputNode::element("div");
        print_statements.set_class_name("numbat-printed");
        let n = printed.len();
        let mut i: usize = 0;
        while i < n
            invariant
                n == printed@.len(),
                i <= n,
                print_statements.tag@ == "div"@,
                print_statements.class_name@ == "numbat-printed"@,
                print_statements.text@.len() == 0,
                print_statements.children@.len() == i,
                forall|j: int|
                    0 <= j < i ==> is_markup_container(
                        print_statements.children@[j],
                        printed@[j].fragments@,
                        Seq::empty(),
                    ),
            decreases n - i,
        {
            let inner = OutputNode::element("div");
            let mut fmt = NodeFormatter::new(inner);
            fmt.format(&printed[i], false);
            print_statements.append_child(fmt.into_node());
            i = i + 1;
        }
        out.push(print_statements);
    }
    if result.len() > 0 {
        let mut result_elem = OutputNode::element("div");
        result_elem.set_class_name("numbat-result");
        let mut fmt = NodeFormatter::new(result_elem);
        fmt.format(result, false);
        out.push(fmt.into_node());
    }
    out
}

/// Width the engine lays its own markup out for.
pub const TERMINAL_WIDTH: usize = 84;

/// One interpreter session: owns an engine context, the pretty-printing
/// preference of the caller, and the error text of a failed prelude load,
/// for the host to report.
pub struct Numbat {
    pub ctx: numbat::Context,
    pub enable_pretty_printing: bool,
    pub prelude_error: Option<String>,
}

impl Numbat {
    /// Opens a session; when asked, loads the engine's prelude first, and
    /// fixes the terminal width the engine formats for. A failed prelude
    /// load is kept as its error text, never raised.
    pub fn new(load_prelude: bool, enable_pretty_printing: bool) -> (r: Numbat)
        ensures
            r.enable_pretty_printing == enable_pretty_printing,
            !load_prelude ==> r.prelude_error is None,
    {
        let mut ctx = ctx_new();
        let prelude_error = if load_prelude {
            ctx_interpret_internal(&mut ctx, "use prelude")
        } else {
            None
        };
        ctx_set_terminal_width(&mut ctx, TERMINAL_WIDTH);
        Numbat { ctx, enable_pretty_printing, prelude_error }
    }

    /// A session with a duplicate of this session's engine state; the two
    /// evolve independently afterwards.
    pub fn clone(&self) -> (r: Numbat)
        ensures
            r.enable_pretty_printing == self.enable_pretty_printing,
            r.prelude_error == self.prelude_error,
    {
        let prelude_error = match &self.prelude_error {
            Some(text) => Some(text.clone()),
            None => None,
        };
        Numbat {
            ctx: ctx_clone(&self.ctx),
            enable_pretty_printing: self.enable_pretty_printing,
            prelude_error,
        }
    }

    /// Renders a markup through the HTML string renderer.
    fn format(&self, markup: &Markup, indent: bool) -> (r: String)
        ensures
            r@ == html_render(markup.fragments@, indent),
    {
        let fmt = HtmlFormatter;
        fmt.format(markup, indent)
    }

    /// Runs one piece of source text through the engine. Whatever the
    /// engine decides, the printed markups are collected in emission order;
    /// on success they are packaged with the rendered result markup, on
    /// failure the engine's diagnostics are forwarded untouched. Only the
    /// engine context changes; every other session field is left as it was.
    pub fn interpret(&mut self, code: &str) -> (r: RenderedOutcome)
        ensures
            final(self).enable_pretty_printing == old(self).enable_pretty_printing,
            final(self).prelude_error == old(self).prelude_error,
    {
        let (printed_parts, outcome) = interpret_raw(&mut self.ctx, code);
        let printed = markups_from_parts(&printed_parts);
        match outcome {
            Ok(result_parts) => RenderedOutcome::Success {
                printed,
                result: markup_from_parts(&result_parts),
            },
            Err(error) => {
                let (kind, diagnostics) = failure_parts(&self.ctx, &error);
                RenderedOutcome::Failure { kind, diagnostics }
            },
        }
    }

    /// The engine's environment dump, rendered to HTML.
    pub fn print_environment(&self) -> (r: String)
        ensures
            exists|f: Seq<Fragment>| r@ == html_render(f, false),
    {
        let m = markup_from_parts(&print_environment_parts(&self.ctx));
        let r = self.format(&m, false);
        proof {
            assert(r@ == html_render(m.fragments@, false));
        }
        r
    }

    /// The functions defined in the session, sorted without regard to ASCII case
    /// and listed one per line (the engine's own column layout is not part
    /// of its public interface), rendered to HTML.
    pub fn print_functions(&self) -> (r: String)
        ensures
            exists|f: Seq<Fragment>| r@ == html_render(f, false),
    {
        let m = names_markup(&sort_names(&function_names(&self.ctx)), StyleTag::Identifier);
        let r = self.format(&m, false);
        proof {
            assert(r@ == html_render(m.fragments@, false));
        }
        r
    }

    /// The dimensions defined in the session, sorted without regard to ASCII case
    /// and listed one per line (the engine's own column layout is not part
    /// of its public interface), rendered to HTML.
    pub fn print_dimensions(&self) -> (r: String)
        ensures
            exists|f: Seq<Fragment>| r@ == html_render(f, false),
    {
        let m = names_markup(&sort_names(&dimension_names(&self.ctx)), StyleTag::TypeIdentifier);
        let r = self.format(&m, false);
        proof {
            assert(r@ == html_render(m.fragments@, false));
        }
        r
    }

    /// The variables defined in the session, sorted without regard to ASCII case
    /// and listed one per line (the engine's own column layout is not part
    /// of its public interface), rendered to HTML.
    pub fn print_variables(&self) -> (r: String)
        ensures
            exists|f: Seq<Fragment>| r@ == html_render(f, false),
    {
        let m = names_markup(&sort_names(&variable_names(&self.ctx)), StyleTag::Identifier);
        let r = self.format(&m, false);
        proof {
            assert(r@ == html_render(m.fragments@, false));
        }
        r
    }

    /// The unit names defined in the session, sorted without regard to
    /// ASCII case and listed one per line (the engine's own column layout
    /// is not part of its public interface), rendered to HTML.
    pub fn print_units(&self) -> (r: String)
        ensures
            exists|f: Seq<Fragment>| r@ == html_render(f, false),
    {
        let names = sort_names(&flatten_names(&unit_name_groups(&self.ctx)));
        let m = names_markup(&names, StyleTag::Unit);
        let r = self.format(&m, false);
        proof {
            assert(r@ == html_render(m.fragments@, false));
        }
        r
    }

    /// The engine's help text, rendered to HTML in indented mode.
    pub fn help(&self) -> (r: String)
        ensures
            exists|f: Seq<Fragment>| r@ == html_render(f, true),
    {
        let m = markup_from_parts(&help_parts());
        let r = self.format(&m, true);
        proof {
            assert(r@ == html_render(m.fragments@, true));
        }
        r
    }

    /// The engine's documentation for one keyword, rendered to HTML in
    /// indented mode. Only the engine context changes; every other session
    /// field is left as it was.
    pub fn print_info(&mut self, keyword: &str) -> (r: String)
        ensures
            exists|f: Seq<Fragment>| r@ == html_render(f, true),
            final(self).enable_pretty_printing == old(self).enable_pretty_printing,
            final(self).prelude_error == old(self).prelude_error,
    {
        let m = markup_from_parts(&print_info_parts(&mut self.ctx, keyword));
        let r = self.format(&m, true);
        proof {
            assert(r@ == html_render(m.fragments@, true));
        }
        r
    }

    /// Completion suggestions for the input, tidied: every suggestion is the
    /// trimmed form of an engine suggestion with its trailing opening
    /// parentheses stripped, so none ends with an opening parenthesis.
    pub fn get_completions_for(&self, input: &str) -> (r: Vec<String>)
        ensures
            forall|j: int| #![trigger r@[j]]
                0 <= j < r@.len() ==> (r@[j]@.len() > 0 ==> r@[j]@.last() != '('),
    {
        let raw = completions_raw(&self.ctx, input, false);
        let r = tidy_completions(&raw);
        proof {
            assert forall|j: int| #![trigger r@[j]]
                0 <= j < r@.len() implies (r@[j]@.len() > 0 ==> r@[j]@.last() != '(') by {
                assert(r@[j]@ == paren_stripped(trimmed_of(raw@[j]@)));
                lemma_paren_stripped_no_trailing(trimmed_of(raw@[j]@));
            }
        }
        r
    }

    /// Completion suggestions with their categories; the engine does not
    /// classify them, so each carries the unknown category.
    pub fn get_typed_completions_for(&self, word_part: &str, add_paren: bool) -> (r: Vec<
        TypedCompletion,
    >)
        ensures
            forall|j: int| #![trigger r@[j]]
                0 <= j < r@.len() ==> r@[j].ctype == CompletionType::Unknown,
    {
        let raw = completions_raw(&self.ctx, word_part, add_paren);
        to_typed(&raw)
    }
}

} // verus!

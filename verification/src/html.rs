//! The HTML string renderer: renders a markup sequence to a flat string,
//! one classed inline element per fragment.

use vstd::prelude::*;

use crate::classify::{style_class, CSSClass};
use crate::escape::{escape_into, escape_text, lemma_escape_round_trip, unescape_text};
use crate::markup::{Fragment, Markup};

verus! {

/// The rendering of one fragment: an inline element wrapping the escaped
/// text, classed by the fragment's style tag.
pub open spec fn frag_html(f: Fragment) -> Seq<char> {
    "<span class=\""@ + style_class(f.style) + "\">"@ + escape_text(f.text@) + "</span>"@
}

/// The rendering of a whole fragment sequence: the fragments' renderings
/// concatenated in order, with no separator.
pub open spec fn html_of(frags: Seq<Fragment>) -> Seq<char>
    decreases frags.len(),
{
    if frags.len() == 0 {
        Seq::empty()
    } else {
        html_of(frags.drop_last()) + frag_html(frags.last())
    }
}

/// The rendering of one fragment in indented mode: as in [`frag_html`], with
/// two spaces of indentation appended after any fragment that contains a
/// line break.
pub open spec fn frag_html_indent(f: Fragment) -> Seq<char> {
    if f.text@.contains('\n') {
        frag_html(f) + "  "@
    } else {
        frag_html(f)
    }
}

/// The rendering of a fragment sequence in indented mode.
pub open spec fn html_indent_of(frags: Seq<Fragment>) -> Seq<char>
    decreases frags.len(),
{
    if frags.len() == 0 {
        Seq::empty()
    } else {
        html_indent_of(frags.drop_last()) + frag_html_indent(frags.last())
    }
}

/// What the renderer returns: the plain concatenation of the fragments'
/// renderings, prefixed by two spaces of indentation in indented mode.
pub open spec fn html_render(frags: Seq<Fragment>, indent: bool) -> Seq<char> {
    if indent {
        "  "@ + html_indent_of(frags)
    } else {
        html_of(frags)
    }
}

/// Law: an empty markup renders to an empty string; no element is created.
pub proof fn lemma_render_html_empty(frags: Seq<Fragment>, indent: bool)
    requires
        frags.len() == 0,
    ensures
        !indent ==> html_render(frags, indent) == Seq::<char>::empty(),
        html_render(frags, indent).len() == (if indent {
            "  "@.len()
        } else {
            0
        }),
{
    assert("  "@ + Seq::<char>::empty() =~= "  "@);
}

/// Law: rendering preserves literal text content exactly: un-escaping the
/// escaped text of any fragment yields the fragment's text back.
pub proof fn lemma_render_preserves_text(f: Fragment)
    ensures
        unescape_text(escape_text(f.text@)) == f.text@,
{
    lemma_escape_round_trip(f.text@);
}

/// Whether the text contains a line break.
fn contains_newline(s: &str) -> (r: bool)
    ensures
        r == s@.contains('\n'),
{
    let n = s.unicode_len();
    let mut i: usize = 0;
    let mut found = false;
    while i < n
        invariant
            n == s@.len(),
            i <= n,
            found == exists|j: int| 0 <= j < i && s@[j] == '\n',
        decreases n - i,
    {
        if s.get_char(i) == '\n' {
            found = true;
        }
        i = i + 1;
    }
    proof {
        if found {
            let j = choose|j: int| 0 <= j < n && s@[j] == '\n';
            assert(s@.contains('\n')) by {
                assert(s@[j] == '\n');
            }
        } else {
            if s@.contains('\n') {
                let j = choose|j: int| 0 <= j < s@.len() && s@[j] == '\n';
                assert(false);
            }
        }
    }
    found
}

/// Renders a markup sequence to an HTML string. Pure with respect to the
/// markup: it mutates nothing and is safe to call repeatedly.
pub struct HtmlFormatter;

impl HtmlFormatter {
    /// The rendering of a single fragment.
    pub fn format_part(&self, part: &Fragment) -> (r: String)
        ensures
            r@ == frag_html(*part),
    {
        let mut out = String::new();
        out.append("<span class=\"");
        match part.style.cssclass() {
            Some(class) => out.append(class.as_str()),
            None => unreached(),
        }
        out.append("\">");
        escape_into(&mut out, part.text.as_str());
        out.append("</span>");
        proof {
            assert(out@ =~= frag_html(*part));
        }
        out
    }

    /// Renders the whole markup, fragment by fragment, in order.
    pub fn format(&self, markup: &Markup, indent: bool) -> (r: String)
        ensures
            r@ == html_render(markup.fragments@, indent),
    {
        let mut out = String::new();
        if indent {
            out.append("  ");
        }
        let n = markup.fragments.len();
        let mut i: usize = 0;
        while i < n
            invariant
                n == markup.fragments@.len(),
                i <= n,
                indent ==> out@ == "  "@ + html_indent_of(markup.fragments@.take(i as int)),
                !indent ==> out@ == html_of(markup.fragments@.take(i as int)),
            decreases n - i,
        {
            let ghost taken = markup.fragments@.take(i as int);
            let part = self.format_part(&markup.fragments[i]);
            out.append(part.as_str());
            if indent && contains_newline(markup.fragments[i].text.as_str()) {
                out.append("  ");
            }
            proof {
                let f = markup.fragments@[i as int];
                let next = markup.fragments@.take(i + 1);
                assert(next.drop_last() =~= taken);
                assert(next.last() == f);
                if indent {
                    assert(out@ =~= "  "@ + html_indent_of(next));
                } else {
                    assert(out@ =~= html_of(next));
                }
            }
            i = i + 1;
        }
        proof {
            assert(markup.fragments@.take(n as int) =~= markup.fragments@);
        }
        out
    }
}

} // verus!

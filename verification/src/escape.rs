//! HTML text escaping for the string renderer, with a proof that escaping
//! loses no content: un-escaping the escaped text gives the text back.

use vstd::prelude::*;

verus! {

/// The escaped form of one character: the markup-significant characters
/// become entities, everything else stands as itself.
pub open spec fn escape_char(c: char) -> Seq<char> {
    if c == '&' {
        "&amp;"@
    } else if c == '<' {
        "&lt;"@
    } else if c == '>' {
        "&gt;"@
    } else {
        seq![c]
    }
}

/// The escaped form of a text: each character escaped, in order.
pub open spec fn escape_text(s: Seq<char>) -> Seq<char>
    decreases s.len(),
{
    if s.len() == 0 {
        Seq::empty()
    } else {
        escape_char(s[0]) + escape_text(s.drop_first())
    }
}

/// Un-escaping: the inverse reading of an escaped text. A recognised entity
/// becomes its character; any other character stands as itself.
pub open spec fn unescape_text(s: Seq<char>) -> Seq<char>
    decreases s.len(),
{
    if s.len() == 0 {
        Seq::empty()
    } else if s.len() >= 5 && s.subrange(0, 5) == "&amp;"@ {
        seq!['&'] + unescape_text(s.skip(5))
    } else if s.len() >= 4 && s.subrange(0, 4) == "&lt;"@ {
        seq!['<'] + unescape_text(s.skip(4))
    } else if s.len() >= 4 && s.subrange(0, 4) == "&gt;"@ {
        seq!['>'] + unescape_text(s.skip(4))
    } else {
        seq![s[0]] + unescape_text(s.drop_first())
    }
}

/// Escaping distributes over concatenation.
pub proof fn lemma_escape_app(a: Seq<char>, b: Seq<char>)
    ensures
        escape_text(a + b) == escape_text(a) + escape_text(b),
    decreases a.len(),
{
    if a.len() == 0 {
        assert(a + b =~= b);
        assert(escape_text(a) + escape_text(b) =~= escape_text(b));
    } else {
        lemma_escape_app(a.drop_first(), b);
        assert((a + b).drop_first() =~= a.drop_first() + b);
        assert(escape_char((a + b)[0]) + (escape_text(a.drop_first()) + escape_text(b)) =~= (
        escape_char(a[0]) + escape_text(a.drop_first())) + escape_text(b));
    }
}

/// Escaping one more character extends the escaped text at its end.
pub proof fn lemma_escape_snoc(s: Seq<char>, i: int)
    requires
        0 <= i < s.len(),
    ensures
        escape_text(s.take(i + 1)) == escape_text(s.take(i)) + escape_char(s[i]),
{
    let single = seq![s[i]];
    assert(s.take(i + 1) =~= s.take(i) + single);
    lemma_escape_app(s.take(i), single);
    assert(single.len() == 1);
    assert(single[0] == s[i]);
    assert(single.drop_first() =~= Seq::<char>::empty());
    assert(escape_text(single) == escape_char(s[i]) + escape_text(Seq::<char>::empty()));
    assert(escape_text(Seq::<char>::empty()) == Seq::<char>::empty());
    assert(escape_char(s[i]) + Seq::<char>::empty() =~= escape_char(s[i]));
}

/// Law: escaping is lossless. Un-escaping the escaped form of any text
/// yields exactly that text, so literal content survives the renderer.
pub proof fn lemma_escape_round_trip(s: Seq<char>)
    ensures
        unescape_text(escape_text(s)) == s,
    decreases s.len(),
{
    reveal_strlit("&amp;");
    reveal_strlit("&lt;");
    reveal_strlit("&gt;");
    if s.len() == 0 {
        assert(unescape_text(escape_text(s)) =~= s);
    } else {
        let c = s[0];
        let rest = escape_text(s.drop_first());
        let e = escape_text(s);
        assert(e == escape_char(c) + rest);
        lemma_escape_round_trip(s.drop_first());
        if c == '&' {
            assert(e.len() >= 5);
            assert(e.subrange(0, 5) =~= "&amp;"@);
            assert(e.skip(5) =~= rest);
            assert(seq!['&'] + s.drop_first() =~= s);
        } else if c == '<' {
            assert(e.len() >= 4);
            assert(!(e.len() >= 5 && e.subrange(0, 5) == "&amp;"@)) by {
                if e.len() >= 5 && e.subrange(0, 5) == "&amp;"@ {
                    assert(e.subrange(0, 5)[1] == 'a');
                    assert(e[1] == 'l');
                }
            }
            assert(e.subrange(0, 4) =~= "&lt;"@);
            assert(e.skip(4) =~= rest);
            assert(seq!['<'] + s.drop_first() =~= s);
        } else if c == '>' {
            assert(!(e.len() >= 5 && e.subrange(0, 5) == "&amp;"@)) by {
                if e.len() >= 5 && e.subrange(0, 5) == "&amp;"@ {
                    assert(e.subrange(0, 5)[1] == 'a');
                    assert(e[1] == 'g');
                }
            }
            assert(e.subrange(0, 4) != "&lt;"@) by {
                if e.subrange(0, 4) == "&lt;"@ {
                    assert(e.subrange(0, 4)[1] == 'l');
                    assert(e[1] == 'g');
                }
            }
            assert(e.subrange(0, 4) =~= "&gt;"@);
            assert(e.skip(4) =~= rest);
            assert(seq!['>'] + s.drop_first() =~= s);
        } else {
            assert(e == seq![c] + rest);
            assert(e[0] == c);
            assert(!(e.len() >= 5 && e.subrange(0, 5) == "&amp;"@)) by {
                if e.len() >= 5 && e.subrange(0, 5) == "&amp;"@ {
                    assert(e.subrange(0, 5)[0] == '&');
                }
            }
            assert(!(e.len() >= 4 && e.subrange(0, 4) == "&lt;"@)) by {
                if e.len() >= 4 && e.subrange(0, 4) == "&lt;"@ {
                    assert(e.subrange(0, 4)[0] == '&');
                }
            }
            assert(!(e.len() >= 4 && e.subrange(0, 4) == "&gt;"@)) by {
                if e.len() >= 4 && e.subrange(0, 4) == "&gt;"@ {
                    assert(e.subrange(0, 4)[0] == '&');
                }
            }
            assert(e.drop_first() =~= rest);
            assert(seq![c] + s.drop_first() =~= s);
        }
    }
}

/// Appends the escaped form of `s` to `out`.
pub fn escape_into(out: &mut String, s: &str)
    ensures
        final(out)@ == old(out)@ + escape_text(s@),
{
    let n = s.unicode_len();
    let mut i: usize = 0;
    while i < n
        invariant
            n == s@.len(),
            i <= n,
            out@ == old(out)@ + escape_text(s@.take(i as int)),
        decreases n - i,
    {
        let c = s.get_char(i);
        if c == '&' {
            out.append("&amp;");
        } else if c == '<' {
            out.append("&lt;");
        } else if c == '>' {
            out.append("&gt;");
        } else {
            let piece = s.substring_char(i, i + 1);
            out.append(piece);
            proof {
                assert(s@.subrange(i as int, i + 1) =~= seq![s@[i as int]]);
            }
        }
        proof {
            lemma_escape_snoc(s@, i as int);
        }
        i = i + 1;
    }
    proof {
        assert(s@.take(n as int) =~= s@);
    }
}

} // verus!

//! HTML escaping of literal text, with its exact specification and the
//! round-trip guarantee that unescaping recovers the original text.

use vstd::prelude::*;

verus! {

/// How one character appears after HTML escaping: the five reserved
/// characters become entities, everything else passes through.
pub open spec fn escape_char(c: char) -> Seq<char> {
    if c == '>' {
        "&gt;"@
    } else if c == '<' {
        "&lt;"@
    } else if c == '&' {
        "&amp;"@
    } else if c == '\'' {
        "&#39;"@
    } else if c == '"' {
        "&quot;"@
    } else {
        seq![c]
    }
}

/// HTML escaping of a whole string, character by character.
pub open spec fn escape_html(s: Seq<char>) -> Seq<char>
    decreases s.len(),
{
    if s.len() == 0 {
        Seq::empty()
    } else {
        escape_char(s[0]) + escape_html(s.drop_first())
    }
}

/// HTML unescaping: each recognized entity becomes its character, everything
/// else passes through.
pub open spec fn unescape_html(s: Seq<char>) -> Seq<char>
    decreases s.len(),
{
    if s.len() == 0 {
        Seq::empty()
    } else if s.len() >= 5 && s.subrange(0, 5) == "&amp;"@ {
        seq!['&'] + unescape_html(s.skip(5))
    } else if s.len() >= 4 && s.subrange(0, 4) == "&lt;"@ {
        seq!['<'] + unescape_html(s.skip(4))
    } else if s.len() >= 4 && s.subrange(0, 4) == "&gt;"@ {
        seq!['>'] + unescape_html(s.skip(4))
    } else if s.len() >= 6 && s.subrange(0, 6) == "&quot;"@ {
        seq!['"'] + unescape_html(s.skip(6))
    } else if s.len() >= 5 && s.subrange(0, 5) == "&#39;"@ {
        seq!['\''] + unescape_html(s.skip(5))
    } else {
        seq![s[0]] + unescape_html(s.drop_first())
    }
}

/// Escaping distributes over concatenation.
pub proof fn lemma_escape_append(a: Seq<char>, b: Seq<char>)
    ensures
        escape_html(a + b) == escape_html(a) + escape_html(b),
    decreases a.len(),
{
    if a.len() == 0 {
        assert(a + b =~= b);
        assert(escape_html(a) + escape_html(b) =~= escape_html(b));
    } else {
        assert((a + b).drop_first() =~= a.drop_first() + b);
        assert((a + b)[0] == a[0]);
        lemma_escape_append(a.drop_first(), b);
        assert(escape_html(a + b) =~= escape_html(a) + escape_html(b));
    }
}

/// Escaping one more character appends that character's escape.
pub proof fn lemma_escape_push(a: Seq<char>, c: char)
    ensures
        escape_html(a.push(c)) == escape_html(a) + escape_char(c),
{
    assert(a.push(c) =~= a + seq![c]);
    lemma_escape_append(a, seq![c]);
    assert(escape_html(seq![c]) =~= escape_char(c)) by {
        assert(seq![c].drop_first() =~= Seq::<char>::empty());
        assert(escape_html(Seq::<char>::empty()) == Seq::<char>::empty());
        assert(escape_char(c) + Seq::<char>::empty() =~= escape_char(c));
    }
}

/// Unescaping the escape of any string recovers the string exactly.
pub proof fn lemma_unescape_escape(s: Seq<char>)
    ensures
        unescape_html(escape_html(s)) == s,
    decreases s.len(),
{
    reveal_strlit("&amp;");
    reveal_strlit("&lt;");
    reveal_strlit("&gt;");
    reveal_strlit("&quot;");
    reveal_strlit("&#39;");
    if s.len() == 0 {
        assert(unescape_html(escape_html(s)) =~= s);
    } else {
        let c = s[0];
        let rest = s.drop_first();
        lemma_unescape_escape(rest);
        let t = escape_char(c) + escape_html(rest);
        assert(escape_html(s) == t);
        if c == '&' {
            assert(t.len() >= 5);
            assert(t.subrange(0, 5) =~= "&amp;"@);
            assert(t.skip(5) =~= escape_html(rest));
            assert(unescape_html(t) =~= s);
        } else if c == '<' {
            assert(t.len() >= 4);
            if t.len() >= 5 {
                assert(t.subrange(0, 5)[1] == 'l');
                assert(t.subrange(0, 5) != "&amp;"@);
            }
            assert(t.subrange(0, 4) =~= "&lt;"@);
            assert(t.skip(4) =~= escape_html(rest));
            assert(unescape_html(t) =~= s);
        } else if c == '>' {
            assert(t.len() >= 4);
            if t.len() >= 5 {
                assert(t.subrange(0, 5)[1] == 'g');
                assert(t.subrange(0, 5) != "&amp;"@);
            }
            assert(t.subrange(0, 4)[1] == 'g');
            assert(t.subrange(0, 4) != "&lt;"@);
            assert(t.subrange(0, 4) =~= "&gt;"@);
            assert(t.skip(4) =~= escape_html(rest));
            assert(unescape_html(t) =~= s);
        } else if c == '"' {
            assert(t.len() >= 6);
            assert(t.subrange(0, 5)[1] == 'q');
            assert(t.subrange(0, 5) != "&amp;"@);
            assert(t.subrange(0, 4)[1] == 'q');
            assert(t.subrange(0, 4) != "&lt;"@);
            assert(t.subrange(0, 4) != "&gt;"@);
            assert(t.subrange(0, 6) =~= "&quot;"@);
            assert(t.skip(6) =~= escape_html(rest));
            assert(unescape_html(t) =~= s);
        } else if c == '\'' {
            assert(t.len() >= 5);
            assert(t.subrange(0, 5)[1] == '#');
            assert(t.subrange(0, 5) != "&amp;"@);
            assert(t.subrange(0, 4)[1] == '#');
            assert(t.subrange(0, 4) != "&lt;"@);
            assert(t.subrange(0, 4) != "&gt;"@);
            if t.len() >= 6 {
                assert(t.subrange(0, 6)[1] == '#');
                assert(t.subrange(0, 6) != "&quot;"@);
            }
            assert(t.subrange(0, 5) =~= "&#39;"@);
            assert(t.skip(5) =~= escape_html(rest));
            assert(unescape_html(t) =~= s);
        } else {
            assert(t[0] == c);
            assert(c != '&');
            if t.len() >= 5 {
                assert(t.subrange(0, 5)[0] == c);
                assert(t.subrange(0, 5) != "&amp;"@);
                assert(t.subrange(0, 5) != "&#39;"@);
            }
            if t.len() >= 4 {
                assert(t.subrange(0, 4)[0] == c);
                assert(t.subrange(0, 4) != "&lt;"@);
                assert(t.subrange(0, 4) != "&gt;"@);
            }
            if t.len() >= 6 {
                assert(t.subrange(0, 6)[0] == c);
                assert(t.subrange(0, 6) != "&quot;"@);
            }
            assert(t.drop_first() =~= escape_html(rest));
            assert(unescape_html(t) =~= s);
        }
    }
}

} // verus!

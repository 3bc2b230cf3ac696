//! HTML-escaping of submitted field values.
//!
//! Placeholder substitution must not let submitted text act as markup, so
//! every field value is escaped before it is placed into the notification
//! body: the five characters with a meaning in HTML text or attributes are
//! replaced by their character references, every other character is kept.

use vstd::prelude::*;

verus! {

/// Relies on String::push: appends the given character to the end of the
/// string, changing nothing else.
pub assume_specification[ String::push ](s: &mut String, ch: char)
    ensures
        final(s)@ == old(s)@.push(ch),
;

/// What one character becomes in escaped text.
pub open spec fn escaped_char(c: char) -> Seq<char> {
    if c == '&' {
        "&amp;"@
    } else if c == '<' {
        "&lt;"@
    } else if c == '>' {
        "&gt;"@
    } else if c == '"' {
        "&quot;"@
    } else if c == '\'' {
        "&#39;"@
    } else {
        seq![c]
    }
}

/// The escaped form of a text: each character replaced by its escaped form,
/// in order.
pub open spec fn escaped(s: Seq<char>) -> Seq<char>
    decreases s.len(),
{
    if s.len() == 0 {
        Seq::empty()
    } else {
        escaped(s.drop_last()) + escaped_char(s.last())
    }
}

/// Escaping distributes over appending one character at the end.
pub proof fn lemma_escaped_push(s: Seq<char>, c: char)
    ensures
        escaped(s.push(c)) == escaped(s) + escaped_char(c),
{
    assert(s.push(c).drop_last() =~= s);
    assert(s.push(c).last() == c);
}

/// No character of the escaped form of one character can open markup or
/// close an attribute: `<`, `>`, `"` and `'` never occur in it.
pub proof fn lemma_escaped_char_blocks_markup(c: char)
    ensures
        forall|i: int|
            0 <= i < escaped_char(c).len() ==> escaped_char(c)[i] != '<' && escaped_char(c)[i]
                != '>' && escaped_char(c)[i] != '"' && escaped_char(c)[i] != '\'',
{
    reveal_strlit("&amp;");
    reveal_strlit("&lt;");
    reveal_strlit("&gt;");
    reveal_strlit("&quot;");
    reveal_strlit("&#39;");
}

/// Law: escaped text cannot act as live markup. Whatever the submitted
/// value, its escaped form contains no `<`, `>`, `"` or `'` at any
/// position, so a submitted `<b>` appears in the rendered body as escaped
/// text and never as an element, and a quote never closes an attribute.
pub proof fn lemma_escaped_blocks_markup(s: Seq<char>)
    ensures
        forall|i: int|
            0 <= i < escaped(s).len() ==> escaped(s)[i] != '<' && escaped(s)[i] != '>' && escaped(
                s,
            )[i] != '"' && escaped(s)[i] != '\'',
    decreases s.len(),
{
    if s.len() > 0 {
        lemma_escaped_blocks_markup(s.drop_last());
        lemma_escaped_char_blocks_markup(s.last());
        let head = escaped(s.drop_last());
        let tail = escaped_char(s.last());
        assert forall|i: int| 0 <= i < escaped(s).len() implies escaped(s)[i] != '<' && escaped(
            s,
        )[i] != '>' && escaped(s)[i] != '"' && escaped(s)[i] != '\'' by {
            if i < head.len() {
                assert(escaped(s)[i] == head[i]);
            } else {
                assert(escaped(s)[i] == tail[i - head.len()]);
            }
        }
    }
}

/// Replace every HTML-significant character of `s` by its character
/// reference.
pub fn html_escape(s: &str) -> (out: String)
    ensures
        out@ == escaped(s@),
{
    let n: usize = s.unicode_len();
    let mut out = String::new();
    let mut i: usize = 0;
    while i < n
        invariant
            n == s@.len(),
            i <= n,
            out@ == escaped(s@.subrange(0, i as int)),
        decreases n - i,
    {
        let c = s.get_char(i);
        let ghost pre = out@;
        if c == '&' {
            out.append("&amp;");
        } else if c == '<' {
            out.append("&lt;");
        } else if c == '>' {
            out.append("&gt;");
        } else if c == '"' {
            out.append("&quot;");
        } else if c == '\'' {
            out.append("&#39;");
        } else {
            out.push(c);
        }
        proof {
            let prefix = s@.subrange(0, i as int);
            lemma_escaped_push(prefix, c);
            assert(prefix.push(c) =~= s@.subrange(0, (i + 1) as int));
            assert(out@ =~= pre + escaped_char(c));
        }
        i = i + 1;
    }
    proof {
        assert(s@.subrange(0, n as int) =~= s@);
    }
    out
}

} // verus!

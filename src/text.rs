//! Character-level building blocks for XML text: escaping of reserved
//! characters, decoding of the predefined entities, and decimal numerals.
use vstd::prelude::*;

verus! {

/// The markup that stands for one character of text content.
pub open spec fn escape_char(c: char) -> Seq<char> {
    if c == '&' {
        seq!['&', 'a', 'm', 'p', ';']
    } else if c == '<' {
        seq!['&', 'l', 't', ';']
    } else if c == '>' {
        seq!['&', 'g', 't', ';']
    } else if c == '"' {
        seq!['&', 'q', 'u', 'o', 't', ';']
    } else if c == '\'' {
        seq!['&', 'a', 'p', 'o', 's', ';']
    } else {
        seq![c]
    }
}

/// Text with every XML-reserved character replaced by its entity.
pub open spec fn escape_text(s: Seq<char>) -> Seq<char>
    decreases s.len(),
{
    if s.len() == 0 {
        Seq::empty()
    } else {
        escape_text(s.drop_last()) + escape_char(s.last())
    }
}

/// How an XML reader decodes character data that uses the five predefined
/// entities: each entity becomes its character, everything else stays.
pub open spec fn unescape_text(s: Seq<char>) -> Seq<char>
    decreases s.len(),
{
    if s.len() == 0 {
        Seq::empty()
    } else if s.len() >= 5 && s.subrange(0, 5) == seq!['&', 'a', 'm', 'p', ';'] {
        seq!['&'] + unescape_text(s.subrange(5, s.len() as int))
    } else if s.len() >= 4 && s.subrange(0, 4) == seq!['&', 'l', 't', ';'] {
        seq!['<'] + unescape_text(s.subrange(4, s.len() as int))
    } else if s.len() >= 4 && s.subrange(0, 4) == seq!['&', 'g', 't', ';'] {
        seq!['>'] + unescape_text(s.subrange(4, s.len() as int))
    } else if s.len() >= 6 && s.subrange(0, 6) == seq!['&', 'q', 'u', 'o', 't', ';'] {
        seq!['"'] + unescape_text(s.subrange(6, s.len() as int))
    } else if s.len() >= 6 && s.subrange(0, 6) == seq!['&', 'a', 'p', 'o', 's', ';'] {
        seq!['\''] + unescape_text(s.subrange(6, s.len() as int))
    } else {
        seq![s[0]] + unescape_text(s.subrange(1, s.len() as int))
    }
}

/// Escaping distributes over concatenation.
pub proof fn lemma_escape_concat(a: Seq<char>, b: Seq<char>)
    ensures
        escape_text(a + b) == escape_text(a) + escape_text(b),
    decreases b.len(),
{
    if b.len() == 0 {
        assert(a + b =~= a);
        assert(escape_text(a) + escape_text(b) =~= escape_text(a));
    } else {
        lemma_escape_concat(a, b.drop_last());
        assert((a + b).drop_last() =~= a + b.drop_last());
        assert((a + b).last() == b.last());
    }
}

/// Decoding the markup of one character yields that character, and decoding
/// then goes on with what follows.
proof fn lemma_unescape_char(c: char, t: Seq<char>)
    ensures
        unescape_text(escape_char(c) + t) == seq![c] + unescape_text(t),
{
    let e = escape_char(c);
    let s = e + t;
    assert(s.subrange(e.len() as int, s.len() as int) =~= t);
    if c == '&' {
        assert(s.subrange(0, 5) =~= e);
    } else if c == '<' {
        assert(s.subrange(0, 4) =~= e);
    } else if c == '>' {
        assert(s.subrange(0, 4) =~= e);
    } else if c == '"' {
        assert(s.subrange(0, 6) =~= e);
    } else if c == '\'' {
        assert(s.subrange(0, 6) =~= e);
    } else {
        assert(s[0] == c);
        assert(s.len() >= 5 ==> s.subrange(0, 5)[0] != '&');
        assert(s.len() >= 4 ==> s.subrange(0, 4)[0] != '&');
        assert(s.len() >= 6 ==> s.subrange(0, 6)[0] != '&');
    }
}

/// Escaping loses nothing: an XML reader decodes escaped text back to the
/// characters it was given, whatever reserved characters it holds.
pub proof fn lemma_escape_round_trip(s: Seq<char>)
    ensures
        unescape_text(escape_text(s)) == s,
    decreases s.len(),
{
    if s.len() > 0 {
        let rest = s.drop_first();
        assert(s =~= seq![s[0]] + rest);
        lemma_escape_concat(seq![s[0]], rest);
        assert(seq![s[0]].drop_last() =~= Seq::<char>::empty());
        assert(escape_text(Seq::<char>::empty()) == Seq::<char>::empty());
        assert(escape_text(seq![s[0]]) =~= escape_char(s[0]));
        lemma_unescape_char(s[0], escape_text(rest));
        lemma_escape_round_trip(rest);
    }
}

/// A predefined entity starts at position `i` of `t`.
pub open spec fn entity_at(t: Seq<char>, i: int) -> bool {
    ||| i + 5 <= t.len() && t.subrange(i, i + 5) == seq!['&', 'a', 'm', 'p', ';']
    ||| i + 4 <= t.len() && t.subrange(i, i + 4) == seq!['&', 'l', 't', ';']
    ||| i + 4 <= t.len() && t.subrange(i, i + 4) == seq!['&', 'g', 't', ';']
    ||| i + 6 <= t.len() && t.subrange(i, i + 6) == seq!['&', 'q', 'u', 'o', 't', ';']
    ||| i + 6 <= t.len() && t.subrange(i, i + 6) == seq!['&', 'a', 'p', 'o', 's', ';']
}

/// Character data that cannot end or open markup: no `<` or `>`, and each
/// `&` starts a predefined entity.
pub open spec fn markup_free(t: Seq<char>) -> bool {
    forall|i: int|
        #![trigger t[i]]
        0 <= i < t.len() ==> t[i] != '<' && t[i] != '>' && (t[i] == '&' ==> entity_at(t, i))
}

/// Escaped text is always well-formed character data.
pub proof fn lemma_escape_markup_free(s: Seq<char>)
    ensures
        markup_free(escape_text(s)),
    decreases s.len(),
{
    if s.len() > 0 {
        let head = escape_text(s.drop_last());
        let tail = escape_char(s.last());
        let t = escape_text(s);
        lemma_escape_markup_free(s.drop_last());
        assert(t == head + tail);
        assert forall|i: int|
            #![trigger t[i]]
            0 <= i < t.len() implies t[i] != '<' && t[i] != '>' && (t[i] == '&' ==> entity_at(t, i)) by {
            if i < head.len() {
                assert(t[i] == head[i]);
                if head[i] == '&' {
                    if i + 4 <= head.len() {
                        assert(t.subrange(i, i + 4) =~= head.subrange(i, i + 4));
                    }
                    if i + 5 <= head.len() {
                        assert(t.subrange(i, i + 5) =~= head.subrange(i, i + 5));
                    }
                    if i + 6 <= head.len() {
                        assert(t.subrange(i, i + 6) =~= head.subrange(i, i + 6));
                    }
                }
            } else {
                let m = i - head.len();
                let c = s.last();
                assert(t[i] == tail[m]);
                if c == '&' {
                    assert(tail =~= seq!['&', 'a', 'm', 'p', ';']);
                    if m == 0 {
                        assert(t.subrange(i, i + 5) =~= tail);
                    }
                } else if c == '<' {
                    assert(tail =~= seq!['&', 'l', 't', ';']);
                    if m == 0 {
                        assert(t.subrange(i, i + 4) =~= tail);
                    }
                } else if c == '>' {
                    assert(tail =~= seq!['&', 'g', 't', ';']);
                    if m == 0 {
                        assert(t.subrange(i, i + 4) =~= tail);
                    }
                } else if c == '"' {
                    assert(tail =~= seq!['&', 'q', 'u', 'o', 't', ';']);
                    if m == 0 {
                        assert(t.subrange(i, i + 6) =~= tail);
                    }
                } else if c == '\'' {
                    assert(tail =~= seq!['&', 'a', 'p', 'o', 's', ';']);
                    if m == 0 {
                        assert(t.subrange(i, i + 6) =~= tail);
                    }
                } else {
                    assert(tail =~= seq![c]);
                }
            }
        }
    } else {
        assert(escape_text(s).len() == 0);
    }
}

/// Text without any XML-reserved character.
pub open spec fn plain_text(s: Seq<char>) -> bool {
    forall|i: int|
        0 <= i < s.len() ==> #[trigger] s[i] != '&' && s[i] != '<' && s[i] != '>' && s[i] != '"'
            && s[i] != '\''
}

/// Escaping leaves text without reserved characters as it is.
pub proof fn lemma_escape_plain(s: Seq<char>)
    requires
        plain_text(s),
    ensures
        escape_text(s) == s,
    decreases s.len(),
{
    if s.len() > 0 {
        let init = s.drop_last();
        assert(plain_text(init)) by {
            assert forall|i: int| 0 <= i < init.len() implies #[trigger] init[i] != '&' && init[i]
                != '<' && init[i] != '>' && init[i] != '"' && init[i] != '\'' by {
                assert(init[i] == s[i]);
            }
        }
        lemma_escape_plain(init);
        assert(s.last() == s[s.len() - 1]);
        assert(s =~= init.push(s.last()));
        assert(escape_char(s.last()) =~= seq![s.last()]);
    } else {
        assert(s =~= Seq::<char>::empty());
    }
}

/// The decimal digit for a value below ten.
pub open spec fn digit_char(d: nat) -> char {
    if d == 0 {
        '0'
    } else if d == 1 {
        '1'
    } else if d == 2 {
        '2'
    } else if d == 3 {
        '3'
    } else if d == 4 {
        '4'
    } else if d == 5 {
        '5'
    } else if d == 6 {
        '6'
    } else if d == 7 {
        '7'
    } else if d == 8 {
        '8'
    } else {
        '9'
    }
}

/// The decimal numeral of a natural number, without leading zeros.
pub open spec fn decimal(n: nat) -> Seq<char>
    decreases n,
{
    if n < 10 {
        seq![digit_char(n)]
    } else {
        decimal(n / 10) + seq![digit_char(n % 10)]
    }
}

proof fn lemma_digit_injective(a: nat, b: nat)
    requires
        a < 10,
        b < 10,
        digit_char(a) == digit_char(b),
    ensures
        a == b,
{
}

/// A numeral is never empty, and has one digit exactly below ten.
pub proof fn lemma_decimal_len(n: nat)
    ensures
        decimal(n).len() >= 1,
        decimal(n).len() == 1 <==> n < 10,
    decreases n,
{
    if n >= 10 {
        lemma_decimal_len(n / 10);
    }
}

/// Distinct numbers have distinct numerals.
pub proof fn lemma_decimal_injective(a: nat, b: nat)
    requires
        decimal(a) == decimal(b),
    ensures
        a == b,
    decreases a,
{
    lemma_decimal_len(a);
    lemma_decimal_len(b);
    if a < 10 && b < 10 {
        assert(decimal(a) == seq![digit_char(a)]);
        assert(decimal(b) == seq![digit_char(b)]);
        assert(seq![digit_char(a)][0] == digit_char(a));
        assert(seq![digit_char(b)][0] == digit_char(b));
        lemma_digit_injective(a, b);
    } else if a >= 10 && b >= 10 {
        let da = decimal(a);
        assert(da.last() == digit_char(a % 10));
        assert(decimal(b).last() == digit_char(b % 10));
        lemma_digit_injective(a % 10, b % 10);
        assert(da.drop_last() =~= decimal(a / 10));
        assert(decimal(b).drop_last() =~= decimal(b / 10));
        lemma_decimal_injective(a / 10, b / 10);
    }
}

/// Relies on String::push: the character is appended at the end.
#[verifier::external_body]
pub(crate) fn push_char(s: &mut String, c: char)
    ensures
        final(s)@ == old(s)@.push(c),
{
    s.push(c)
}

fn digit(d: u64) -> (c: char)
    requires
        d < 10,
    ensures
        c == digit_char(d as nat),
{
    if d == 0 {
        '0'
    } else if d == 1 {
        '1'
    } else if d == 2 {
        '2'
    } else if d == 3 {
        '3'
    } else if d == 4 {
        '4'
    } else if d == 5 {
        '5'
    } else if d == 6 {
        '6'
    } else if d == 7 {
        '7'
    } else if d == 8 {
        '8'
    } else {
        '9'
    }
}

/// Appends the decimal numeral of `n`.
pub fn push_decimal(s: &mut String, n: u64)
    ensures
        final(s)@ == old(s)@ + decimal(n as nat),
    decreases n,
{
    if n >= 10 {
        push_decimal(s, n / 10);
    }
    push_char(s, digit(n % 10));
    assert(n < 10 ==> n % 10 == n);
}

/// Appends `text` with its reserved characters escaped.
pub fn push_escaped(out: &mut String, text: &str)
    ensures
        final(out)@ == old(out)@ + escape_text(text@),
{
    let len = text.unicode_len();
    let ghost start = out@;
    let mut i: usize = 0;
    while i < len
        invariant
            len == text@.len(),
            i <= len,
            out@ == start + escape_text(text@.subrange(0, i as int)),
        decreases len - i,
    {
        let c = text.get_char(i);
        proof {
            reveal_strlit("&amp;");
            reveal_strlit("&lt;");
            reveal_strlit("&gt;");
            reveal_strlit("&quot;");
            reveal_strlit("&apos;");
        }
        if c == '&' {
            out.append("&amp;");
        } else if c == '<' {
            out.append("&lt;");
        } else if c == '>' {
            out.append("&gt;");
        } else if c == '"' {
            out.append("&quot;");
        } else if c == '\'' {
            out.append("&apos;");
        } else {
            push_char(out, c);
        }
        assert(text@.subrange(0, i + 1).drop_last() =~= text@.subrange(0, i as int));
        i = i + 1;
    }
    assert(text@.subrange(0, len as int) =~= text@);
}

} // verus!

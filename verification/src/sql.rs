//! Pieces of SQL text: decimal numbers, quoted literals and the splitting of
//! scripts into statements.

use vstd::prelude::*;
use vstd::string::*;
use crate::text::{chars_of, push_char, push_str, text_of};

verus! {

/// The character of a decimal digit.
pub open spec fn digit_char(d: int) -> char {
    (('0' as int) + d) as char
}

/// The decimal digits of a natural number, without leading zeros.
pub open spec fn digits(n: nat) -> Seq<char>
    decreases n,
{
    if n < 10 {
        seq![digit_char(n as int)]
    } else {
        digits(n / 10).push(digit_char(n as int % 10))
    }
}

/// The decimal text of an integer, with a leading `-` when negative.
pub open spec fn decimal(n: int) -> Seq<char> {
    if n < 0 {
        seq!['-'] + digits((-n) as nat)
    } else {
        digits(n as nat)
    }
}

/// The character of a decimal digit.
fn digit(d: u64) -> (c: char)
    requires
        d < 10,
    ensures
        c == digit_char(d as int),
{
    let b: u8 = 48u8 + (d as u8);
    b as char
}

/// The decimal text of a natural number.
pub fn u64_text(n: u64) -> (s: String)
    ensures
        s@ == digits(n as nat),
    decreases n,
{
    if n < 10 {
        let mut s = String::new();
        push_char(&mut s, digit(n));
        s
    } else {
        let mut s = u64_text(n / 10);
        push_char(&mut s, digit(n % 10));
        s
    }
}

/// The decimal text of an integer.
pub fn i64_text(n: i64) -> (s: String)
    ensures
        s@ == decimal(n as int),
{
    if n < 0 {
        let m: u64 = if n == i64::MIN {
            9223372036854775808u64
        } else {
            (-n) as u64
        };
        let d = u64_text(m);
        let mut s = String::from_str("-");
        push_str(&mut s, d.as_str());
        proof {
            reveal_strlit("-");
        }
        s
    } else {
        u64_text(n as u64)
    }
}

/// The text of a boolean in SQL: `true` or `false`.
pub open spec fn bool_text(b: bool) -> Seq<char> {
    if b {
        "true"@
    } else {
        "false"@
    }
}

/// `s` with every single quote doubled, so that it can stand between single
/// quotes in SQL.
pub open spec fn escaped(s: Seq<char>) -> Seq<char>
    decreases s.len(),
{
    if s.len() == 0 {
        Seq::empty()
    } else {
        escaped(s.drop_last()) + (if s.last() == '\'' {
            seq!['\'', '\'']
        } else {
            seq![s.last()]
        })
    }
}

/// The SQL string literal of a text: the text, quotes doubled, between
/// single quotes.
pub open spec fn quoted(s: Seq<char>) -> Seq<char> {
    seq!['\''] + escaped(s) + seq!['\'']
}

/// Appends `t` with every single quote doubled.
pub fn push_escaped(out: &mut String, t: &str)
    ensures
        final(out)@ == old(out)@ + escaped(t@),
{
    let n = t.unicode_len();
    let mut i: usize = 0;
    while i < n
        invariant
            n == t@.len(),
            i <= n,
            out@ == old(out)@ + escaped(t@.subrange(0, i as int)),
        decreases n - i,
    {
        let c = t.get_char(i);
        let ghost before = out@;
        if c == '\'' {
            push_char(out, '\'');
            push_char(out, '\'');
        } else {
            push_char(out, c);
        }
        proof {
            let pre = t@.subrange(0, i as int);
            let post = t@.subrange(0, i + 1);
            assert(post.drop_last() =~= pre);
            assert(post.last() == c);
            if c == '\'' {
                assert(out@ =~= old(out)@ + escaped(post));
            } else {
                assert(out@ =~= old(out)@ + escaped(post));
            }
        }
        i = i + 1;
    }
    assert(t@.subrange(0, n as int) =~= t@);
}

/// Escapes a text for use between single quotes in SQL: every single quote
/// is doubled.
pub fn sql_escape(t: &str) -> (s: String)
    ensures
        s@ == escaped(t@),
{
    let mut s = String::new();
    push_escaped(&mut s, t);
    assert(s@ =~= escaped(t@));
    s
}

/// Appends the SQL string literal of a text.
pub fn push_quoted(out: &mut String, t: &str)
    ensures
        final(out)@ == old(out)@ + quoted(t@),
{
    push_char(out, '\'');
    push_escaped(out, t);
    push_char(out, '\'');
    assert(out@ =~= old(out)@ + quoted(t@));
}

/// The number of single quotes in a text.
pub open spec fn quote_count(s: Seq<char>) -> nat
    decreases s.len(),
{
    if s.len() == 0 {
        0
    } else {
        quote_count(s.drop_last()) + if s.last() == '\'' {
            1nat
        } else {
            0nat
        }
    }
}

/// Undoes the doubling of quotes (reads pairs of quotes as one quote).
pub open spec fn unescaped(s: Seq<char>) -> Seq<char>
    decreases s.len(),
{
    if s.len() == 0 {
        Seq::empty()
    } else if s.len() >= 2 && s[0] == '\'' && s[1] == '\'' {
        seq!['\''] + unescaped(s.subrange(2, s.len() as int))
    } else {
        seq![s[0]] + unescaped(s.subrange(1, s.len() as int))
    }
}

/// The escaping of a text adds one character per quote.
pub proof fn lemma_escaped_len(s: Seq<char>)
    ensures
        escaped(s).len() == s.len() + quote_count(s),
    decreases s.len(),
{
    if s.len() > 0 {
        lemma_escaped_len(s.drop_last());
    }
}

/// Escaping a text that follows another escapes each part on its own.
proof fn lemma_escaped_append(a: Seq<char>, b: Seq<char>)
    ensures
        escaped(a + b) == escaped(a) + escaped(b),
    decreases b.len(),
{
    if b.len() == 0 {
        assert(a + b =~= a);
        assert(escaped(a) + escaped(b) =~= escaped(a));
    } else {
        lemma_escaped_append(a, b.drop_last());
        assert((a + b).drop_last() =~= a + b.drop_last());
        assert((a + b).last() == b.last());
        assert(escaped(a + b) =~= escaped(a) + escaped(b));
    }
}

/// Escaping loses nothing: the text is recovered from its escaped form.
pub proof fn lemma_unescape_escaped(s: Seq<char>)
    ensures
        unescaped(escaped(s)) == s,
    decreases s.len(),
{
    if s.len() > 0 {
        let head = s[0];
        let tail = s.subrange(1, s.len() as int);
        assert(s =~= seq![head] + tail);
        lemma_escaped_append(seq![head], tail);
        assert(seq![head].drop_last() =~= Seq::<char>::empty());
        assert(escaped(Seq::<char>::empty()) == Seq::<char>::empty());
        assert(seq![head].last() == head);
        let e = escaped(s);
        lemma_unescape_escaped(tail);
        if head == '\'' {
            assert(escaped(seq![head]) =~= seq!['\'', '\'']);
            assert(e =~= seq!['\'', '\''] + escaped(tail));
            assert(e.subrange(2, e.len() as int) =~= escaped(tail));
        } else {
            assert(escaped(seq![head]) =~= seq![head]);
            assert(e =~= seq![head] + escaped(tail));
            assert(e.subrange(1, e.len() as int) =~= escaped(tail));
        }
    }
}

// ---------------------------------------------------------------------------
// Scripts
// ---------------------------------------------------------------------------

/// The characters with the Unicode `White_Space` property.
pub open spec fn is_white_space(c: char) -> bool {
    ||| '\u{9}' <= c <= '\u{d}'
    ||| c == ' '
    ||| c == '\u{85}'
    ||| c == '\u{a0}'
    ||| c == '\u{1680}'
    ||| '\u{2000}' <= c <= '\u{200a}'
    ||| c == '\u{2028}'
    ||| c == '\u{2029}'
    ||| c == '\u{202f}'
    ||| c == '\u{205f}'
    ||| c == '\u{3000}'
}

/// Whether a character is white space: the same answer as
/// `char::is_whitespace`, which tests the Unicode `White_Space` property.
fn white_space(c: char) -> (r: bool)
    ensures
        r == is_white_space(c),
{
    ('\u{9}' <= c && c <= '\u{d}') || c == ' ' || c == '\u{85}' || c == '\u{a0}' || c == '\u{1680}'
        || ('\u{2000}' <= c && c <= '\u{200a}') || c == '\u{2028}' || c == '\u{2029}' || c == '\u{202f}'
        || c == '\u{205f}' || c == '\u{3000}'
}

/// `s` without its leading white space.
pub open spec fn trim_start(s: Seq<char>) -> Seq<char>
    decreases s.len(),
{
    if s.len() > 0 && is_white_space(s[0]) {
        trim_start(s.drop_first())
    } else {
        s
    }
}

/// `s` without its trailing white space.
pub open spec fn trim_end(s: Seq<char>) -> Seq<char>
    decreases s.len(),
{
    if s.len() > 0 && is_white_space(s.last()) {
        trim_end(s.drop_last())
    } else {
        s
    }
}

/// `s` without leading and trailing white space.
pub open spec fn trim(s: Seq<char>) -> Seq<char> {
    trim_end(trim_start(s))
}

/// Whether `p` occurs in `s` at position `i`.
pub open spec fn occurs_at(s: Seq<char>, p: Seq<char>, i: int) -> bool {
    0 <= i && i + p.len() <= s.len() && s.subrange(i, i + p.len()) == p
}

/// The first position at or after `i` where `p` occurs in `s`, or -1.
pub open spec fn find_from(s: Seq<char>, p: Seq<char>, i: int) -> int
    decreases s.len() - i,
{
    if p.len() == 0 || i < 0 || i + p.len() > s.len() {
        -1
    } else if occurs_at(s, p, i) {
        i
    } else {
        find_from(s, p, i + 1)
    }
}

/// A position found by `find_from` is an occurrence at or after the start.
pub proof fn lemma_find_from(s: Seq<char>, p: Seq<char>, i: int)
    ensures
        find_from(s, p, i) >= 0 ==> i <= find_from(s, p, i) && occurs_at(s, p, find_from(s, p, i)),
    decreases s.len() - i,
{
    if !(p.len() == 0 || i < 0 || i + p.len() > s.len()) && !occurs_at(s, p, i) {
        lemma_find_from(s, p, i + 1);
    }
}

/// The statement of a piece of script: the piece without surrounding white
/// space, kept only when something remains.
pub open spec fn kept(piece: Seq<char>) -> Seq<Seq<char>> {
    if trim(piece).len() == 0 {
        Seq::empty()
    } else {
        seq![trim(piece)]
    }
}

/// The statements of `s` from position `start` on: `s` is cut at each
/// occurrence of the separator `p`, each piece is trimmed, and empty pieces
/// are dropped.
pub open spec fn statements_from(s: Seq<char>, p: Seq<char>, start: int) -> Seq<Seq<char>>
    decreases s.len() - start,
{
    if p.len() == 0 || start < 0 || start > s.len() {
        Seq::empty()
    } else {
        let i = find_from(s, p, start);
        proof {
            lemma_find_from(s, p, start);
        }
        if i < 0 {
            kept(s.subrange(start, s.len() as int))
        } else {
            kept(s.subrange(start, i)) + statements_from(s, p, i + p.len())
        }
    }
}

/// The statements of a script with separator `p`.
pub open spec fn statements(s: Seq<char>, p: Seq<char>) -> Seq<Seq<char>> {
    statements_from(s, p, 0)
}

/// Whether a text is a statement as cut from a script: not empty, and
/// neither starting nor ending with white space.
pub open spec fn is_clean_statement(t: Seq<char>) -> bool {
    t.len() > 0 && !is_white_space(t[0]) && !is_white_space(t.last())
}

proof fn lemma_trim_start_clean(x: Seq<char>)
    ensures
        trim_start(x).len() > 0 ==> !is_white_space(trim_start(x)[0]),
    decreases x.len(),
{
    if x.len() > 0 && is_white_space(x[0]) {
        lemma_trim_start_clean(x.drop_first());
    }
}

proof fn lemma_trim_end_prefix(y: Seq<char>)
    ensures
        trim_end(y).len() <= y.len(),
        forall|i: int| 0 <= i < trim_end(y).len() ==> trim_end(y)[i] == y[i],
        trim_end(y).len() > 0 ==> !is_white_space(trim_end(y).last()),
    decreases y.len(),
{
    if y.len() > 0 && is_white_space(y.last()) {
        lemma_trim_end_prefix(y.drop_last());
        assert forall|i: int| 0 <= i < trim_end(y).len() implies trim_end(y)[i] == y[i] by {
            assert(trim_end(y) == trim_end(y.drop_last()));
            assert(y.drop_last()[i] == y[i]);
        }
    }
}

proof fn lemma_trim_clean(x: Seq<char>)
    ensures
        trim(x).len() > 0 ==> is_clean_statement(trim(x)),
{
    lemma_trim_start_clean(x);
    lemma_trim_end_prefix(trim_start(x));
}

/// Every statement cut from a script is non-empty and has no surrounding
/// white space.
pub proof fn lemma_statements_are_clean(s: Seq<char>, p: Seq<char>, start: int)
    ensures
        forall|k: int|
            0 <= k < statements_from(s, p, start).len() ==> is_clean_statement(
                #[trigger] statements_from(s, p, start)[k],
            ),
    decreases s.len() - start,
{
    if !(p.len() == 0 || start < 0 || start > s.len()) {
        let i = find_from(s, p, start);
        lemma_find_from(s, p, start);
        if i < 0 {
            lemma_trim_clean(s.subrange(start, s.len() as int));
        } else {
            lemma_trim_clean(s.subrange(start, i));
            lemma_statements_are_clean(s, p, i + p.len());
            let head = kept(s.subrange(start, i));
            let tail = statements_from(s, p, i + p.len());
            assert(statements_from(s, p, start) == head + tail);
            assert forall|k: int| 0 <= k < (head + tail).len() implies is_clean_statement(
                #[trigger] (head + tail)[k],
            ) by {
                if k >= head.len() {
                    assert((head + tail)[k] == tail[k - head.len()]);
                }
            }
        }
    }
}

/// The trimmed text of `chars[from..to]`.
fn trimmed(chars: &Vec<char>, from: usize, to: usize) -> (s: String)
    requires
        from <= to <= chars@.len(),
    ensures
        s@ == trim(chars@.subrange(from as int, to as int)),
{
    let ghost whole = chars@.subrange(from as int, to as int);
    let mut a = from;
    while a < to && white_space(chars[a])
        invariant
            from <= a <= to,
            to <= chars@.len(),
            whole == chars@.subrange(from as int, to as int),
            trim_start(whole) == trim_start(chars@.subrange(a as int, to as int)),
        decreases to - a,
    {
        assert(chars@.subrange(a as int, to as int).drop_first() =~= chars@.subrange(a + 1, to as int));
        a = a + 1;
    }
    assert(trim_start(chars@.subrange(a as int, to as int)) == chars@.subrange(a as int, to as int));
    let ghost started = chars@.subrange(a as int, to as int);
    let mut b = to;
    while b > a && white_space(chars[b - 1])
        invariant
            from <= a <= b <= to,
            to <= chars@.len(),
            started == chars@.subrange(a as int, to as int),
            trim_end(started) == trim_end(chars@.subrange(a as int, b as int)),
        decreases b - a,
    {
        assert(chars@.subrange(a as int, b as int).drop_last() =~= chars@.subrange(a as int, b - 1));
        b = b - 1;
    }
    assert(trim_end(chars@.subrange(a as int, b as int)) == chars@.subrange(a as int, b as int));
    text_of(chars, a, b)
}

/// Whether the separator occurs at position `i`.
fn separator_at(chars: &Vec<char>, sep: &Vec<char>, i: usize) -> (r: bool)
    requires
        i + sep@.len() <= chars@.len(),
    ensures
        r == occurs_at(chars@, sep@, i as int),
{
    let n = chars.len();
    let mut k: usize = 0;
    while k < sep.len()
        invariant
            i + sep@.len() <= chars@.len(),
            n == chars@.len(),
            k <= sep@.len(),
            forall|j: int| 0 <= j < k ==> chars@[i + j] == sep@[j],
        decreases sep@.len() - k,
    {
        if chars[i + k] != sep[k] {
            assert(chars@.subrange(i as int, i + sep@.len())[k as int] != sep@[k as int]);
            return false;
        }
        k = k + 1;
    }
    assert(chars@.subrange(i as int, i + sep@.len()) =~= sep@);
    true
}

/// Cuts a script into its statements: the script is split at each
/// occurrence of the separator, each piece is trimmed of white space, and
/// empty pieces are dropped.
pub fn script_statements(script: &str, separator: &str) -> (out: Vec<String>)
    requires
        separator@.len() > 0,
    ensures
        out@.map_values(|t: String| t@) == statements(script@, separator@),
{
    let chars = chars_of(script);
    let sep = chars_of(separator);
    let n = chars.len();
    let m = sep.len();
    let mut out: Vec<String> = Vec::new();
    let mut start: usize = 0;
    let mut i: usize = 0;
    assert(out@.map_values(|t: String| t@) =~= Seq::<Seq<char>>::empty());
    while m <= n && i <= n - m
        invariant
            n == chars@.len(),
            m == sep@.len(),
            m > 0,
            start <= i <= n,
            chars@ == script@,
            sep@ == separator@,
            find_from(chars@, sep@, start as int) == find_from(chars@, sep@, i as int),
            statements(chars@, sep@) == out@.map_values(|t: String| t@) + statements_from(
                chars@,
                sep@,
                start as int,
            ),
        decreases n - i,
    {
        if separator_at(&chars, &sep, i) {
            let ghost before = out@.map_values(|t: String| t@);
            let piece = trimmed(&chars, start, i);
            assert(find_from(chars@, sep@, i as int) == i as int);
            if piece.unicode_len() != 0 {
                out.push(piece);
                assert(out@.map_values(|t: String| t@) =~= before + kept(
                    chars@.subrange(start as int, i as int),
                ));
            } else {
                assert(out@.map_values(|t: String| t@) =~= before + kept(
                    chars@.subrange(start as int, i as int),
                ));
            }
            start = i + m;
            i = i + m;
        } else {
            i = i + 1;
        }
    }
    assert(find_from(chars@, sep@, i as int) == -1);
    let ghost before = out@.map_values(|t: String| t@);
    let piece = trimmed(&chars, start, n);
    if piece.unicode_len() != 0 {
        out.push(piece);
    }
    assert(out@.map_values(|t: String| t@) =~= before + kept(chars@.subrange(start as int, n as int)));
    out
}

} // verus!

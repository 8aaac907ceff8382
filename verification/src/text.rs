//! Text helpers: decimal numerals, trimming of white space, and joining.

use joinery::JoinableIterator;
use vstd::prelude::*;
use vstd::string::*;

verus! {

/// The character that stands for the decimal digit `d`.
pub open spec fn digit_char(d: nat) -> char
    recommends
        d < 10,
{
    if d == 0 {
        '0'
    } else if d == 1 {
        '1'
    } else if d == 2 {
        '2'
    } else if d == 3 {
        '3'
    } else if d == 4 {
        '4'
    } else if d == 5 {
        '5'
    } else if d == 6 {
        '6'
    } else if d == 7 {
        '7'
    } else if d == 8 {
        '8'
    } else {
        '9'
    }
}

/// The decimal numeral of `n`, without sign or leading zeros.
pub open spec fn decimal(n: nat) -> Seq<char>
    decreases n,
{
    if n < 10 {
        seq![digit_char(n)]
    } else {
        decimal(n / 10).push(digit_char(n % 10))
    }
}

/// The one-character string of a decimal digit.
fn digit_str(d: usize) -> (s: &'static str)
    requires
        d < 10,
    ensures
        s@ == seq![digit_char(d as nat)],
{
    proof {
        reveal_strlit("0");
        reveal_strlit("1");
        reveal_strlit("2");
        reveal_strlit("3");
        reveal_strlit("4");
        reveal_strlit("5");
        reveal_strlit("6");
        reveal_strlit("7");
        reveal_strlit("8");
        reveal_strlit("9");
    }
    let s = match d {
        0 => "0",
        1 => "1",
        2 => "2",
        3 => "3",
        4 => "4",
        5 => "5",
        6 => "6",
        7 => "7",
        8 => "8",
        _ => "9",
    };
    assert(s@ =~= seq![digit_char(d as nat)]);
    s
}

/// Renders `n` as a decimal numeral.
pub fn render_decimal(n: usize) -> (s: String)
    ensures
        s@ == decimal(n as nat),
    decreases n,
{
    if n < 10 {
        String::from_str(digit_str(n))
    } else {
        let mut s = render_decimal(n / 10);
        s.append(digit_str(n % 10));
        assert(s@ =~= decimal(n as nat));
        s
    }
}

/// Copies the characters of `s` into a vector.
pub fn chars_of(s: &str) -> (v: Vec<char>)
    ensures
        v@ == s@,
{
    let mut v: Vec<char> = Vec::new();
    for c in it: s.chars()
        invariant
            v@ == it.seq().take(it.index() as int),
            it.seq() == s@,
    {
        v.push(c);
    }
    v
}

/// Whether two strings hold the same text.
pub fn same_text(a: &str, b: &str) -> (same: bool)
    ensures
        same == (a@ == b@),
{
    String::from_str(a) == String::from_str(b)
}

/// Whether `c` is white space: the code points that Unicode gives the
/// property `White_Space`.
pub open spec fn is_whitespace(c: char) -> bool {
    ||| '\u{9}' <= c <= '\u{d}'
    ||| c == ' '
    ||| c == '\u{85}'
    ||| c == '\u{a0}'
    ||| c == '\u{1680}'
    ||| '\u{2000}' <= c <= '\u{200a}'
    ||| c == '\u{2028}'
    ||| c == '\u{2029}'
    ||| c == '\u{202f}'
    ||| c == '\u{205f}'
    ||| c == '\u{3000}'
}

/// `s` without the white space at its start.
pub open spec fn trim_start(s: Seq<char>) -> Seq<char>
    decreases s.len(),
{
    if s.len() > 0 && is_whitespace(s.first()) {
        trim_start(s.drop_first())
    } else {
        s
    }
}

/// `s` without the white space at its end.
pub open spec fn trim_end(s: Seq<char>) -> Seq<char>
    decreases s.len(),
{
    if s.len() > 0 && is_whitespace(s.last()) {
        trim_end(s.drop_last())
    } else {
        s
    }
}

/// `s` without the white space around it.
pub open spec fn trim(s: Seq<char>) -> Seq<char> {
    trim_end(trim_start(s))
}

/// White space at the start of a text does not outlast `trim_start`.
proof fn lemma_trim_start_skips(before: Seq<char>, rest: Seq<char>)
    requires
        forall|i: int| 0 <= i < before.len() ==> is_whitespace(#[trigger] before[i]),
    ensures
        trim_start(before + rest) == trim_start(rest),
    decreases before.len(),
{
    if before.len() > 0 {
        let whole = before + rest;
        assert(whole.first() == before[0]);
        assert(whole.drop_first() =~= before.drop_first() + rest);
        assert forall|i: int| 0 <= i < before.drop_first().len() implies is_whitespace(
            #[trigger] before.drop_first()[i],
        ) by {
            assert(before.drop_first()[i] == before[i + 1]);
        }
        lemma_trim_start_skips(before.drop_first(), rest);
    } else {
        assert(before + rest =~= rest);
    }
}

/// White space at the end of a text does not outlast `trim_end`.
proof fn lemma_trim_end_skips(rest: Seq<char>, after: Seq<char>)
    requires
        forall|i: int| 0 <= i < after.len() ==> is_whitespace(#[trigger] after[i]),
    ensures
        trim_end(rest + after) == trim_end(rest),
    decreases after.len(),
{
    if after.len() > 0 {
        let whole = rest + after;
        assert(whole.last() == after[after.len() - 1]);
        assert(whole.drop_last() =~= rest + after.drop_last());
        assert forall|i: int| 0 <= i < after.drop_last().len() implies is_whitespace(
            #[trigger] after.drop_last()[i],
        ) by {
            assert(after.drop_last()[i] == after[i]);
        }
        lemma_trim_end_skips(rest, after.drop_last());
    } else {
        assert(rest + after =~= rest);
    }
}

/// Trimming takes off exactly the white space around a text: where `core`
/// neither starts nor ends with white space, it is what is left of
/// `before + core + after` for any white space `before` and `after`.
pub proof fn lemma_trim_padded(before: Seq<char>, core: Seq<char>, after: Seq<char>)
    requires
        forall|i: int| 0 <= i < before.len() ==> is_whitespace(#[trigger] before[i]),
        forall|i: int| 0 <= i < after.len() ==> is_whitespace(#[trigger] after[i]),
        core.len() > 0 ==> !is_whitespace(core.first()) && !is_whitespace(core.last()),
    ensures
        trim(before + core + after) == core,
{
    assert(before + core + after =~= before + (core + after));
    lemma_trim_start_skips(before, core + after);
    if core.len() > 0 {
        assert((core + after).first() == core.first());
        assert(trim_start(core + after) == core + after);
        lemma_trim_end_skips(core, after);
    } else {
        assert(core + after =~= after + Seq::<char>::empty());
        lemma_trim_start_skips(after, Seq::<char>::empty());
        assert(core =~= Seq::<char>::empty());
    }
}

/// Whether `c` is white space.
pub fn char_is_whitespace(c: char) -> (b: bool)
    ensures
        b == is_whitespace(c),
{
    ('\u{9}' <= c && c <= '\u{d}') || c == ' ' || c == '\u{85}' || c == '\u{a0}' || c == '\u{1680}'
        || ('\u{2000}' <= c && c <= '\u{200a}') || c == '\u{2028}' || c == '\u{2029}' || c
        == '\u{202f}' || c == '\u{205f}' || c == '\u{3000}'
}

/// Whether `s`, with the white space around it removed, reads `expected`.
pub fn trimmed_equals(s: &str, expected: &str) -> (b: bool)
    ensures
        b == (trim(s@) == expected@),
{
    let text = chars_of(s);
    let wanted = chars_of(expected);
    let len = text.len();
    let mut start: usize = 0;
    assert(text@.subrange(0, len as int) =~= text@);
    while start < len && char_is_whitespace(text[start])
        invariant
            len == text.len(),
            start <= len,
            trim_start(text@) == trim_start(text@.subrange(start as int, len as int)),
        decreases len - start,
    {
        assert(text@.subrange(start as int, len as int).drop_first() =~= text@.subrange(
            start + 1,
            len as int,
        ));
        start += 1;
    }
    let mut end: usize = len;
    while end > start && char_is_whitespace(text[end - 1])
        invariant
            len == text.len(),
            start <= end <= len,
            trim_end(text@.subrange(start as int, len as int)) == trim_end(
                text@.subrange(start as int, end as int),
            ),
        decreases end,
    {
        assert(text@.subrange(start as int, end as int).drop_last() =~= text@.subrange(
            start as int,
            end - 1,
        ));
        end -= 1;
    }
    assert(trim(s@) == text@.subrange(start as int, end as int));
    if end - start != wanted.len() {
        return false;
    }
    let mut i: usize = 0;
    while i < wanted.len()
        invariant
            start <= end <= text.len(),
            end - start == wanted.len(),
            i <= wanted.len(),
            wanted@ == expected@,
            trim(s@) == text@.subrange(start as int, end as int),
            forall|j: int| 0 <= j < i ==> text@[start + j] == wanted@[j],
        decreases wanted.len() - i,
    {
        if text[start + i] != wanted[i] {
            assert(text@.subrange(start as int, end as int)[i as int] != wanted@[i as int]);
            return false;
        }
        i += 1;
    }
    assert(text@.subrange(start as int, end as int) =~= wanted@);
    true
}

/// The parts in order, with `separator` between each two neighbours.
pub open spec fn joined(parts: Seq<Seq<char>>, separator: Seq<char>) -> Seq<char>
    decreases parts.len(),
{
    if parts.len() == 0 {
        Seq::empty()
    } else if parts.len() == 1 {
        parts[0]
    } else {
        joined(parts.drop_last(), separator) + separator + parts.last()
    }
}

/// Joins `parts` with `joinery::JoinableIterator::join_with` and renders the
/// result with `to_string`.
///
/// Trusted: `joinery` writes the first part, and before every later part the
/// separator; nothing for no parts.
#[verifier::external_body]
pub(crate) fn join_strings(parts: &Vec<String>, separator: &str) -> (text: String)
    ensures
        text@ == joined(parts.deep_view(), separator@),
{
    parts.iter().join_with(separator).to_string()
}

} // verus!

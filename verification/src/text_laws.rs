//! What the string operations of `text` do, stated without their definitions.

use vstd::prelude::*;

use crate::text::{
    ascii_lower, eq_ignore_ascii_case_spec, is_white_space, leading_white_space, occurs_at, replace_all,
    seq_contains, trailing_white_space, trimmed,
};

verus! {

/// The white-space characters are exactly these 25: tab, line feed, vertical
/// tab, form feed, carriage return, space, next line, no-break space, Ogham
/// space mark, the eleven spaces U+2000 to U+200A, line separator, paragraph
/// separator, narrow no-break space, medium mathematical space and ideographic
/// space.
pub proof fn law_white_space_characters(c: char)
    ensures
        is_white_space(c) <==> (c == '\t' || c == '\n' || c == '\u{b}' || c == '\u{c}' || c == '\r'
            || c == ' ' || c == '\u{85}' || c == '\u{a0}' || c == '\u{1680}' || c == '\u{2000}' || c
            == '\u{2001}' || c == '\u{2002}' || c == '\u{2003}' || c == '\u{2004}' || c == '\u{2005}'
            || c == '\u{2006}' || c == '\u{2007}' || c == '\u{2008}' || c == '\u{2009}' || c
            == '\u{200a}' || c == '\u{2028}' || c == '\u{2029}' || c == '\u{202f}' || c == '\u{205f}'
            || c == '\u{3000}'),
{
}

proof fn lemma_leading(s: Seq<char>)
    ensures
        leading_white_space(s) <= s.len(),
        forall|i: int| 0 <= i < leading_white_space(s) ==> is_white_space(#[trigger] s[i]),
        leading_white_space(s) < s.len() ==> !is_white_space(s[leading_white_space(s) as int]),
    decreases s.len(),
{
    if s.len() > 0 && is_white_space(s[0]) {
        let t = s.skip(1);
        lemma_leading(t);
        assert forall|i: int| 0 <= i < leading_white_space(s) implies is_white_space(#[trigger] s[i]) by {
            if i > 0 {
                assert(s[i] == t[i - 1]);
            }
        }
        if leading_white_space(s) < s.len() {
            assert(s[leading_white_space(s) as int] == t[leading_white_space(t) as int]);
        }
    }
}

proof fn lemma_trailing(s: Seq<char>)
    ensures
        trailing_white_space(s) <= s.len(),
        forall|i: int| s.len() - trailing_white_space(s) <= i < s.len() ==> is_white_space(#[trigger] s[i]),
        trailing_white_space(s) < s.len() ==> !is_white_space(s[s.len() - trailing_white_space(s) - 1]),
    decreases s.len(),
{
    if s.len() > 0 && is_white_space(s.last()) {
        let t = s.drop_last();
        lemma_trailing(t);
        assert forall|i: int| s.len() - trailing_white_space(s) <= i < s.len() implies is_white_space(
            #[trigger] s[i],
        ) by {
            if i < s.len() - 1 {
                assert(s[i] == t[i]);
            }
        }
        if trailing_white_space(s) < s.len() {
            assert(s[s.len() - trailing_white_space(s) - 1] == t[t.len() - trailing_white_space(t) - 1]);
        }
    }
}

/// Trimming cuts a middle part out of the string: everything cut off before and
/// after it is white space, and the part kept neither starts nor ends with white
/// space.
pub proof fn law_trim_keeps_the_middle(s: Seq<char>)
    ensures
        exists|a: int, b: int|
            {
                &&& 0 <= a <= b <= s.len()
                &&& trimmed(s) == s.subrange(a, b)
                &&& forall|i: int| 0 <= i < a ==> is_white_space(#[trigger] s[i])
                &&& forall|i: int| b <= i < s.len() ==> is_white_space(#[trigger] s[i])
            },
        trimmed(s).len() > 0 ==> !is_white_space(trimmed(s)[0]) && !is_white_space(trimmed(s).last()),
{
    lemma_leading(s);
    let a = leading_white_space(s) as int;
    let rest = s.skip(a);
    lemma_trailing(rest);
    let b = a + rest.len() - trailing_white_space(rest);
    assert(trimmed(s) =~= s.subrange(a, b));
    assert forall|i: int| b <= i < s.len() implies is_white_space(#[trigger] s[i]) by {
        assert(s[i] == rest[i - a]);
    }
    if trimmed(s).len() > 0 {
        assert(trimmed(s)[0] == s[a]);
        assert(trimmed(s).last() == rest[rest.len() - trailing_white_space(rest) - 1]);
    }
}

/// A string that does not hold the pattern comes out of the replacement unchanged.
pub proof fn law_replace_without_occurrence(s: Seq<char>, pat: Seq<char>, rep: Seq<char>)
    requires
        !seq_contains(s, pat),
    ensures
        replace_all(s, pat, rep) == s,
    decreases s.len(),
{
    if s.len() > 0 {
        assert(!occurs_at(s, pat, 0));
        let t = s.skip(1);
        assert forall|j: int| !occurs_at(t, pat, j) by {
            if occurs_at(t, pat, j) {
                assert(t.subrange(j, j + pat.len()) =~= s.subrange(j + 1, j + 1 + pat.len()));
                assert(occurs_at(s, pat, j + 1));
            }
        }
        law_replace_without_occurrence(t, pat, rep);
        assert(seq![s[0]] + t =~= s);
    }
}

/// A leading occurrence of a non-empty pattern is replaced, and the replacement
/// goes on after it.
pub proof fn law_replace_leading_occurrence(s: Seq<char>, pat: Seq<char>, rep: Seq<char>)
    requires
        pat.len() > 0,
    ensures
        replace_all(pat + s, pat, rep) == rep + replace_all(s, pat, rep),
{
    let x = pat + s;
    assert(x.subrange(0, pat.len() as int) =~= pat);
    assert(occurs_at(x, pat, 0));
    assert(x.skip(pat.len() as int) =~= s);
}

/// A pattern stands in any text built around it, and never in a shorter text.
pub proof fn law_contains(a: Seq<char>, pat: Seq<char>, b: Seq<char>, s: Seq<char>)
    ensures
        seq_contains(a + pat + b, pat),
        pat.len() > s.len() ==> !seq_contains(s, pat),
{
    let x = a + pat + b;
    assert(x.subrange(a.len() as int, (a.len() + pat.len()) as int) =~= pat);
    assert(occurs_at(x, pat, a.len() as int));
}

/// ASCII case folding: each capital letter `A` to `Z` folds to its small letter,
/// 32 code points above it; every other character is left as it is; so a string
/// equals itself and its folding-equal strings in any ASCII case, symmetrically.
pub proof fn law_ascii_case(c: char, a: Seq<char>, b: Seq<char>)
    ensures
        'A' <= c <= 'Z' ==> ascii_lower(c) as int == c as int + 32 && 'a' <= ascii_lower(c) <= 'z',
        !('A' <= c <= 'Z') ==> ascii_lower(c) == c,
        eq_ignore_ascii_case_spec(a, a),
        eq_ignore_ascii_case_spec(a, b) == eq_ignore_ascii_case_spec(b, a),
        a.len() != b.len() ==> !eq_ignore_ascii_case_spec(a, b),
{
}

} // verus!

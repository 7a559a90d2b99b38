//! Character-level string operations used by the presence logic, each stated
//! over the `Seq<char>` view of the strings it reads.

use vstd::prelude::*;

verus! {

/// The ASCII lower-case form of a character: `A`..=`Z` map to `a`..=`z`,
/// every other character is left as it is.
pub open spec fn ascii_lower(c: char) -> char {
    if 'A' <= c && c <= 'Z' {
        ((c as u32) + 32) as char
    } else {
        c
    }
}

/// Two character sequences are equal once ASCII letters are folded to lower case.
pub open spec fn eq_ignore_ascii_case_spec(a: Seq<char>, b: Seq<char>) -> bool {
    &&& a.len() == b.len()
    &&& forall|i: int| 0 <= i < a.len() ==> ascii_lower(#[trigger] a[i]) == ascii_lower(b[i])
}

/// `pat` stands in `s` at position `i`.
pub open spec fn occurs_at(s: Seq<char>, pat: Seq<char>, i: int) -> bool {
    &&& 0 <= i
    &&& i + pat.len() <= s.len()
    &&& s.subrange(i, i + pat.len()) == pat
}

/// `pat` stands somewhere in `s` (the empty pattern stands in every sequence).
pub open spec fn seq_contains(s: Seq<char>, pat: Seq<char>) -> bool {
    exists|i: int| #[trigger] occurs_at(s, pat, i)
}

/// Every occurrence of `pat` in `s`, found from left to right without overlap,
/// replaced by `rep`. An empty `pat` leaves `s` as it is.
pub open spec fn replace_all(s: Seq<char>, pat: Seq<char>, rep: Seq<char>) -> Seq<char>
    decreases s.len(),
{
    if s.len() == 0 {
        Seq::empty()
    } else if pat.len() > 0 && occurs_at(s, pat, 0) {
        rep + replace_all(s.skip(pat.len() as int), pat, rep)
    } else {
        seq![s[0]] + replace_all(s.skip(1), pat, rep)
    }
}

/// The Unicode lower-case form of a string, as `str::to_lowercase` computes it.
pub uninterp spec fn unicode_lowercase(s: Seq<char>) -> Seq<char>;

/// The characters with the Unicode property White_Space, which `str::trim`
/// removes: U+0009..=U+000D, U+0020, U+0085, U+00A0, U+1680, U+2000..=U+200A,
/// U+2028, U+2029, U+202F, U+205F and U+3000.
pub open spec fn is_white_space(c: char) -> bool {
    ||| '\u{9}' <= c && c <= '\u{d}'
    ||| c == ' '
    ||| c == '\u{85}'
    ||| c == '\u{a0}'
    ||| c == '\u{1680}'
    ||| '\u{2000}' <= c && c <= '\u{200a}'
    ||| c == '\u{2028}'
    ||| c == '\u{2029}'
    ||| c == '\u{202f}'
    ||| c == '\u{205f}'
    ||| c == '\u{3000}'
}

/// The number of white-space characters that open `s`.
pub open spec fn leading_white_space(s: Seq<char>) -> nat
    decreases s.len(),
{
    if s.len() > 0 && is_white_space(s[0]) {
        1 + leading_white_space(s.skip(1))
    } else {
        0
    }
}

/// The number of white-space characters that close `s`.
pub open spec fn trailing_white_space(s: Seq<char>) -> nat
    decreases s.len(),
{
    if s.len() > 0 && is_white_space(s.last()) {
        1 + trailing_white_space(s.drop_last())
    } else {
        0
    }
}

/// `s` with its leading and then its trailing white space cut off.
pub open spec fn trimmed(s: Seq<char>) -> Seq<char> {
    let rest = s.skip(leading_white_space(s) as int);
    rest.take(rest.len() - trailing_white_space(rest))
}

/// Calls `str::to_lowercase`. The contract claims only that the result is the
/// lower-case form named `unicode_lowercase` of the argument; what that form is
/// (the Unicode case mapping) is left unsaid.
#[verifier::external_body]
pub(crate) fn to_lowercase(s: &str) -> (r: String)
    ensures
        r@ == unicode_lowercase(s@),
{
    s.to_lowercase()
}

fn char_is_white_space(c: char) -> (r: bool)
    ensures
        r == is_white_space(c),
{
    ('\u{9}' <= c && c <= '\u{d}') || c == ' ' || c == '\u{85}' || c == '\u{a0}' || c == '\u{1680}'
        || ('\u{2000}' <= c && c <= '\u{200a}') || c == '\u{2028}' || c == '\u{2029}' || c == '\u{202f}'
        || c == '\u{205f}' || c == '\u{3000}'
}

/// `s` without its leading and trailing white space, as `str::trim` returns it.
pub fn trim(s: &str) -> (r: &str)
    ensures
        r@ == trimmed(s@),
{
    let n = s.unicode_len();
    let mut i: usize = 0;
    assert(s@.skip(0) =~= s@);
    while i < n && char_is_white_space(s.get_char(i))
        invariant
            n == s@.len(),
            i <= n,
            leading_white_space(s@) == i + leading_white_space(s@.skip(i as int)),
        decreases n - i,
    {
        assert(s@.skip(i as int).skip(1) =~= s@.skip(i + 1));
        i += 1;
    }
    let ghost rest = s@.skip(i as int);
    assert(leading_white_space(rest) == 0);
    let mut j: usize = n;
    assert(s@.subrange(i as int, n as int) =~= rest);
    while j > i && char_is_white_space(s.get_char(j - 1))
        invariant
            n == s@.len(),
            i <= j <= n,
            rest == s@.skip(i as int),
            trailing_white_space(rest) == (n - j) + trailing_white_space(s@.subrange(i as int, j as int)),
        decreases j - i,
    {
        assert(s@.subrange(i as int, j as int).drop_last() =~= s@.subrange(i as int, j - 1));
        j -= 1;
    }
    assert(trailing_white_space(s@.subrange(i as int, j as int)) == 0);
    assert(rest.take(rest.len() - trailing_white_space(rest)) =~= s@.subrange(i as int, j as int));
    s.substring_char(i, j)
}

fn char_to_ascii_lower(c: char) -> (r: char)
    ensures
        r == ascii_lower(c),
{
    if 'A' <= c && c <= 'Z' {
        let code: u8 = (c as u8) + 32;
        code as char
    } else {
        c
    }
}

/// Whether `a` and `b` are equal once ASCII letters are folded to lower case.
pub fn eq_ignore_ascii_case(a: &str, b: &str) -> (r: bool)
    ensures
        r == eq_ignore_ascii_case_spec(a@, b@),
{
    let a_len = a.unicode_len();
    let b_len = b.unicode_len();
    if a_len != b_len {
        return false;
    }
    let mut i: usize = 0;
    while i < a_len
        invariant
            a_len == a@.len(),
            b_len == b@.len(),
            a_len == b_len,
            i <= a_len,
            forall|k: int| 0 <= k < i ==> ascii_lower(#[trigger] a@[k]) == ascii_lower(b@[k]),
        decreases a_len - i,
    {
        if char_to_ascii_lower(a.get_char(i)) != char_to_ascii_lower(b.get_char(i)) {
            return false;
        }
        i += 1;
    }
    true
}

/// Whether `a` and `b` hold the same characters.
pub fn str_eq(a: &str, b: &str) -> (r: bool)
    ensures
        r == (a@ == b@),
{
    let a_len = a.unicode_len();
    let b_len = b.unicode_len();
    if a_len != b_len {
        return false;
    }
    let mut i: usize = 0;
    while i < a_len
        invariant
            a_len == a@.len(),
            b_len == b@.len(),
            a_len == b_len,
            i <= a_len,
            forall|k: int| 0 <= k < i ==> #[trigger] a@[k] == b@[k],
        decreases a_len - i,
    {
        if a.get_char(i) != b.get_char(i) {
            return false;
        }
        i += 1;
    }
    assert(a@ =~= b@);
    true
}

fn occurs_at_index(s: &str, s_len: usize, pat: &str, p_len: usize, i: usize) -> (r: bool)
    requires
        s_len == s@.len(),
        p_len == pat@.len(),
        i + p_len <= s_len,
    ensures
        r == occurs_at(s@, pat@, i as int),
{
    let mut j: usize = 0;
    while j < p_len
        invariant
            s_len == s@.len(),
            p_len == pat@.len(),
            i + p_len <= s_len,
            j <= p_len,
            forall|k: int| 0 <= k < j ==> s@[i + k] == #[trigger] pat@[k],
        decreases p_len - j,
    {
        if s.get_char(i + j) != pat.get_char(j) {
            assert(s@.subrange(i as int, i + p_len)[j as int] != pat@[j as int]);
            return false;
        }
        j += 1;
    }
    assert(s@.subrange(i as int, i + p_len) =~= pat@);
    true
}

/// Whether `pat` stands somewhere in `s`.
pub fn str_contains(s: &str, pat: &str) -> (r: bool)
    ensures
        r == seq_contains(s@, pat@),
{
    let s_len = s.unicode_len();
    let p_len = pat.unicode_len();
    if p_len > s_len {
        assert forall|k: int| !occurs_at(s@, pat@, k) by {}
        return false;
    }
    let last = s_len - p_len;
    let mut i: usize = 0;
    loop
        invariant
            s_len == s@.len(),
            p_len == pat@.len(),
            last == s_len - p_len,
            i <= last,
            forall|k: int| 0 <= k < i ==> !#[trigger] occurs_at(s@, pat@, k),
        ensures
            forall|k: int| 0 <= k <= last ==> !#[trigger] occurs_at(s@, pat@, k),
        decreases last - i,
    {
        if occurs_at_index(s, s_len, pat, p_len, i) {
            return true;
        }
        if i == last {
            break;
        }
        i += 1;
    }
    assert forall|k: int| !occurs_at(s@, pat@, k) by {}
    false
}

/// `s` with every occurrence of `pat`, found from left to right without
/// overlap, replaced by `rep`.
pub fn replace_str(s: &str, pat: &str, rep: &str) -> (r: String)
    requires
        pat@.len() > 0,
    ensures
        r@ == replace_all(s@, pat@, rep@),
{
    let s_len = s.unicode_len();
    let p_len = pat.unicode_len();
    let mut out = String::new();
    let mut i: usize = 0;
    assert(s@.skip(0) =~= s@);
    while i < s_len
        invariant
            s_len == s@.len(),
            p_len == pat@.len(),
            p_len > 0,
            i <= s_len,
            out@ + replace_all(s@.skip(i as int), pat@, rep@) == replace_all(s@, pat@, rep@),
        decreases s_len - i,
    {
        let ghost rest = s@.skip(i as int);
        if p_len <= s_len - i && occurs_at_index(s, s_len, pat, p_len, i) {
            assert(rest.subrange(0, p_len as int) =~= s@.subrange(i as int, i + p_len));
            assert(rest.skip(p_len as int) =~= s@.skip(i + p_len));
            out.append(rep);
            i += p_len;
            assert(out@ + replace_all(s@.skip(i as int), pat@, rep@) =~= replace_all(s@, pat@, rep@));
        } else {
            assert(!occurs_at(rest, pat@, 0)) by {
                if occurs_at(rest, pat@, 0) {
                    assert(rest.subrange(0, p_len as int) =~= s@.subrange(i as int, i + p_len));
                }
            }
            assert(rest.skip(1) =~= s@.skip(i + 1));
            let piece = s.substring_char(i, i + 1);
            assert(piece@ =~= seq![rest[0]]);
            out.append(piece);
            i += 1;
            assert(out@ + replace_all(s@.skip(i as int), pat@, rep@) =~= replace_all(s@, pat@, rep@));
        }
    }
    assert(s@.skip(i as int) =~= Seq::<char>::empty());
    assert(out@ =~= out@ + replace_all(s@.skip(i as int), pat@, rep@));
    out
}

/// A placeholder-like word: at least two characters, opened by `{`, closed by
/// `}`, with no brace in between.
pub open spec fn is_brace_word(w: Seq<char>) -> bool {
    &&& w.len() >= 2
    &&& w[0] == '{'
    &&& w[w.len() - 1] == '}'
    &&& forall|k: int| 1 <= k < w.len() - 1 ==> #[trigger] w[k] != '{' && w[k] != '}'
}

proof fn lemma_occurs_char(s: Seq<char>, p: Seq<char>, i: int, k: int)
    requires
        occurs_at(s, p, i),
        0 <= k < p.len(),
    ensures
        s[i + k] == p[k],
{
    assert(s.subrange(i, i + p.len())[k] == s[i + k]);
}

proof fn lemma_occurs_in_tail(s: Seq<char>, p: Seq<char>, i: int, n: int)
    requires
        occurs_at(s, p, i),
        0 <= n <= i,
    ensures
        occurs_at(s.skip(n), p, i - n),
{
    assert(s.skip(n).subrange(i - n, i - n + p.len()) =~= s.subrange(i, i + p.len()));
}

/// What stands in a sequence still stands in it behind any prefix.
pub proof fn lemma_contains_after_prefix(pre: Seq<char>, x: Seq<char>, t: Seq<char>)
    requires
        seq_contains(x, t),
    ensures
        seq_contains(pre + x, t),
{
    let i = choose|i: int| occurs_at(x, t, i);
    assert((pre + x).subrange(i + pre.len(), i + pre.len() + t.len()) =~= x.subrange(i, i + t.len()));
    assert(occurs_at(pre + x, t, i + pre.len()));
}

/// A sequence stands at the end of anything it is appended to.
pub proof fn lemma_contains_appended(x: Seq<char>, t: Seq<char>)
    ensures
        seq_contains(x + t, t),
{
    assert((x + t).subrange(x.len() as int, (x.len() + t.len()) as int) =~= t);
    assert(occurs_at(x + t, t, x.len() as int));
}

/// Where `pat` occurs, its replacement shows in the result.
pub proof fn lemma_replace_all_shows_replacement(s: Seq<char>, pat: Seq<char>, rep: Seq<char>, i: int)
    requires
        pat.len() > 0,
        occurs_at(s, pat, i),
    ensures
        seq_contains(replace_all(s, pat, rep), rep),
    decreases s.len(),
{
    if occurs_at(s, pat, 0) {
        let rest = replace_all(s.skip(pat.len() as int), pat, rep);
        assert((rep + rest).subrange(0, rep.len() as int) =~= rep);
        assert(occurs_at(rep + rest, rep, 0));
    } else {
        lemma_occurs_in_tail(s, pat, i, 1);
        lemma_replace_all_shows_replacement(s.skip(1), pat, rep, i - 1);
        lemma_contains_after_prefix(seq![s[0]], replace_all(s.skip(1), pat, rep), rep);
    }
}

/// With no occurrence of `q` starting in the first `k` positions, those `k`
/// characters pass through the replacement untouched.
proof fn lemma_replace_all_keeps_prefix(s: Seq<char>, q: Seq<char>, r: Seq<char>, k: int)
    requires
        0 <= k <= s.len(),
        q.len() > 0,
        forall|j: int| 0 <= j < k ==> !#[trigger] occurs_at(s, q, j),
    ensures
        replace_all(s, q, r) == s.take(k) + replace_all(s.skip(k), q, r),
    decreases k,
{
    if k == 0 {
        assert(s.skip(0) =~= s);
        assert(s.take(0) =~= Seq::<char>::empty());
    } else {
        assert(!occurs_at(s, q, 0));
        let t = s.skip(1);
        assert forall|j: int| 0 <= j < k - 1 implies !#[trigger] occurs_at(t, q, j) by {
            if occurs_at(t, q, j) {
                assert(t.subrange(j, j + q.len()) =~= s.subrange(j + 1, j + 1 + q.len()));
                assert(occurs_at(s, q, j + 1));
            }
        }
        lemma_replace_all_keeps_prefix(t, q, r, k - 1);
        assert(t.skip(k - 1) =~= s.skip(k));
        assert(s.take(k) =~= seq![s[0]] + t.take(k - 1));
    }
}

/// Replacing one brace word leaves an occurrence of another brace word standing:
/// two different brace words never overlap.
pub proof fn lemma_replace_all_keeps_brace_word(s: Seq<char>, p: Seq<char>, q: Seq<char>, r: Seq<char>, i: int)
    requires
        is_brace_word(p),
        is_brace_word(q),
        p != q,
        occurs_at(s, p, i),
    ensures
        seq_contains(replace_all(s, q, r), p),
    decreases s.len(),
{
    if occurs_at(s, q, 0) {
        if i < q.len() {
            lemma_occurs_char(s, p, i, 0);
            if i == 0 {
                if p.len() <= q.len() {
                    lemma_occurs_char(s, p, 0, p.len() - 1);
                    lemma_occurs_char(s, q, 0, p.len() - 1);
                    assert(p.len() == q.len());
                    assert(p =~= q) by {
                        assert forall|k: int| 0 <= k < p.len() implies p[k] == q[k] by {
                            lemma_occurs_char(s, p, 0, k);
                            lemma_occurs_char(s, q, 0, k);
                        }
                    }
                } else {
                    lemma_occurs_char(s, q, 0, q.len() - 1);
                    lemma_occurs_char(s, p, 0, q.len() - 1);
                    assert(false);
                }
            } else {
                lemma_occurs_char(s, q, 0, i);
                assert(false);
            }
        }
        lemma_occurs_in_tail(s, p, i, q.len() as int);
        lemma_replace_all_keeps_brace_word(s.skip(q.len() as int), p, q, r, i - q.len());
        lemma_contains_after_prefix(r, replace_all(s.skip(q.len() as int), q, r), p);
    } else if i > 0 {
        lemma_occurs_in_tail(s, p, i, 1);
        lemma_replace_all_keeps_brace_word(s.skip(1), p, q, r, i - 1);
        lemma_contains_after_prefix(seq![s[0]], replace_all(s.skip(1), q, r), p);
    } else {
        assert forall|j: int| 0 <= j < p.len() implies !#[trigger] occurs_at(s, q, j) by {
            if j > 0 && occurs_at(s, q, j) {
                lemma_occurs_char(s, q, j, 0);
                lemma_occurs_char(s, p, 0, j);
            }
        }
        lemma_replace_all_keeps_prefix(s, q, r, p.len() as int);
        let rest = replace_all(s.skip(p.len() as int), q, r);
        assert(s.take(p.len() as int) =~= p);
        assert((p + rest).subrange(0, p.len() as int) =~= p);
        assert(occurs_at(p + rest, p, 0));
    }
}

} // verus!

//! Text utilities over the character view of strings.
//!
//! Strings are handled as sequences of `char`s. The spec functions here state
//! what the std string operations of the same name compute, and the exec
//! functions compute them with loops over character vectors.

use vstd::prelude::*;

verus! {

broadcast use vstd::string::group_string_axioms;

/// `p` occurs in `s` starting at position `i`.
pub open spec fn occurs_at(s: Seq<char>, p: Seq<char>, i: int) -> bool {
    0 <= i && i + p.len() <= s.len() && s.subrange(i, i + p.len()) =~= p
}

/// `p` is a substring of `s` (what `str::contains` with a string pattern tests).
pub open spec fn has_substring(s: Seq<char>, p: Seq<char>) -> bool {
    exists|i: int| #[trigger] occurs_at(s, p, i)
}

/// `s` starts with `p`.
pub open spec fn has_prefix(s: Seq<char>, p: Seq<char>) -> bool {
    p.len() <= s.len() && s.subrange(0, p.len() as int) =~= p
}

/// `s` ends with `p`.
pub open spec fn has_suffix(s: Seq<char>, p: Seq<char>) -> bool {
    p.len() <= s.len() && s.subrange(s.len() - p.len(), s.len() as int) =~= p
}

/// Copies the characters of `s` into a vector.
pub fn chars_of(s: &str) -> (res: Vec<char>)
    ensures
        res@ == s@,
{
    let mut res: Vec<char> = Vec::new();
    for c in iter: s.chars()
        invariant
            res@.len() == iter.index(),
            forall|i: int| 0 <= i < res@.len() ==> res@[i] == iter.seq()[i],
    {
        res.push(c);
    }
    assert(res@ =~= s@);
    res
}

/// Builds a string from its characters (`Iterator::collect` into a `String`).
#[verifier::external_body]
pub(crate) fn string_from_chars(cs: &[char]) -> (res: String)
    ensures
        res@ == cs@,
{
    cs.iter().collect()
}

/// A copy of a string slice.
pub fn to_owned_string(s: &str) -> (res: String)
    ensures
        res@ == s@,
{
    s.to_owned()
}

/// The lowercase mapping of a whole string, as Unicode defines it
/// (the result of `str::to_lowercase`).
pub uninterp spec fn lowercase_of(s: Seq<char>) -> Seq<char>;

/// Calls `str::to_lowercase`; the contract claims only that the result is
/// the function `lowercase_of` of the input's characters.
#[verifier::external_body]
pub(crate) fn to_lowercase(s: &str) -> (res: String)
    ensures
        res@ == lowercase_of(s@),
{
    s.to_lowercase()
}

/// Whether a character has the Unicode Alphabetic or Numeric property
/// (the result of `char::is_alphanumeric`).
pub uninterp spec fn alphanumeric(c: char) -> bool;

/// Calls `char::is_alphanumeric`; the contract claims only that the result is
/// the function `alphanumeric` of the character.
#[verifier::external_body]
pub(crate) fn is_alphanumeric(c: char) -> (r: bool)
    ensures
        r == alphanumeric(c),
{
    c.is_alphanumeric()
}

/// The Unicode White_Space property, which `char::is_whitespace` tests.
pub open spec fn white_space(c: char) -> bool {
    ||| ('\u{9}' <= c && c <= '\u{d}')
    ||| c == ' '
    ||| c == '\u{85}'
    ||| c == '\u{a0}'
    ||| c == '\u{1680}'
    ||| ('\u{2000}' <= c && c <= '\u{200a}')
    ||| c == '\u{2028}'
    ||| c == '\u{2029}'
    ||| c == '\u{202f}'
    ||| c == '\u{205f}'
    ||| c == '\u{3000}'
}

/// Tests the White_Space property.
pub fn is_whitespace(c: char) -> (r: bool)
    ensures
        r == white_space(c),
{
    ('\u{9}' <= c && c <= '\u{d}') || c == ' ' || c == '\u{85}' || c == '\u{a0}' || c
        == '\u{1680}' || ('\u{2000}' <= c && c <= '\u{200a}') || c == '\u{2028}' || c
        == '\u{2029}' || c == '\u{202f}' || c == '\u{205f}' || c == '\u{3000}'
}

/// Whether `p` occurs in `s` at position `i`.
pub fn occurs_at_exec(s: &[char], p: &[char], i: usize) -> (r: bool)
    ensures
        r == occurs_at(s@, p@, i as int),
{
    if i > s.len() || p.len() > s.len() - i {
        return false;
    }
    let mut j: usize = 0;
    while j < p.len()
        invariant
            i + p.len() <= s.len(),
            0 <= j <= p.len(),
            forall|k: int| 0 <= k < j ==> s@[i + k] == p@[k],
        decreases p.len() - j,
    {
        if s[i + j] != p[j] {
            proof {
                assert(s@.subrange(i as int, i + p.len())[j as int] != p@[j as int]);
            }
            return false;
        }
        j = j + 1;
    }
    assert(s@.subrange(i as int, i + p.len()) =~= p@);
    true
}

/// Whether `p` is a substring of `s`.
pub fn contains_chars(s: &[char], p: &[char]) -> (r: bool)
    ensures
        r == has_substring(s@, p@),
{
    if p.len() > s.len() {
        return false;
    }
    let last = s.len() - p.len();
    let mut i: usize = 0;
    while i <= last
        invariant
            last == s.len() - p.len(),
            forall|k: int| 0 <= k < i ==> !occurs_at(s@, p@, k),
        decreases last + 1 - i,
    {
        if occurs_at_exec(s, p, i) {
            return true;
        }
        i = i + 1;
    }
    assert forall|k: int| !occurs_at(s@, p@, k) by {
        if 0 <= k && k < i {
        }
    }
    false
}

/// Whether the string `p` is a substring of the characters `s`.
pub fn contains(s: &[char], p: &str) -> (r: bool)
    ensures
        r == has_substring(s@, p@),
{
    let pc = chars_of(p);
    contains_chars(s, pc.as_slice())
}

/// Whether the characters `s` start with the string `p`.
pub fn starts_with(s: &[char], p: &str) -> (r: bool)
    ensures
        r == has_prefix(s@, p@),
{
    let pc = chars_of(p);
    let r = occurs_at_exec(s, pc.as_slice(), 0);
    assert(r == has_prefix(s@, p@));
    r
}

/// Whether the characters `s` end with the string `p`.
pub fn ends_with(s: &[char], p: &str) -> (r: bool)
    ensures
        r == has_suffix(s@, p@),
{
    let pc = chars_of(p);
    if pc.len() > s.len() {
        return false;
    }
    occurs_at_exec(s, pc.as_slice(), s.len() - pc.len())
}

/// Whether two character sequences are equal.
pub fn chars_eq(a: &[char], b: &[char]) -> (r: bool)
    ensures
        r == (a@ == b@),
{
    if a.len() != b.len() {
        return false;
    }
    let r = occurs_at_exec(a, b, 0);
    proof {
        if r {
            assert(a@ =~= a@.subrange(0, b@.len() as int));
        }
    }
    r
}

/// Whether the characters `s` spell exactly the string `p`.
pub fn equals(s: &[char], p: &str) -> (r: bool)
    ensures
        r == (s@ == p@),
{
    let pc = chars_of(p);
    chars_eq(s, pc.as_slice())
}

/// `s` with its leading characters that satisfy `pred` removed.
pub open spec fn trim_start_by(s: Seq<char>, pred: spec_fn(char) -> bool) -> Seq<char>
    decreases s.len(),
{
    if s.len() > 0 && pred(s[0]) {
        trim_start_by(s.drop_first(), pred)
    } else {
        s
    }
}

/// `s` with its trailing characters that satisfy `pred` removed.
pub open spec fn trim_end_by(s: Seq<char>, pred: spec_fn(char) -> bool) -> Seq<char>
    decreases s.len(),
{
    if s.len() > 0 && pred(s.last()) {
        trim_end_by(s.drop_last(), pred)
    } else {
        s
    }
}

/// `s` with leading and trailing characters that satisfy `pred` removed.
pub open spec fn trim_by(s: Seq<char>, pred: spec_fn(char) -> bool) -> Seq<char> {
    trim_end_by(trim_start_by(s, pred), pred)
}

/// What `str::trim` gives: leading and trailing White_Space removed.
pub open spec fn trimmed(s: Seq<char>) -> Seq<char> {
    trim_by(s, |c: char| white_space(c))
}

/// Removes the leading and trailing characters whose flag in `mask` is set,
/// where `mask` flags exactly the characters that satisfy `pred`.
fn trim_by_mask(s: &[char], mask: &[bool], Ghost(pred): Ghost<spec_fn(char) -> bool>) -> (res: Vec<
    char,
>)
    requires
        mask@.len() == s@.len(),
        forall|i: int| 0 <= i < s@.len() ==> mask@[i] == pred(#[trigger] s@[i]),
    ensures
        res@ == trim_by(s@, pred),
{
    let n = s.len();
    let mut a: usize = 0;
    assert(s@.subrange(0, n as int) =~= s@);
    while a < n && mask[a]
        invariant
            0 <= a <= n,
            n == s@.len(),
            mask@.len() == n,
            forall|i: int| 0 <= i < s@.len() ==> mask@[i] == pred(#[trigger] s@[i]),
            trim_start_by(s@, pred) == trim_start_by(s@.subrange(a as int, n as int), pred),
        decreases n - a,
    {
        assert(s@.subrange(a as int, n as int).drop_first() =~= s@.subrange(a + 1, n as int));
        a = a + 1;
    }
    let ghost start = s@.subrange(a as int, n as int);
    assert(trim_start_by(s@, pred) == start);
    let mut b: usize = n;
    while b > a && mask[b - 1]
        invariant
            a <= b <= n,
            n == s@.len(),
            mask@.len() == n,
            forall|i: int| 0 <= i < s@.len() ==> mask@[i] == pred(#[trigger] s@[i]),
            trim_end_by(start, pred) == trim_end_by(s@.subrange(a as int, b as int), pred),
        decreases b,
    {
        assert(s@.subrange(a as int, b as int).drop_last() =~= s@.subrange(a as int, b - 1));
        b = b - 1;
    }
    let mut res: Vec<char> = Vec::new();
    let mut k: usize = a;
    while k < b
        invariant
            a <= k <= b <= n,
            n == s@.len(),
            res@ =~= s@.subrange(a as int, k as int),
        decreases b - k,
    {
        res.push(s[k]);
        k = k + 1;
    }
    res
}

/// Removes leading and trailing White_Space (`str::trim`).
pub fn trim(s: &[char]) -> (res: Vec<char>)
    ensures
        res@ == trimmed(s@),
{
    let mut mask: Vec<bool> = Vec::new();
    let mut i: usize = 0;
    while i < s.len()
        invariant
            0 <= i <= s.len(),
            mask@.len() == i,
            forall|j: int| 0 <= j < i ==> mask@[j] == white_space(#[trigger] s@[j]),
        decreases s.len() - i,
    {
        mask.push(is_whitespace(s[i]));
        i = i + 1;
    }
    trim_by_mask(s, mask.as_slice(), Ghost(|c: char| white_space(c)))
}

/// What `trim_matches(|c: char| !c.is_alphanumeric())` gives.
pub open spec fn trimmed_to_alphanumeric(s: Seq<char>) -> Seq<char> {
    trim_by(s, |c: char| !alphanumeric(c))
}

/// Removes the leading and trailing characters that are not alphanumeric.
pub fn trim_non_alphanumeric(s: &[char]) -> (res: Vec<char>)
    ensures
        res@ == trimmed_to_alphanumeric(s@),
{
    let mut mask: Vec<bool> = Vec::new();
    let mut i: usize = 0;
    while i < s.len()
        invariant
            0 <= i <= s.len(),
            mask@.len() == i,
            forall|j: int| 0 <= j < i ==> mask@[j] == !alphanumeric(#[trigger] s@[j]),
        decreases s.len() - i,
    {
        mask.push(!is_alphanumeric(s[i]));
        i = i + 1;
    }
    trim_by_mask(s, mask.as_slice(), Ghost(|c: char| !alphanumeric(c)))
}

/// `s` with every non-overlapping occurrence of the non-empty `from`,
/// scanning left to right, replaced by `to` (what `str::replace` gives).
pub open spec fn replaced(s: Seq<char>, from: Seq<char>, to: Seq<char>) -> Seq<char>
    decreases s.len(),
{
    if s.len() == 0 || from.len() == 0 {
        s
    } else if has_prefix(s, from) {
        to + replaced(s.subrange(from.len() as int, s.len() as int), from, to)
    } else {
        seq![s[0]] + replaced(s.drop_first(), from, to)
    }
}

/// Replaces every occurrence of `from` in `s` by `to` (`str::replace`).
pub fn replace(s: &[char], from: &str, to: &str) -> (res: Vec<char>)
    requires
        from@.len() > 0,
    ensures
        res@ == replaced(s@, from@, to@),
{
    let f = chars_of(from);
    let t = chars_of(to);
    let mut out: Vec<char> = Vec::new();
    let mut i: usize = 0;
    assert(s@.subrange(0, s@.len() as int) =~= s@);
    while i < s.len()
        invariant
            0 <= i <= s.len(),
            f@ == from@,
            t@ == to@,
            f@.len() > 0,
            replaced(s@, f@, t@) == out@ + replaced(s@.subrange(i as int, s@.len() as int), f@, t@),
        decreases s.len() - i,
    {
        let ghost rest = s@.subrange(i as int, s@.len() as int);
        if occurs_at_exec(s, f.as_slice(), i) {
            proof {
                assert(rest.subrange(0, f@.len() as int) =~= s@.subrange(i as int, i + f@.len()));
                assert(has_prefix(rest, f@));
                assert(rest.subrange(f@.len() as int, rest.len() as int) =~= s@.subrange(
                    i + f@.len(),
                    s@.len() as int,
                ));
            }
            let mut k: usize = 0;
            let ghost before = out@;
            while k < t.len()
                invariant
                    0 <= k <= t.len(),
                    out@ =~= before + t@.subrange(0, k as int),
                decreases t.len() - k,
            {
                out.push(t[k]);
                k = k + 1;
            }
            assert(t@.subrange(0, t@.len() as int) =~= t@);
            assert(out@ + replaced(s@.subrange(i + f@.len(), s@.len() as int), f@, t@) =~= before
                + (t@ + replaced(s@.subrange(i + f@.len(), s@.len() as int), f@, t@)));
            i = i + f.len();
        } else {
            proof {
                if has_prefix(rest, f@) {
                    assert(rest.subrange(0, f@.len() as int) =~= s@.subrange(
                        i as int,
                        i + f@.len(),
                    ));
                }
                assert(rest.drop_first() =~= s@.subrange(i + 1, s@.len() as int));
                assert(out@.push(s@[i as int]) + replaced(rest.drop_first(), f@, t@) =~= out@ + (
                seq![rest[0]] + replaced(rest.drop_first(), f@, t@)));
            }
            out.push(s[i]);
            i = i + 1;
        }
    }
    out
}

/// `s` with all leading repetitions of the non-empty `p` removed
/// (what `str::trim_start_matches` gives for a string pattern).
pub open spec fn strip_prefixes(s: Seq<char>, p: Seq<char>) -> Seq<char>
    decreases s.len(),
{
    if p.len() > 0 && has_prefix(s, p) {
        strip_prefixes(s.subrange(p.len() as int, s.len() as int), p)
    } else {
        s
    }
}

/// `s` with all trailing repetitions of the non-empty `p` removed
/// (what `str::trim_end_matches` gives for a string pattern).
pub open spec fn strip_suffixes(s: Seq<char>, p: Seq<char>) -> Seq<char>
    decreases s.len(),
{
    if p.len() > 0 && has_suffix(s, p) {
        strip_suffixes(s.subrange(0, s.len() - p.len()), p)
    } else {
        s
    }
}

/// Removes the characters from `a` to `b`.
pub fn slice_chars(s: &[char], a: usize, b: usize) -> (res: Vec<char>)
    requires
        a <= b <= s@.len(),
    ensures
        res@ == s@.subrange(a as int, b as int),
{
    let mut res: Vec<char> = Vec::new();
    let mut k: usize = a;
    while k < b
        invariant
            a <= k <= b <= s@.len(),
            res@ =~= s@.subrange(a as int, k as int),
        decreases b - k,
    {
        res.push(s[k]);
        k = k + 1;
    }
    res
}

/// Removes all leading repetitions of `p` (`str::trim_start_matches`).
pub fn trim_start_matches(s: &[char], p: &str) -> (res: Vec<char>)
    requires
        p@.len() > 0,
    ensures
        res@ == strip_prefixes(s@, p@),
{
    let pc = chars_of(p);
    let mut a: usize = 0;
    assert(s@.subrange(0, s@.len() as int) =~= s@);
    while occurs_at_exec(s, pc.as_slice(), a)
        invariant
            0 <= a <= s@.len(),
            pc@ == p@,
            pc@.len() > 0,
            strip_prefixes(s@, p@) == strip_prefixes(s@.subrange(a as int, s@.len() as int), p@),
        decreases s@.len() - a,
    {
        let ghost rest = s@.subrange(a as int, s@.len() as int);
        assert(occurs_at(s@, pc@, a as int));
        assert(a + pc.len() <= s.len());
        assert(rest.subrange(0, p@.len() as int) =~= s@.subrange(a as int, a + p@.len()));
        assert(rest.subrange(p@.len() as int, rest.len() as int) =~= s@.subrange(
            a + p@.len(),
            s@.len() as int,
        ));
        a = a + pc.len();
    }
    proof {
        let rest = s@.subrange(a as int, s@.len() as int);
        if has_prefix(rest, p@) {
            assert(rest.subrange(0, p@.len() as int) =~= s@.subrange(a as int, a + p@.len()));
        }
    }
    slice_chars(s, a, s.len())
}

/// Removes all trailing repetitions of `p` (`str::trim_end_matches`).
pub fn trim_end_matches(s: &[char], p: &str) -> (res: Vec<char>)
    requires
        p@.len() > 0,
    ensures
        res@ == strip_suffixes(s@, p@),
{
    let pc = chars_of(p);
    let mut b: usize = s.len();
    assert(s@.subrange(0, s@.len() as int) =~= s@);
    while b >= pc.len() && occurs_at_exec(s, pc.as_slice(), b - pc.len())
        invariant
            0 <= b <= s@.len(),
            pc@ == p@,
            pc@.len() > 0,
            strip_suffixes(s@, p@) == strip_suffixes(s@.subrange(0, b as int), p@),
        decreases b,
    {
        let ghost pre = s@.subrange(0, b as int);
        assert(pre.subrange(pre.len() - p@.len(), pre.len() as int) =~= s@.subrange(
            b - p@.len(),
            b as int,
        ));
        assert(pre.subrange(0, pre.len() - p@.len()) =~= s@.subrange(0, b - p@.len()));
        b = b - pc.len();
    }
    proof {
        let pre = s@.subrange(0, b as int);
        if has_suffix(pre, p@) {
            assert(pre.subrange(pre.len() - p@.len(), pre.len() as int) =~= s@.subrange(
                b - p@.len(),
                b as int,
            ));
        }
    }
    slice_chars(s, 0, b)
}

/// The pieces of `s` between occurrences of `sep`, including empty pieces
/// (what `str::split` with a `char` pattern yields).
pub open spec fn split_on(s: Seq<char>, sep: char) -> Seq<Seq<char>>
    decreases s.len(),
{
    if s.len() == 0 {
        seq![Seq::<char>::empty()]
    } else {
        let rest = split_on(s.drop_first(), sep);
        if s[0] == sep {
            seq![Seq::<char>::empty()] + rest
        } else {
            rest.update(0, seq![s[0]] + rest[0])
        }
    }
}

/// Prepends `cur` to the first piece of `r`.
pub open spec fn prepend_first(cur: Seq<char>, r: Seq<Seq<char>>) -> Seq<Seq<char>> {
    r.update(0, cur + r[0])
}

/// Splitting always yields at least one piece.
pub proof fn lemma_split_on_nonempty(s: Seq<char>, sep: char)
    ensures
        split_on(s, sep).len() >= 1,
    decreases s.len(),
{
    if s.len() > 0 {
        lemma_split_on_nonempty(s.drop_first(), sep);
    }
}

/// Splits `s` at every `sep` (`str::split` with a `char` pattern).
pub fn split_chars(s: &[char], sep: char) -> (res: Vec<Vec<char>>)
    ensures
        res@.len() == split_on(s@, sep).len(),
        forall|k: int| 0 <= k < res@.len() ==> (#[trigger] res@[k])@ == split_on(s@, sep)[k],
{
    let mut done: Vec<Vec<char>> = Vec::new();
    let mut cur: Vec<char> = Vec::new();
    let mut i: usize = 0;
    let ghost mut dv: Seq<Seq<char>> = Seq::empty();
    assert(s@.subrange(0, s@.len() as int) =~= s@);
    proof {
        lemma_split_on_nonempty(s@, sep);
        assert(prepend_first(Seq::<char>::empty(), split_on(s@, sep)) =~= split_on(s@, sep));
    }
    while i < s.len()
        invariant
            0 <= i <= s.len(),
            dv.len() == done@.len(),
            forall|k: int| 0 <= k < done@.len() ==> (#[trigger] done@[k])@ == dv[k],
            split_on(s@, sep) == dv + prepend_first(
                cur@,
                split_on(s@.subrange(i as int, s@.len() as int), sep),
            ),
        decreases s.len() - i,
    {
        let ghost rest = s@.subrange(i as int, s@.len() as int);
        let ghost next = s@.subrange(i + 1, s@.len() as int);
        proof {
            assert(rest.drop_first() =~= next);
            lemma_split_on_nonempty(next, sep);
        }
        if s[i] == sep {
            proof {
                assert(prepend_first(cur@, split_on(rest, sep)) =~= seq![cur@] + prepend_first(
                    Seq::<char>::empty(),
                    split_on(next, sep),
                ));
                assert(dv + (seq![cur@] + prepend_first(Seq::<char>::empty(), split_on(next, sep)))
                    =~= dv.push(cur@) + prepend_first(Seq::<char>::empty(), split_on(next, sep)));
                dv = dv.push(cur@);
            }
            done.push(cur);
            cur = Vec::new();
        } else {
            proof {
                let r = split_on(next, sep);
                assert(rest[0] == s@[i as int]);
                assert(split_on(rest, sep) == r.update(0, seq![rest[0]] + r[0]));
                assert(cur@ + (seq![rest[0]] + r[0]) =~= cur@.push(s@[i as int]) + r[0]);
                assert(prepend_first(cur@, split_on(rest, sep)) =~= prepend_first(
                    cur@.push(s@[i as int]),
                    split_on(next, sep),
                ));
            }
            cur.push(s[i]);
        }
        i = i + 1;
    }
    proof {
        assert(s@.subrange(i as int, s@.len() as int) =~= Seq::<char>::empty());
        assert(prepend_first(cur@, split_on(Seq::<char>::empty(), sep)) =~= seq![cur@]);
        dv = dv.push(cur@);
    }
    done.push(cur);
    done
}

/// The leading run of non-White_Space characters of `s`.
pub open spec fn leading_word(s: Seq<char>) -> Seq<char>
    decreases s.len(),
{
    if s.len() == 0 || white_space(s[0]) {
        Seq::empty()
    } else {
        seq![s[0]] + leading_word(s.drop_first())
    }
}

/// The leading word is a prefix of its text.
pub proof fn lemma_leading_word_prefix(s: Seq<char>)
    ensures
        leading_word(s).len() <= s.len(),
        leading_word(s) =~= s.subrange(0, leading_word(s).len() as int),
        s.len() > 0 && !white_space(s[0]) ==> leading_word(s).len() > 0,
    decreases s.len(),
{
    if s.len() > 0 && !white_space(s[0]) {
        lemma_leading_word_prefix(s.drop_first());
    }
}

/// The words of `s`: maximal runs of non-White_Space characters, in order
/// (what `str::split_whitespace` yields).
pub open spec fn words(s: Seq<char>) -> Seq<Seq<char>>
    decreases s.len(),
{
    if s.len() == 0 {
        Seq::empty()
    } else if white_space(s[0]) {
        words(s.drop_first())
    } else {
        let w = leading_word(s);
        if 0 < w.len() <= s.len() {
            seq![w] + words(s.subrange(w.len() as int, s.len() as int))
        } else {
            seq![w]
        }
    }
}

/// Splits `s` into its words (`str::split_whitespace`).
pub fn split_whitespace(s: &[char]) -> (res: Vec<Vec<char>>)
    ensures
        res@.len() == words(s@).len(),
        forall|k: int| 0 <= k < res@.len() ==> (#[trigger] res@[k])@ == words(s@)[k],
{
    let mut done: Vec<Vec<char>> = Vec::new();
    let ghost mut dv: Seq<Seq<char>> = Seq::empty();
    let n = s.len();
    let mut i: usize = 0;
    assert(s@.subrange(0, n as int) =~= s@);
    while i < n
        invariant
            0 <= i <= n,
            n == s@.len(),
            dv.len() == done@.len(),
            forall|k: int| 0 <= k < done@.len() ==> (#[trigger] done@[k])@ == dv[k],
            words(s@) == dv + words(s@.subrange(i as int, n as int)),
        decreases n - i,
    {
        let ghost rest = s@.subrange(i as int, n as int);
        if is_whitespace(s[i]) {
            assert(rest.drop_first() =~= s@.subrange(i + 1, n as int));
            i = i + 1;
        } else {
            let mut j: usize = i;
            proof {
                lemma_leading_word_prefix(rest);
            }
            while j < n && !is_whitespace(s[j])
                invariant
                    i <= j <= n,
                    n == s@.len(),
                    rest == s@.subrange(i as int, n as int),
                    leading_word(rest) =~= s@.subrange(i as int, j as int) + leading_word(
                        s@.subrange(j as int, n as int),
                    ),
                decreases n - j,
            {
                assert(s@.subrange(j as int, n as int).drop_first() =~= s@.subrange(
                    j + 1,
                    n as int,
                ));
                j = j + 1;
            }
            proof {
                assert(leading_word(s@.subrange(j as int, n as int)) =~= Seq::<char>::empty());
                assert(leading_word(rest) =~= s@.subrange(i as int, j as int));
                assert(rest.subrange(j - i, rest.len() as int) =~= s@.subrange(j as int, n as int));
            }
            let w = slice_chars(s, i, j);
            proof {
                assert(dv + words(rest) =~= dv.push(w@) + words(s@.subrange(j as int, n as int)));
                dv = dv.push(w@);
            }
            done.push(w);
            i = j;
        }
    }
    proof {
        assert(s@.subrange(n as int, n as int) =~= Seq::<char>::empty());
        assert(dv + Seq::<Seq<char>>::empty() =~= dv);
    }
    done
}

/// Some keyword of `kws` occurs in `s`.
pub open spec fn mentions_any(s: Seq<char>, kws: Seq<&str>) -> bool {
    exists|i: int| 0 <= i < kws.len() && #[trigger] has_substring(s, kws[i]@)
}

/// Some word of `words` occurs in `s`.
pub open spec fn mentions_word(s: Seq<char>, words: Seq<Seq<char>>) -> bool {
    exists|i: int| 0 <= i < words.len() && #[trigger] has_substring(s, words[i])
}

/// A list of keywords is mentioned exactly when the list of their texts is.
pub proof fn lemma_mentions_any_texts(s: Seq<char>, kws: Seq<&str>, words: Seq<Seq<char>>)
    requires
        kws.len() == words.len(),
        forall|i: int| 0 <= i < kws.len() ==> #[trigger] kws[i]@ == words[i],
    ensures
        mentions_any(s, kws) == mentions_word(s, words),
{
    if mentions_any(s, kws) {
        let i = choose|i: int| 0 <= i < kws.len() && #[trigger] has_substring(s, kws[i]@);
        assert(has_substring(s, words[i]));
    }
    if mentions_word(s, words) {
        let i = choose|i: int| 0 <= i < words.len() && #[trigger] has_substring(s, words[i]);
        assert(has_substring(s, kws[i]@));
    }
}

/// Whether some keyword of `kws` occurs in `s`.
pub fn contains_any(s: &[char], kws: &[&str]) -> (r: bool)
    ensures
        r == mentions_any(s@, kws@),
{
    let mut i: usize = 0;
    while i < kws.len()
        invariant
            0 <= i <= kws@.len(),
            forall|k: int| 0 <= k < i ==> !has_substring(s@, #[trigger] kws@[k]@),
        decreases kws.len() - i,
    {
        if contains(s, kws[i]) {
            return true;
        }
        i = i + 1;
    }
    false
}

/// Converts character vectors into strings.
pub fn strings_of(parts: &Vec<Vec<char>>) -> (res: Vec<String>)
    ensures
        res@.len() == parts@.len(),
        forall|k: int| 0 <= k < res@.len() ==> (#[trigger] res@[k])@ == parts@[k]@,
{
    let mut res: Vec<String> = Vec::new();
    let mut i: usize = 0;
    while i < parts.len()
        invariant
            0 <= i <= parts@.len(),
            res@.len() == i,
            forall|k: int| 0 <= k < i ==> (#[trigger] res@[k])@ == parts@[k]@,
        decreases parts.len() - i,
    {
        res.push(string_from_chars(parts[i].as_slice()));
        i = i + 1;
    }
    res
}

/// Appends the characters of `s` to `out`.
pub fn push_str(out: &mut Vec<char>, s: &str)
    ensures
        final(out)@ == old(out)@ + s@,
{
    let cs = chars_of(s);
    push_chars(out, cs.as_slice());
}

/// Appends `cs` to `out`.
pub fn push_chars(out: &mut Vec<char>, cs: &[char])
    ensures
        final(out)@ == old(out)@ + cs@,
{
    let mut i: usize = 0;
    while i < cs.len()
        invariant
            0 <= i <= cs@.len(),
            out@ =~= old(out)@ + cs@.subrange(0, i as int),
        decreases cs.len() - i,
    {
        out.push(cs[i]);
        i = i + 1;
    }
    assert(cs@.subrange(0, cs@.len() as int) =~= cs@);
}


/// The character sequences of a list of strings.
pub open spec fn string_views(v: Seq<String>) -> Seq<Seq<char>> {
    v.map_values(|s: String| s@)
}

/// The pieces joined with `sep` between each two of them (`[String]::join`).
pub open spec fn joined(parts: Seq<Seq<char>>, sep: Seq<char>) -> Seq<char>
    decreases parts.len(),
{
    if parts.len() == 0 {
        Seq::empty()
    } else if parts.len() == 1 {
        parts[0]
    } else {
        joined(parts.drop_last(), sep) + sep + parts.last()
    }
}

/// Joins the strings with `sep` between each two of them.
pub fn join(parts: &Vec<String>, sep: &str) -> (res: String)
    ensures
        res@ == joined(string_views(parts@), sep@),
{
    let mut out: Vec<char> = Vec::new();
    let mut i: usize = 0;
    while i < parts.len()
        invariant
            0 <= i <= parts@.len(),
            out@ == joined(string_views(parts@).take(i as int), sep@),
        decreases parts.len() - i,
    {
        let ghost before = string_views(parts@).take(i as int);
        let ghost after = string_views(parts@).take(i + 1);
        assert(after.drop_last() =~= before);
        if i > 0 {
            push_str(&mut out, sep);
        } else {
            assert(before =~= Seq::<Seq<char>>::empty());
        }
        push_str(&mut out, parts[i].as_str());
        i = i + 1;
    }
    assert(string_views(parts@).take(parts@.len() as int) =~= string_views(parts@));
    string_from_chars(out.as_slice())
}

/// `prefix` followed by `s`.
pub fn prefixed(prefix: &str, s: &str) -> (res: String)
    ensures
        res@ == prefix@ + s@,
{
    let mut out: Vec<char> = Vec::new();
    push_str(&mut out, prefix);
    push_str(&mut out, s);
    string_from_chars(out.as_slice())
}

/// The characters of an optional string.
pub open spec fn opt_view(o: Option<String>) -> Option<Seq<char>> {
    match o {
        Some(s) => Some(s@),
        None => None,
    }
}

} // verus!

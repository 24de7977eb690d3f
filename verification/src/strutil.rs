//! Verified string helpers used by the translation logic, together with the
//! few standard-library calls that the library takes on trust.

use vstd::prelude::*;

verus! {

/// The sequence of characters that `str::to_lowercase` returns for a given
/// input; the result depends on the characters alone.
pub uninterp spec fn lower_of(s: Seq<char>) -> Seq<char>;

/// Relies on str::to_lowercase: the lowercase equivalent of the input,
/// depending on the input characters alone; an empty input stays empty.
#[verifier::external_body]
pub(crate) fn lowercase(s: &str) -> (r: String)
    ensures
        r@ == lower_of(s@),
        s@.len() == 0 ==> r@.len() == 0,
{
    s.to_lowercase()
}

/// Relies on String::push: appends one character at the end.
#[verifier::external_body]
pub(crate) fn push_char(s: &mut String, c: char)
    ensures
        final(s)@ == old(s)@.push(c),
{
    s.push(c)
}

/// Relies on String::from_utf8: succeeds exactly on valid UTF-8 input and
/// then returns the decoded characters.
#[verifier::external_body]
pub(crate) fn bytes_to_text(b: Vec<u8>) -> (r: Option<String>)
    ensures
        r is Some <==> vstd::utf8::valid_utf8(b@),
        r is Some ==> r->0@ == vstd::utf8::decode_utf8(b@),
{
    String::from_utf8(b).ok()
}

/// Whether two string slices hold the same characters.
pub fn str_eq(a: &str, b: &str) -> (r: bool)
    ensures
        r == (a@ == b@),
{
    let sa = String::from_str(a);
    let sb = String::from_str(b);
    sa.eq(&sb)
}

/// Whether `needle` occurs in `s` starting at position `i`.
pub open spec fn is_match_at(s: Seq<char>, needle: Seq<char>, i: int) -> bool {
    &&& 0 <= i
    &&& i + needle.len() <= s.len()
    &&& s.subrange(i, i + needle.len()) =~= needle
}

/// Whether `needle` occurs anywhere in `s`.
pub open spec fn contains_seq(s: Seq<char>, needle: Seq<char>) -> bool {
    exists|i: int| is_match_at(s, needle, i)
}

/// Whether `s` ends with `suffix`.
pub open spec fn ends_with_seq(s: Seq<char>, suffix: Seq<char>) -> bool {
    is_match_at(s, suffix, s.len() - suffix.len())
}

/// The position of the last occurrence of `needle` strictly before `hi`,
/// if any.
pub open spec fn rfind_before(s: Seq<char>, needle: Seq<char>, hi: int) -> Option<int>
    decreases hi,
{
    if hi <= 0 {
        None
    } else if is_match_at(s, needle, hi - 1) {
        Some(hi - 1)
    } else {
        rfind_before(s, needle, hi - 1)
    }
}

/// The position of the last occurrence of `needle` in `s`, if any.
pub open spec fn spec_rfind(s: Seq<char>, needle: Seq<char>) -> Option<int> {
    rfind_before(s, needle, s.len() - needle.len() + 1)
}

/// Whether `needle` occurs in `s` at position `i`, checked character by
/// character.
pub fn match_at(s: &str, needle: &str, i: usize) -> (r: bool)
    requires
        i + needle@.len() <= s@.len(),
        s@.len() <= usize::MAX,
    ensures
        r == is_match_at(s@, needle@, i as int),
{
    let n = needle.unicode_len();
    let mut j: usize = 0;
    while j < n
        invariant
            j <= n,
            n == needle@.len(),
            i + n <= s@.len() <= usize::MAX,
            forall|k: int| 0 <= k < j ==> s@[i + k] == needle@[k],
        decreases n - j,
    {
        if s.get_char(i + j) != needle.get_char(j) {
            proof {
                let sub = s@.subrange(i as int, i + needle@.len());
                assert(sub[j as int] == s@[i + j]);
            }
            return false;
        }
        j += 1;
    }
    proof {
        assert(s@.subrange(i as int, i + needle@.len()) =~= needle@);
    }
    true
}

/// Whether `needle` occurs anywhere in `s`.
pub fn contains_str(s: &str, needle: &str) -> (r: bool)
    ensures
        r == contains_seq(s@, needle@),
{
    let sl = s.unicode_len();
    let nl = needle.unicode_len();
    if nl > sl {
        return false;
    }
    let mut i: usize = 0;
    loop
        invariant
            nl == needle@.len(),
            sl == s@.len(),
            nl <= sl,
            i <= sl - nl,
            forall|k: int| 0 <= k < i ==> !is_match_at(s@, needle@, k),
        decreases sl - nl - i,
    {
        if match_at(s, needle, i) {
            return true;
        }
        if i == sl - nl {
            return false;
        }
        i += 1;
    }
}

/// Whether `s` ends with `suffix`.
pub fn ends_with_str(s: &str, suffix: &str) -> (r: bool)
    ensures
        r == ends_with_seq(s@, suffix@),
{
    let sl = s.unicode_len();
    let nl = suffix.unicode_len();
    if nl > sl {
        return false;
    }
    match_at(s, suffix, sl - nl)
}

/// The position of the last occurrence of `needle` in `s`, if any.
pub fn rfind_str(s: &str, needle: &str) -> (r: Option<usize>)
    ensures
        match r {
            Some(i) => Some(i as int) == spec_rfind(s@, needle@),
            None => spec_rfind(s@, needle@) is None,
        },
{
    let sl = s.unicode_len();
    let nl = needle.unicode_len();
    if nl > sl {
        proof {
            lemma_rfind_before_none(s@, needle@, s@.len() - needle@.len() + 1);
        }
        return None;
    }
    let mut i: usize = sl - nl;
    loop
        invariant
            nl == needle@.len(),
            sl == s@.len(),
            nl <= sl,
            i <= sl - nl,
            rfind_before(s@, needle@, s@.len() - needle@.len() + 1) == rfind_before(
                s@,
                needle@,
                i + 1,
            ),
        decreases i,
    {
        if match_at(s, needle, i) {
            return Some(i);
        }
        if i == 0 {
            proof {
                assert(rfind_before(s@, needle@, 0) is None);
            }
            return None;
        }
        i -= 1;
    }
}

/// A found position is a real match, below the bound, and the last one.
pub proof fn lemma_rfind_before_some(s: Seq<char>, needle: Seq<char>, hi: int)
    ensures
        rfind_before(s, needle, hi) matches Some(i) ==> {
            &&& is_match_at(s, needle, i)
            &&& i < hi
            &&& forall|j: int| i < j < hi ==> !is_match_at(s, needle, j)
        },
    decreases hi,
{
    if hi > 0 {
        lemma_rfind_before_some(s, needle, hi - 1);
    }
}

proof fn lemma_rfind_before_none(s: Seq<char>, needle: Seq<char>, hi: int)
    requires
        forall|j: int| !is_match_at(s, needle, j),
    ensures
        rfind_before(s, needle, hi) is None,
    decreases hi,
{
    if hi > 0 {
        lemma_rfind_before_none(s, needle, hi - 1);
    }
}

/// The position of the first occurrence of `c` in `s`, or the length of `s`
/// if `c` does not occur.
pub open spec fn find_idx(s: Seq<char>, c: char) -> int
    decreases s.len(),
{
    if s.len() == 0 {
        0
    } else if s[0] == c {
        0
    } else {
        1 + find_idx(s.drop_first(), c)
    }
}

/// `find_idx` is the least position holding `c`, or the length of `s`.
pub proof fn lemma_find_idx_of(s: Seq<char>, c: char, i: int)
    requires
        0 <= i <= s.len(),
        forall|k: int| 0 <= k < i ==> s[k] != c,
        i < s.len() ==> s[i] == c,
    ensures
        find_idx(s, c) == i,
    decreases s.len(),
{
    if s.len() == 0 {
    } else if s[0] == c {
        assert(i == 0);
    } else {
        assert(s[0] != c);
        assert(i >= 1);
        let t = s.drop_first();
        assert forall|k: int| 0 <= k < i - 1 implies t[k] != c by {
            assert(t[k] == s[k + 1]);
        }
        assert(i - 1 < t.len() ==> t[i - 1] == s[i]);
        lemma_find_idx_of(t, c, i - 1);
    }
}

/// Bounds on `find_idx`, with the characters before it all different from `c`.
pub proof fn lemma_find_idx_bounds(s: Seq<char>, c: char)
    ensures
        0 <= find_idx(s, c) <= s.len(),
        find_idx(s, c) < s.len() ==> s[find_idx(s, c)] == c,
        forall|k: int| 0 <= k < find_idx(s, c) ==> s[k] != c,
    decreases s.len(),
{
    if s.len() == 0 {
    } else if s[0] == c {
    } else {
        let t = s.drop_first();
        lemma_find_idx_bounds(t, c);
        assert forall|k: int| 0 <= k < find_idx(s, c) implies s[k] != c by {
            if k > 0 {
                assert(t[k - 1] == s[k]);
            }
        }
    }
}

/// The position of the first occurrence of `c` in `s`, or the length of `s`
/// if `c` does not occur.
pub fn find_char(s: &str, c: char) -> (r: usize)
    ensures
        r == find_idx(s@, c),
{
    let n = s.unicode_len();
    let mut i: usize = 0;
    while i < n
        invariant
            i <= n,
            n == s@.len(),
            forall|k: int| 0 <= k < i ==> s@[k] != c,
        decreases n - i,
    {
        if s.get_char(i) == c {
            proof {
                lemma_find_idx_of(s@, c, i as int);
            }
            return i;
        }
        i += 1;
    }
    proof {
        lemma_find_idx_of(s@, c, n as int);
    }
    n
}

/// Lower-cases one ASCII letter; leaves every other character unchanged.
pub open spec fn lower_char(c: char) -> char {
    if 'A' <= c && c <= 'Z' {
        ((c as u32) + 32) as char
    } else {
        c
    }
}

/// ASCII-lower-cases a sequence of characters.
pub open spec fn ascii_lower(s: Seq<char>) -> Seq<char> {
    s.map(|_i: int, c: char| lower_char(c))
}

/// Lower-cases one ASCII letter in executable code.
pub fn ascii_lower_char(c: char) -> (r: char)
    ensures
        r == lower_char(c),
{
    if 'A' <= c && c <= 'Z' {
        (((c as u32) + 32) as u8) as char
    } else {
        c
    }
}

/// ASCII-lower-cases a string.
pub fn ascii_lower_str(s: &str) -> (r: String)
    ensures
        r@ == ascii_lower(s@),
{
    let n = s.unicode_len();
    let mut r = String::new();
    let mut i: usize = 0;
    while i < n
        invariant
            i <= n,
            n == s@.len(),
            r@.len() == i,
            forall|k: int| 0 <= k < i ==> r@[k] == lower_char(s@[k]),
        decreases n - i,
    {
        let c = ascii_lower_char(s.get_char(i));
        push_char(&mut r, c);
        i += 1;
    }
    proof {
        assert(r@ =~= ascii_lower(s@));
    }
    r
}

/// Whether two strings hold the same characters up to ASCII case.
pub fn ascii_eq_ignore_case(a: &str, b: &str) -> (r: bool)
    ensures
        r == (ascii_lower(a@) == ascii_lower(b@)),
{
    let la = ascii_lower_str(a);
    let lb = ascii_lower_str(b);
    la.eq(&lb)
}

/// A byte that a header value may hold while still being readable as text:
/// visible ASCII, space, or horizontal tab.
pub open spec fn visible_ascii(b: u8) -> bool {
    32 <= b < 127 || b == 9
}

/// The characters of a byte sequence read as ASCII text.
pub open spec fn ascii_chars(bs: Seq<u8>) -> Seq<char> {
    bs.map(|_i: int, b: u8| b as char)
}

/// The text of a header value: defined exactly when every byte is visible
/// ASCII (or space or tab), as the gateway's header type demands of text.
pub open spec fn spec_header_text(bs: Seq<u8>) -> Option<Seq<char>> {
    if forall|k: int| 0 <= k < bs.len() ==> visible_ascii(#[trigger] bs[k]) {
        Some(ascii_chars(bs))
    } else {
        None
    }
}

/// Reads a header value as text, exactly when every byte is visible ASCII
/// (or space or tab).
pub fn header_text(bs: &Vec<u8>) -> (r: Option<String>)
    ensures
        match r {
            Some(s) => spec_header_text(bs@) == Some(s@),
            None => spec_header_text(bs@) is None,
        },
{
    let n = bs.len();
    let mut r = String::new();
    let mut i: usize = 0;
    while i < n
        invariant
            i <= n,
            n == bs@.len(),
            r@.len() == i,
            forall|k: int| 0 <= k < i ==> visible_ascii(#[trigger] bs@[k]),
            forall|k: int| 0 <= k < i ==> r@[k] == bs@[k] as char,
        decreases n - i,
    {
        let b = bs[i];
        if !(32 <= b && b < 127 || b == 9) {
            return None;
        }
        push_char(&mut r, b as char);
        i += 1;
    }
    proof {
        assert(r@ =~= ascii_chars(bs@));
    }
    Some(r)
}

} // verus!

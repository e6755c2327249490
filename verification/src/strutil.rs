//! Character and string helpers shared by the configuration checks and the
//! console renderer.

use vstd::prelude::*;

verus! {

/// Unicode whitespace, the set recognized by `char::is_whitespace`.
pub open spec fn is_ws_char(c: char) -> bool {
    c == ' ' || c == '\t' || c == '\n' || c == '\r' || c == '\u{000B}' || c == '\u{000C}'
        || c == '\u{0085}' || c == '\u{00A0}' || c == '\u{1680}'
        || (0x2000 <= c as u32 && c as u32 <= 0x200A)
        || c == '\u{2028}' || c == '\u{2029}' || c == '\u{202F}' || c == '\u{205F}'
        || c == '\u{3000}'
}

/// Whether `c` is whitespace.
pub fn is_ws(c: char) -> (r: bool)
    ensures
        r == is_ws_char(c),
{
    c == ' ' || c == '\t' || c == '\n' || c == '\r' || c == '\u{000B}' || c == '\u{000C}'
        || c == '\u{0085}' || c == '\u{00A0}' || c == '\u{1680}'
        || (0x2000 <= c as u32 && c as u32 <= 0x200A)
        || c == '\u{2028}' || c == '\u{2029}' || c == '\u{202F}' || c == '\u{205F}'
        || c == '\u{3000}'
}

/// ASCII lowercase folding of one character, as `char::to_ascii_lowercase`
/// performs it: letters `A`..`Z` shift down, everything else is unchanged.
pub open spec fn lower_char(c: char) -> char {
    if 'A' <= c && c <= 'Z' {
        (((c as u8) + 32) as char)
    } else {
        c
    }
}

/// ASCII lowercase folding of a character sequence.
pub open spec fn lower(s: Seq<char>) -> Seq<char> {
    s.map_values(|c: char| lower_char(c))
}

/// Lowercases one character.
pub fn lower_char_exec(c: char) -> (r: char)
    ensures
        r == lower_char(c),
{
    if 'A' <= c && c <= 'Z' {
        ((c as u8) + 32) as char
    } else {
        c
    }
}

/// Relies on `String::push`: appends one character to the string.
#[verifier::external_body]
pub fn push_char(s: &mut String, c: char)
    ensures
        final(s)@ == old(s)@.push(c),
{
    s.push(c)
}

/// The characters of `s`, lowercased, as a vector.
pub fn to_lower_chars(s: &str) -> (r: Vec<char>)
    ensures
        r@ == lower(s@),
{
    let n = s.unicode_len();
    let mut r: Vec<char> = Vec::new();
    let mut i: usize = 0;
    while i < n
        invariant
            n == s@.len(),
            i <= n,
            r@ == lower(s@.subrange(0, i as int)),
        decreases n - i,
    {
        let c = s.get_char(i);
        r.push(lower_char_exec(c));
        proof {
            assert(s@.subrange(0, i + 1 as int).drop_last() =~= s@.subrange(0, i as int));
            assert(lower(s@.subrange(0, i + 1 as int)) =~= lower(s@.subrange(0, i as int)).push(
                lower_char(s@[i as int]),
            ));
        }
        i = i + 1;
    }
    proof {
        assert(s@.subrange(0, n as int) =~= s@);
    }
    r
}

/// The needle occurs in the haystack starting at position `i`.
pub open spec fn matches_at(hay: Seq<char>, needle: Seq<char>, i: int) -> bool {
    0 <= i && i + needle.len() <= hay.len() && hay.subrange(i, i + needle.len()) == needle
}

/// The needle occurs somewhere in the haystack.
pub open spec fn contains_seq(hay: Seq<char>, needle: Seq<char>) -> bool {
    exists|i: int| matches_at(hay, needle, i)
}

/// Substring search over character vectors.
pub fn contains_chars(hay: &Vec<char>, needle: &Vec<char>) -> (r: bool)
    ensures
        r == contains_seq(hay@, needle@),
{
    let hn = hay.len();
    let nn = needle.len();
    if nn > hn {
        return false;
    }
    if nn == 0 {
        proof {
            assert(hay@.subrange(0, 0) =~= needle@);
            assert(matches_at(hay@, needle@, 0));
        }
        return true;
    }
    let mut i: usize = 0;
    while i <= hn - nn
        invariant
            0 < nn <= hn,
            hn == hay@.len(),
            nn == needle@.len(),
            i <= hn - nn + 1,
            forall|k: int| 0 <= k < i ==> !matches_at(hay@, needle@, k),
        decreases hn - nn + 1 - i,
    {
        let mut j: usize = 0;
        let mut mismatch = false;
        while j < nn
            invariant
                nn <= hn,
                hn == hay@.len(),
                nn == needle@.len(),
                i <= hn - nn,
                j <= nn,
                !mismatch ==> hay@.subrange(i as int, i + j) =~= needle@.subrange(0, j as int),
                mismatch ==> !matches_at(hay@, needle@, i as int),
            decreases nn - j,
        {
            if !mismatch && hay[i + j] != needle[j] {
                proof {
                    assert(matches_at(hay@, needle@, i as int) ==> hay@.subrange(
                        i as int,
                        i + nn,
                    )[j as int] == needle@[j as int]);
                }
                mismatch = true;
            }
            proof {
                if !mismatch {
                    assert(hay@.subrange(i as int, i + j + 1) =~= hay@.subrange(
                        i as int,
                        i + j,
                    ).push(hay@[i + j]));
                    assert(needle@.subrange(0, j + 1) =~= needle@.subrange(0, j as int).push(
                        needle@[j as int],
                    ));
                }
            }
            j = j + 1;
        }
        if !mismatch {
            proof {
                assert(needle@.subrange(0, nn as int) =~= needle@);
                assert(hay@.subrange(i as int, i + nn) =~= needle@);
                assert(matches_at(hay@, needle@, i as int));
            }
            return true;
        }
        i = i + 1;
    }
    proof {
        assert forall|k: int| matches_at(hay@, needle@, k) implies false by {
            assert(0 <= k && k + nn <= hn);
            assert(k < i);
        }
    }
    false
}

/// Case-insensitive substring test: does the lowercased haystack contain the
/// lowercased needle?
pub fn contains_ci(hay: &str, needle: &str) -> (r: bool)
    ensures
        r == contains_seq(lower(hay@), lower(needle@)),
{
    let h = to_lower_chars(hay);
    let n = to_lower_chars(needle);
    contains_chars(&h, &n)
}

/// The sequence with its leading whitespace removed.
pub open spec fn trim_start_spec(s: Seq<char>) -> Seq<char>
    decreases s.len(),
{
    if s.len() > 0 && is_ws_char(s[0]) {
        trim_start_spec(s.drop_first())
    } else {
        s
    }
}

/// The sequence with its trailing whitespace removed.
pub open spec fn trim_end_spec(s: Seq<char>) -> Seq<char>
    decreases s.len(),
{
    if s.len() > 0 && is_ws_char(s.last()) {
        trim_end_spec(s.drop_last())
    } else {
        s
    }
}

/// The sequence with whitespace removed from both ends.
pub open spec fn trim_spec(s: Seq<char>) -> Seq<char> {
    trim_end_spec(trim_start_spec(s))
}

/// Removing leading whitespace keeps the suffix that starts at the first
/// non-whitespace position.
proof fn lemma_trim_start_at(s: Seq<char>, i: int)
    requires
        0 <= i <= s.len(),
        forall|k: int| 0 <= k < i ==> is_ws_char(s[k]),
        i < s.len() ==> !is_ws_char(s[i]),
    ensures
        trim_start_spec(s) == s.subrange(i, s.len() as int),
    decreases i,
{
    if i == 0 {
        assert(s.subrange(0, s.len() as int) =~= s);
    } else {
        let t = s.drop_first();
        assert(forall|k: int| 0 <= k < i - 1 ==> is_ws_char(t[k]));
        lemma_trim_start_at(t, i - 1);
        assert(t.subrange(i - 1, t.len() as int) =~= s.subrange(i, s.len() as int));
    }
}

/// Removing trailing whitespace keeps the prefix that ends after the last
/// non-whitespace position.
pub proof fn lemma_trim_end_at(s: Seq<char>, j: int)
    requires
        0 <= j <= s.len(),
        forall|k: int| j <= k < s.len() ==> is_ws_char(s[k]),
        j > 0 ==> !is_ws_char(s[j - 1]),
    ensures
        trim_end_spec(s) == s.subrange(0, j),
    decreases s.len() - j,
{
    if j == s.len() {
        assert(s.subrange(0, j) =~= s);
    } else {
        let t = s.drop_last();
        assert(is_ws_char(s.last()));
        lemma_trim_end_at(t, j);
        assert(t.subrange(0, j) =~= s.subrange(0, j));
    }
}

/// The characters of `s`, as a vector.
pub fn to_chars(s: &str) -> (r: Vec<char>)
    ensures
        r@ == s@,
{
    let n = s.unicode_len();
    let mut r: Vec<char> = Vec::new();
    let mut i: usize = 0;
    while i < n
        invariant
            n == s@.len(),
            i <= n,
            r@ == s@.subrange(0, i as int),
        decreases n - i,
    {
        r.push(s.get_char(i));
        proof {
            assert(s@.subrange(0, i + 1) =~= s@.subrange(0, i as int).push(s@[i as int]));
        }
        i = i + 1;
    }
    proof {
        assert(s@.subrange(0, n as int) =~= s@);
    }
    r
}

/// The characters of `v` with whitespace removed from both ends.
pub fn trim_chars(v: &Vec<char>) -> (r: Vec<char>)
    ensures
        r@ == trim_spec(v@),
{
    let n = v.len();
    let mut a: usize = 0;
    while a < n && is_ws(v[a])
        invariant
            n == v@.len(),
            a <= n,
            forall|k: int| 0 <= k < a ==> is_ws_char(v@[k]),
        decreases n - a,
    {
        a = a + 1;
    }
    let mut b: usize = n;
    while b > a && is_ws(v[b - 1])
        invariant
            n == v@.len(),
            a <= b <= n,
            forall|k: int| b <= k < n ==> is_ws_char(v@[k]),
        decreases b,
    {
        b = b - 1;
    }
    let mut r: Vec<char> = Vec::new();
    let mut i: usize = a;
    while i < b
        invariant
            n == v@.len(),
            a <= i <= b <= n,
            r@ == v@.subrange(a as int, i as int),
        decreases b - i,
    {
        r.push(v[i]);
        proof {
            assert(v@.subrange(a as int, i + 1) =~= v@.subrange(a as int, i as int).push(
                v@[i as int],
            ));
        }
        i = i + 1;
    }
    proof {
        lemma_trim_start_at(v@, a as int);
        let sub = v@.subrange(a as int, n as int);
        assert(forall|k: int| b - a <= k < sub.len() ==> is_ws_char(sub[k]));
        lemma_trim_end_at(sub, b - a);
        assert(sub.subrange(0, b - a) =~= v@.subrange(a as int, b as int));
    }
    r
}

/// The decimal digit character for `d`.
pub open spec fn dec_digit_char(d: int) -> char {
    if d == 0 {
        '0'
    } else if d == 1 {
        '1'
    } else if d == 2 {
        '2'
    } else if d == 3 {
        '3'
    } else if d == 4 {
        '4'
    } else if d == 5 {
        '5'
    } else if d == 6 {
        '6'
    } else if d == 7 {
        '7'
    } else if d == 8 {
        '8'
    } else {
        '9'
    }
}

/// The decimal rendering of `n`, as `usize::to_string` writes it.
pub open spec fn dec_str(n: nat) -> Seq<char>
    decreases n,
{
    if n < 10 {
        seq![dec_digit_char(n as int)]
    } else {
        dec_str(n / 10) + seq![dec_digit_char((n % 10) as int)]
    }
}

/// The digit character for a value below ten.
pub fn dec_digit(d: usize) -> (r: char)
    requires
        d < 10,
    ensures
        r == dec_digit_char(d as int),
{
    if d == 0 {
        '0'
    } else if d == 1 {
        '1'
    } else if d == 2 {
        '2'
    } else if d == 3 {
        '3'
    } else if d == 4 {
        '4'
    } else if d == 5 {
        '5'
    } else if d == 6 {
        '6'
    } else if d == 7 {
        '7'
    } else if d == 8 {
        '8'
    } else {
        '9'
    }
}

/// Renders `n` in decimal.
pub fn usize_to_string(n: usize) -> (r: String)
    ensures
        r@ == dec_str(n as nat),
{
    let mut digits: Vec<char> = Vec::new();
    let mut m: usize = n;
    while m >= 10
        invariant
            dec_str(n as nat) =~= dec_str(m as nat) + digits@.reverse(),
        decreases m,
    {
        let d = m % 10;
        let prev = Ghost(digits@);
        digits.push(dec_digit(d));
        m = m / 10;
        proof {
            assert forall|q: int| 0 <= q < digits@.reverse().len() implies digits@.reverse()[q] == (
            seq![dec_digit_char(d as int)] + prev@.reverse())[q] by {
                if q > 0 {
                    assert(digits@.reverse()[q] == digits@[digits@.len() - 1 - q]);
                    assert(prev@.reverse()[q - 1] == prev@[prev@.len() - 1 - (q - 1)]);
                }
            }
            assert(digits@.reverse() =~= seq![dec_digit_char(d as int)] + prev@.reverse());
            assert(dec_str(n as nat) =~= dec_str(m as nat) + digits@.reverse());
        }
    }
    let prev = Ghost(digits@);
    digits.push(dec_digit(m));
    proof {
        assert forall|q: int| 0 <= q < digits@.reverse().len() implies digits@.reverse()[q] == (
        seq![dec_digit_char(m as int)] + prev@.reverse())[q] by {
            if q > 0 {
                assert(digits@.reverse()[q] == digits@[digits@.len() - 1 - q]);
                assert(prev@.reverse()[q - 1] == prev@[prev@.len() - 1 - (q - 1)]);
            }
        }
        assert(digits@.reverse() =~= seq![dec_digit_char(m as int)] + prev@.reverse());
        assert(dec_str(n as nat) =~= digits@.reverse());
    }
    let mut r = String::new();
    let k = digits.len();
    let mut t: usize = 0;
    while t < k
        invariant
            k == digits@.len(),
            t <= k,
            r@.len() == t,
            forall|q: int| 0 <= q < t ==> r@[q] == digits@[k - 1 - q],
        decreases k - t,
    {
        push_char(&mut r, digits[k - 1 - t]);
        t = t + 1;
    }
    proof {
        assert(r@ =~= digits@.reverse());
    }
    r
}

} // verus!

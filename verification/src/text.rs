//! Verified text utilities: substring search, replacement, trimming and
//! decimal rendering over `Seq<char>` views. These are the building blocks
//! for prompt rendering, argument encoding and response parsing.

use vstd::prelude::*;

verus! {

/// The marker `m` occurs in `s` at position `i`.
pub open spec fn match_at(s: Seq<char>, m: Seq<char>, i: int) -> bool {
    0 <= i && i + m.len() <= s.len() && s.subrange(i, i + m.len() as int) == m
}

/// The position of the first occurrence of `m` in `s` at or after `i`,
/// if there is one.
pub open spec fn find_from(s: Seq<char>, m: Seq<char>, i: int) -> Option<int>
    decreases s.len() - i,
        via find_from_decreases
{
    if i < 0 || i + m.len() > s.len() {
        None
    } else if match_at(s, m, i) {
        Some(i)
    } else {
        find_from(s, m, i + 1)
    }
}

#[via_fn]
proof fn find_from_decreases(s: Seq<char>, m: Seq<char>, i: int) {
    if 0 <= i && i + m.len() <= s.len() && !match_at(s, m, i) && m.len() == 0 {
        assert(s.subrange(i, i) =~= m);
    }
}

/// A found position lies in range, at or after the start, and carries a match.
pub proof fn lemma_find_from_some(s: Seq<char>, m: Seq<char>, j: int, i: int)
    requires
        0 <= j,
        find_from(s, m, j) == Some(i),
    ensures
        j <= i,
        i + m.len() <= s.len(),
        match_at(s, m, i),
    decreases s.len() - j,
{
    if j + m.len() > s.len() {
        assert(false);
    } else if match_at(s, m, j) {
    } else {
        if m.len() == 0 {
            assert(s.subrange(j, j) =~= m);
        }
        lemma_find_from_some(s, m, j + 1, i);
    }
}

/// Finds the first occurrence of `m` in `s`, by character position.
pub fn find_str(s: &str, m: &str) -> (r: Option<usize>)
    requires
        m@.len() >= 1,
    ensures
        r is None ==> find_from(s@, m@, 0) is None,
        r matches Some(i) ==> find_from(s@, m@, 0) == Some(i as int),
{
    let slen = s.unicode_len();
    let mlen = m.unicode_len();
    if mlen > slen {
        return None;
    }
    let mut i: usize = 0;
    while i <= slen - mlen
        invariant
            1 <= mlen <= slen,
            slen == s@.len(),
            mlen == m@.len(),
            i <= slen - mlen + 1,
            find_from(s@, m@, 0) == find_from(s@, m@, i as int),
        decreases slen - i,
    {
        let mut j: usize = 0;
        let mut is_match = true;
        while is_match && j < mlen
            invariant
                j <= mlen,
                i + mlen <= slen,
                slen == s@.len(),
                mlen == m@.len(),
                is_match ==> forall|k: int| 0 <= k < j ==> s@[i + k] == m@[k],
                !is_match ==> !match_at(s@, m@, i as int),
            decreases mlen - j,
        {
            let sc = s.get_char(i + j);
            let mc = m.get_char(j);
            if sc != mc {
                proof {
                    if match_at(s@, m@, i as int) {
                        assert(s@.subrange(i as int, i + mlen as int)[j as int] == s@[i + j]);
                    }
                }
                is_match = false;
            }
            j += 1;
        }
        if is_match {
            proof {
                assert(s@.subrange(i as int, i + mlen as int) =~= m@);
            }
            return Some(i);
        }
        proof {
            assert(find_from(s@, m@, i as int) == find_from(s@, m@, i + 1));
        }
        i += 1;
    }
    proof {
        assert(find_from(s@, m@, i as int) is None);
    }
    None
}

/// `s` with every occurrence of `m` replaced by `r`, scanning left to
/// right; the replacement text itself is never rescanned.
pub open spec fn replace_all(s: Seq<char>, m: Seq<char>, r: Seq<char>) -> Seq<char>
    decreases s.len(),
        when m.len() >= 1
        via replace_all_decreases
{
    match find_from(s, m, 0) {
        None => s,
        Some(i) => s.subrange(0, i) + r + replace_all(
            s.subrange(i + m.len() as int, s.len() as int),
            m,
            r,
        ),
    }
}

#[via_fn]
proof fn replace_all_decreases(s: Seq<char>, m: Seq<char>, r: Seq<char>) {
    match find_from(s, m, 0) {
        Some(i) => lemma_find_from_some(s, m, 0, i),
        None => {},
    }
}

/// Replaces every occurrence of `m` in `s` by `r`.
pub fn replace_all_str(s: &str, m: &str, r: &str) -> (out: String)
    requires
        m@.len() >= 1,
    ensures
        out@ == replace_all(s@, m@, r@),
    decreases s@.len(),
{
    match find_str(s, m) {
        None => s.to_owned(),
        Some(i) => {
            proof {
                lemma_find_from_some(s@, m@, 0, i as int);
            }
            let slen = s.unicode_len();
            let mlen = m.unicode_len();
            let prefix = s.substring_char(0, i);
            let rest = s.substring_char(i + mlen, slen);
            let mut out = prefix.to_owned();
            out.append(r);
            let tail = replace_all_str(rest, m, r);
            out.append(tail.as_str());
            out
        },
    }
}

/// The whitespace characters that trimming removes.
pub open spec fn is_space(c: char) -> bool {
    c == ' ' || c == '\t' || c == '\n' || c == '\r' || c == '\u{b}' || c == '\u{c}'
}

/// Whitespace test matching `is_space`.
pub fn char_is_space(c: char) -> (b: bool)
    ensures
        b == is_space(c),
{
    c == ' ' || c == '\t' || c == '\n' || c == '\r' || c == '\u{b}' || c == '\u{c}'
}

/// `l` without its leading whitespace.
pub open spec fn trim_start(l: Seq<char>) -> Seq<char>
    decreases l.len(),
{
    if l.len() > 0 && is_space(l[0]) {
        trim_start(l.drop_first())
    } else {
        l
    }
}

/// `l` without its trailing whitespace.
pub open spec fn trim_end(l: Seq<char>) -> Seq<char>
    decreases l.len(),
{
    if l.len() > 0 && is_space(l[l.len() - 1]) {
        trim_end(l.drop_last())
    } else {
        l
    }
}

/// `l` without leading and trailing whitespace.
pub open spec fn trim(l: Seq<char>) -> Seq<char> {
    trim_end(trim_start(l))
}

proof fn lemma_trim_start_at(l: Seq<char>, a: int)
    requires
        0 <= a <= l.len(),
        forall|k: int| 0 <= k < a ==> is_space(l[k]),
        a == l.len() || !is_space(l[a]),
    ensures
        trim_start(l) == l.subrange(a, l.len() as int),
    decreases a,
{
    if a == 0 {
        assert(l =~= l.subrange(0, l.len() as int));
    } else {
        assert(is_space(l[0]));
        lemma_trim_start_at(l.drop_first(), a - 1);
        assert(l.drop_first().subrange(a - 1, l.drop_first().len() as int) =~= l.subrange(
            a,
            l.len() as int,
        ));
    }
}

proof fn lemma_trim_end_at(l: Seq<char>, b: int)
    requires
        0 <= b <= l.len(),
        forall|k: int| b <= k < l.len() ==> is_space(l[k]),
        b == 0 || !is_space(l[b - 1]),
    ensures
        trim_end(l) == l.subrange(0, b),
    decreases l.len() - b,
{
    if b == l.len() {
        assert(l =~= l.subrange(0, b));
    } else {
        assert(is_space(l[l.len() - 1]));
        lemma_trim_end_at(l.drop_last(), b);
        assert(l.drop_last().subrange(0, b) =~= l.subrange(0, b));
    }
}

/// `l` with leading and trailing whitespace removed.
pub fn trim_str(l: &str) -> (t: String)
    ensures
        t@ == trim(l@),
{
    let len = l.unicode_len();
    let mut a: usize = 0;
    while a < len && char_is_space(l.get_char(a))
        invariant
            a <= len,
            len == l@.len(),
            forall|k: int| 0 <= k < a ==> is_space(l@[k]),
        decreases len - a,
    {
        a += 1;
    }
    let mut b: usize = len;
    while b > a && char_is_space(l.get_char(b - 1))
        invariant
            a <= b <= len,
            len == l@.len(),
            forall|k: int| b <= k < len ==> is_space(l@[k]),
        decreases b,
    {
        b -= 1;
    }
    proof {
        lemma_trim_start_at(l@, a as int);
        let mid = l@.subrange(a as int, len as int);
        lemma_trim_end_at(mid, b - a);
        assert(mid.subrange(0, b - a) =~= l@.subrange(a as int, b as int));
    }
    l.substring_char(a, b).to_owned()
}

/// `s` begins with `p`.
pub open spec fn starts_with(s: Seq<char>, p: Seq<char>) -> bool {
    p.len() <= s.len() && s.subrange(0, p.len() as int) == p
}

/// `s` ends in `suf`.
pub open spec fn ends_with(s: Seq<char>, suf: Seq<char>) -> bool {
    suf.len() <= s.len() && s.subrange(s.len() - suf.len(), s.len() as int) == suf
}

/// Character-wise string equality.
pub fn str_eq(a: &str, b: &str) -> (r: bool)
    ensures
        r == (a@ == b@),
{
    let alen = a.unicode_len();
    let blen = b.unicode_len();
    if alen != blen {
        return false;
    }
    let mut i: usize = 0;
    while i < alen
        invariant
            i <= alen,
            alen == a@.len(),
            alen == b@.len(),
            forall|k: int| 0 <= k < i ==> a@[k] == b@[k],
        decreases alen - i,
    {
        if a.get_char(i) != b.get_char(i) {
            return false;
        }
        i += 1;
    }
    proof {
        assert(a@ =~= b@);
    }
    true
}

/// Suffix test matching `ends_with`.
pub fn str_ends_with(s: &str, suf: &str) -> (r: bool)
    ensures
        r == ends_with(s@, suf@),
{
    let slen = s.unicode_len();
    let flen = suf.unicode_len();
    if flen > slen {
        return false;
    }
    let mut i: usize = 0;
    while i < flen
        invariant
            i <= flen <= slen,
            slen == s@.len(),
            flen == suf@.len(),
            forall|k: int| 0 <= k < i ==> s@[slen - flen + k] == suf@[k],
        decreases flen - i,
    {
        if s.get_char(slen - flen + i) != suf.get_char(i) {
            proof {
                if ends_with(s@, suf@) {
                    assert(s@.subrange(slen - flen, slen as int)[i as int] == s@[slen - flen
                        + i]);
                }
            }
            return false;
        }
        i += 1;
    }
    proof {
        assert(s@.subrange(slen - flen, slen as int) =~= suf@);
    }
    true
}

/// The character for one decimal digit.
pub open spec fn dec_digit(d: int) -> char {
    if d == 0 {
        '0'
    } else if d == 1 {
        '1'
    } else if d == 2 {
        '2'
    } else if d == 3 {
        '3'
    } else if d == 4 {
        '4'
    } else if d == 5 {
        '5'
    } else if d == 6 {
        '6'
    } else if d == 7 {
        '7'
    } else if d == 8 {
        '8'
    } else {
        '9'
    }
}

/// The decimal rendering of a non-negative number, most significant
/// digit first, with no leading zeros (`0` itself renders as "0").
pub open spec fn dec_rep(n: int) -> Seq<char>
    decreases n,
{
    if n < 10 {
        seq![dec_digit(n)]
    } else {
        dec_rep(n / 10) + seq![dec_digit(n % 10)]
    }
}

pub(crate) fn digit_str(d: u64) -> (r: &'static str)
    requires
        d < 10,
    ensures
        r@ =~= seq![dec_digit(d as int)],
{
    proof {
        reveal_strlit("0");
        reveal_strlit("1");
        reveal_strlit("2");
        reveal_strlit("3");
        reveal_strlit("4");
        reveal_strlit("5");
        reveal_strlit("6");
        reveal_strlit("7");
        reveal_strlit("8");
        reveal_strlit("9");
    }
    match d {
        0 => "0",
        1 => "1",
        2 => "2",
        3 => "3",
        4 => "4",
        5 => "5",
        6 => "6",
        7 => "7",
        8 => "8",
        _ => "9",
    }
}

/// Renders `n` in decimal.
pub fn u64_to_dec(n: u64) -> (r: String)
    ensures
        r@ == dec_rep(n as int),
    decreases n,
{
    if n < 10 {
        digit_str(n).to_owned()
    } else {
        let mut s = u64_to_dec(n / 10);
        s.append(digit_str(n % 10));
        proof {
            assert(s@ =~= dec_rep(n as int));
        }
        s
    }
}

/// The decimal rendering of `n`, zero-padded on the left to two digits.
pub open spec fn two_digit_rep(n: int) -> Seq<char> {
    if n < 10 {
        seq!['0'] + dec_rep(n)
    } else {
        dec_rep(n)
    }
}

/// Renders `n` in decimal, zero-padded to at least two digits.
pub fn u64_to_two_digit(n: u64) -> (r: String)
    ensures
        r@ == two_digit_rep(n as int),
{
    if n < 10 {
        proof {
            reveal_strlit("0");
        }
        let mut s = "0".to_owned();
        s.append(digit_str(n));
        proof {
            assert(s@ =~= two_digit_rep(n as int));
        }
        s
    } else {
        u64_to_dec(n)
    }
}

} // verus!

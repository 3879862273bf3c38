//! Verified helpers over strings: equality, case-insensitive comparison,
//! substring search, suffix handling, trimming, file-extension extraction,
//! and integer formatting.  All contracts are stated over `Seq<char>` views.

use vstd::prelude::*;
use vstd::string::*;

verus! {

/// The scalar value of a character with ASCII upper-case letters folded to
/// lower case; all other characters are left as they are.
pub open spec fn canon_char(c: char) -> int {
    if 65 <= (c as u32) && (c as u32) <= 90 {
        (c as u32) + 32
    } else {
        (c as u32) as int
    }
}

/// Character sequences equal up to ASCII case.
pub open spec fn seq_eq_ci(s: Seq<char>, t: Seq<char>) -> bool {
    s.len() == t.len() && (forall|i: int| 0 <= i < s.len() ==> canon_char(s[i]) == canon_char(t[i]))
}

/// A sequence cannot be case-insensitively equal to two sequences that are
/// not case-insensitively equal to each other.
pub proof fn lemma_seq_eq_ci_distinct(s: Seq<char>, a: Seq<char>, b: Seq<char>)
    ensures
        seq_eq_ci(s, a) && seq_eq_ci(s, b) ==> seq_eq_ci(a, b),
{
}

/// String equality on character views.
pub fn str_eq(a: &str, b: &str) -> (r: bool)
    ensures
        r == (a@ == b@),
{
    let alen = a.unicode_len();
    let blen = b.unicode_len();
    if alen != blen {
        proof {
            if a@ == b@ {
                assert(a@.len() == b@.len());
            }
        }
        return false;
    }
    let mut i: usize = 0;
    while i < alen
        invariant
            alen == a@.len(),
            blen == b@.len(),
            alen == blen,
            0 <= i <= alen,
            forall|j: int| 0 <= j < i ==> a@[j] == b@[j],
        decreases alen - i,
    {
        let ca = a.get_char(i);
        let cb = b.get_char(i);
        if ca != cb {
            return false;
        }
        i = i + 1;
    }
    proof {
        assert(a@ =~= b@);
    }
    true
}

/// String equality up to ASCII case.
pub fn eq_ignore_ascii_case(a: &str, b: &str) -> (r: bool)
    ensures
        r == seq_eq_ci(a@, b@),
{
    let alen = a.unicode_len();
    let blen = b.unicode_len();
    if alen != blen {
        return false;
    }
    let mut i: usize = 0;
    while i < alen
        invariant
            alen == a@.len(),
            blen == b@.len(),
            alen == blen,
            0 <= i <= alen,
            forall|j: int| 0 <= j < i ==> canon_char(a@[j]) == canon_char(b@[j]),
        decreases alen - i,
    {
        let ca = a.get_char(i) as u32;
        let cb = b.get_char(i) as u32;
        let fa = if 65 <= ca && ca <= 90 { ca + 32 } else { ca };
        let fb = if 65 <= cb && cb <= 90 { cb + 32 } else { cb };
        if fa != fb {
            return false;
        }
        i = i + 1;
    }
    true
}

/// `n` occurs in `h` starting at index `i`.
pub open spec fn contains_at(h: Seq<char>, n: Seq<char>, i: int) -> bool {
    0 <= i && i + n.len() <= h.len() && h.subrange(i, i + n.len() as int) == n
}

/// `n` occurs somewhere in `h`.
pub open spec fn contains_seq(h: Seq<char>, n: Seq<char>) -> bool {
    exists|i: int| contains_at(h, n, i)
}

/// Substring containment on character views.
pub fn contains_sub(hay: &str, needle: &str) -> (r: bool)
    ensures
        r == contains_seq(hay@, needle@),
{
    let hlen = hay.unicode_len();
    let nlen = needle.unicode_len();
    if nlen > hlen {
        proof {
            assert forall|i: int| !contains_at(hay@, needle@, i) by {}
        }
        return false;
    }
    let limit = hlen - nlen;
    let mut i: usize = 0;
    loop
        invariant
            hlen == hay@.len(),
            nlen == needle@.len(),
            nlen <= hlen,
            limit == hlen - nlen,
            0 <= i <= limit + 1,
            forall|k: int| 0 <= k < i ==> !contains_at(hay@, needle@, k),
        decreases hlen - i,
    {
        if i > limit {
            proof {
                assert forall|k: int| !contains_at(hay@, needle@, k) by {
                    if 0 <= k < i {
                    } else if k >= i {
                        assert(k + nlen > hlen);
                    }
                }
            }
            return false;
        }
        let mut j: usize = 0;
        let mut ok = true;
        while j < nlen
            invariant
                hlen == hay@.len(),
                nlen == needle@.len(),
                0 <= i,
                i + nlen <= hlen,
                0 <= j <= nlen,
                ok ==> forall|t: int| 0 <= t < j ==> hay@[i + t] == needle@[t],
                !ok ==> exists|t: int| 0 <= t < nlen && hay@[i + t] != needle@[t],
            ensures
                ok ==> forall|t: int| 0 <= t < nlen ==> hay@[i + t] == needle@[t],
                !ok ==> exists|t: int| 0 <= t < nlen && hay@[i + t] != needle@[t],
            decreases nlen - j,
    {
            if !ok {
                break;
            }
            let ca = hay.get_char(i + j);
            let cb = needle.get_char(j);
            if ca != cb {
                ok = false;
            }
            j = j + 1;
        }
        if ok {
            proof {
                assert(hay@.subrange(i as int, i + nlen as int) =~= needle@);
                assert(contains_at(hay@, needle@, i as int));
            }
            return true;
        }
        proof {
            let t = choose|t: int| 0 <= t < nlen && hay@[i + t] != needle@[t];
            assert(hay@.subrange(i as int, i + nlen as int)[t] == hay@[i + t]);
            assert(!contains_at(hay@, needle@, i as int));
            assert(nlen > 0);
        }
        i = i + 1;
    }
}

/// `s` ends with `suf`.
pub open spec fn ends_with_seq(s: Seq<char>, suf: Seq<char>) -> bool {
    s.len() >= suf.len() && s.subrange(s.len() - suf.len(), s.len() as int) == suf
}

/// Suffix test on character views.
pub fn ends_with(s: &str, suf: &str) -> (r: bool)
    ensures
        r == ends_with_seq(s@, suf@),
{
    let slen = s.unicode_len();
    let flen = suf.unicode_len();
    if flen > slen {
        return false;
    }
    let base = slen - flen;
    let mut j: usize = 0;
    while j < flen
        invariant
            slen == s@.len(),
            flen == suf@.len(),
            flen <= slen,
            base == slen - flen,
            0 <= j <= flen,
            forall|t: int| 0 <= t < j ==> s@[base + t] == suf@[t],
        decreases flen - j,
    {
        let ca = s.get_char(base + j);
        let cb = suf.get_char(j);
        if ca != cb {
            proof {
                assert(s@.subrange(s@.len() - suf@.len(), s@.len() as int)[j as int] == s@[base + j]);
            }
            return false;
        }
        j = j + 1;
    }
    proof {
        assert(s@.subrange(s@.len() - suf@.len(), s@.len() as int) =~= suf@);
    }
    true
}

/// `s` with every trailing repetition of `suf` removed.
pub open spec fn strip_repeat_suffix(s: Seq<char>, suf: Seq<char>) -> Seq<char>
    decreases s.len(),
{
    if suf.len() > 0 && ends_with_seq(s, suf) && s.len() >= suf.len() {
        strip_repeat_suffix(s.subrange(0, s.len() - suf.len()), suf)
    } else {
        s
    }
}

/// Remove every trailing repetition of `suf` from `s`.
pub fn trim_end_matches(s: &str, suf: &str) -> (r: String)
    requires
        suf@.len() > 0,
    ensures
        r@ == strip_repeat_suffix(s@, suf@),
{
    let mut cur = s.to_owned();
    let flen = suf.unicode_len();
    loop
        invariant
            flen == suf@.len(),
            flen > 0,
            strip_repeat_suffix(cur@, suf@) == strip_repeat_suffix(s@, suf@),
        decreases cur@.len(),
    {
        let clen = cur.as_str().unicode_len();
        if clen >= flen && ends_with(cur.as_str(), suf) {
            let shorter = cur.as_str().substring_char(0, clen - flen).to_owned();
            proof {
                assert(shorter@ == cur@.subrange(0, cur@.len() - suf@.len()));
            }
            cur = shorter;
        } else {
            return cur;
        }
    }
}

/// An ASCII whitespace character: space, tab, line feed or carriage return.
pub open spec fn is_ws(c: char) -> bool {
    c == ' ' || c == '\t' || c == '\n' || c == '\r'
}

/// `s` with leading whitespace removed.
pub open spec fn trim_start_seq(s: Seq<char>) -> Seq<char>
    decreases s.len(),
{
    if s.len() > 0 && is_ws(s[0]) {
        trim_start_seq(s.subrange(1, s.len() as int))
    } else {
        s
    }
}

/// `s` with trailing whitespace removed.
pub open spec fn trim_end_seq(s: Seq<char>) -> Seq<char>
    decreases s.len(),
{
    if s.len() > 0 && is_ws(s.last()) {
        trim_end_seq(s.drop_last())
    } else {
        s
    }
}

/// `s` with leading and trailing ASCII whitespace removed.
pub open spec fn trim_seq(s: Seq<char>) -> Seq<char> {
    trim_end_seq(trim_start_seq(s))
}

/// Remove leading and trailing ASCII whitespace.
pub fn trim_ascii(s: &str) -> (r: String)
    ensures
        r@ == trim_seq(s@),
{
    let mut cur = s.to_owned();
    loop
        invariant
            trim_start_seq(cur@) == trim_start_seq(s@),
        ensures
            trim_start_seq(cur@) == trim_start_seq(s@),
            trim_start_seq(cur@) == cur@,
        decreases cur@.len(),
    {
        let clen = cur.as_str().unicode_len();
        if clen > 0 {
            let c = cur.as_str().get_char(0);
            if c == ' ' || c == '\t' || c == '\n' || c == '\r' {
                let shorter = cur.as_str().substring_char(1, clen).to_owned();
                proof {
                    assert(shorter@ == cur@.subrange(1, cur@.len() as int));
                }
                cur = shorter;
                continue;
            }
        }
        break;
    }
    loop
        invariant
            trim_start_seq(cur@) == cur@,
            trim_end_seq(cur@) == trim_seq(s@),
        ensures
            trim_end_seq(cur@) == trim_seq(s@),
            trim_end_seq(cur@) == cur@,
        decreases cur@.len(),
    {
        let clen = cur.as_str().unicode_len();
        if clen > 0 {
            let c = cur.as_str().get_char(clen - 1);
            if c == ' ' || c == '\t' || c == '\n' || c == '\r' {
                let shorter = cur.as_str().substring_char(0, clen - 1).to_owned();
                proof {
                    assert(shorter@ == cur@.drop_last());
                    lemma_trim_start_of_trimmed(cur@);
                }
                cur = shorter;
                continue;
            }
        }
        break;
    }
    cur
}

/// Dropping the last character of a sequence with no leading whitespace
/// leaves a sequence with no leading whitespace.
proof fn lemma_trim_start_of_trimmed(s: Seq<char>)
    requires
        trim_start_seq(s) == s,
        s.len() > 0,
        is_ws(s.last()),
    ensures
        trim_start_seq(s.drop_last()) == s.drop_last(),
{
    if s.drop_last().len() > 0 && is_ws(s.drop_last()[0]) {
        assert(s[0] == s.drop_last()[0]);
        assert(trim_start_seq(s) == trim_start_seq(s.subrange(1, s.len() as int)));
        assert(s != trim_start_seq(s.subrange(1, s.len() as int))) by {
            assert(s.subrange(1, s.len() as int).len() < s.len());
            lemma_trim_start_len(s.subrange(1, s.len() as int));
        }
    }
}

/// Trimming never lengthens a sequence.
proof fn lemma_trim_start_len(s: Seq<char>)
    ensures
        trim_start_seq(s).len() <= s.len(),
    decreases s.len(),
{
    if s.len() > 0 && is_ws(s[0]) {
        lemma_trim_start_len(s.subrange(1, s.len() as int));
    }
}

/// The part of `s` after the last occurrence of `c`; all of `s` when `c`
/// does not occur.
pub open spec fn after_last(s: Seq<char>, c: char) -> Seq<char>
    decreases s.len(),
{
    if s.len() == 0 {
        s
    } else if s.last() == c {
        Seq::<char>::empty()
    } else {
        after_last(s.drop_last(), c).push(s.last())
    }
}

proof fn lemma_after_last_none(s: Seq<char>, c: char)
    requires
        forall|j: int| 0 <= j < s.len() ==> s[j] != c,
    ensures
        after_last(s, c) == s,
    decreases s.len(),
{
    if s.len() > 0 {
        lemma_after_last_none(s.drop_last(), c);
        assert(after_last(s, c) =~= s);
    }
}

proof fn lemma_after_last_index(s: Seq<char>, c: char, k: int)
    requires
        0 <= k < s.len(),
        s[k] == c,
        forall|j: int| k < j < s.len() ==> s[j] != c,
    ensures
        after_last(s, c) == s.subrange(k + 1, s.len() as int),
    decreases s.len(),
{
    if k == s.len() - 1 {
        assert(after_last(s, c) =~= s.subrange(k + 1, s.len() as int));
    } else {
        lemma_after_last_index(s.drop_last(), c, k);
        assert(after_last(s, c) =~= s.subrange(k + 1, s.len() as int));
    }
}

/// The normalized extension of a file path: a dot followed by what stands
/// after the last dot of the path's final component, where that dot is not
/// the component's first character; a bare dot when there is no extension.
pub open spec fn spec_ext_with_dot(p: Seq<char>) -> Seq<char> {
    let name = after_last(p, '/');
    if exists|j: int| 0 < j < name.len() && name[j] == '.' {
        seq!['.'] + after_last(name, '.')
    } else {
        seq!['.']
    }
}

/// Return the suffix of `s` after the last occurrence of `c`.
fn after_last_exec(s: &str, c: char) -> (r: String)
    ensures
        r@ == after_last(s@, c),
{
    let slen = s.unicode_len();
    let mut k: usize = slen;
    let mut found = false;
    let mut i: usize = 0;
    while i < slen
        invariant
            slen == s@.len(),
            0 <= i <= slen,
            found ==> 0 <= k < i && s@[k as int] == c && (forall|j: int| k < j < i ==> s@[j] != c),
            !found ==> forall|j: int| 0 <= j < i ==> s@[j] != c,
        decreases slen - i,
    {
        if s.get_char(i) == c {
            k = i;
            found = true;
        }
        i = i + 1;
    }
    if found {
        let r = s.substring_char(k + 1, slen).to_owned();
        proof {
            lemma_after_last_index(s@, c, k as int);
        }
        r
    } else {
        let r = s.to_owned();
        proof {
            lemma_after_last_none(s@, c);
        }
        r
    }
}

/// The normalized file extension of a path, with its leading dot.
pub fn ext_with_dot(path: &str) -> (r: String)
    ensures
        r@ == spec_ext_with_dot(path@),
{
    let name = after_last_exec(path, '/');
    let nlen = name.as_str().unicode_len();
    let mut has_dot = false;
    let mut i: usize = 1;
    while i < nlen
        invariant
            nlen == name@.len(),
            1 <= i,
            i <= nlen || nlen < 1,
            has_dot ==> exists|j: int| 0 < j < name@.len() && name@[j] == '.',
            !has_dot ==> forall|j: int| 0 < j < i ==> name@[j] != '.',
        decreases nlen - i,
    {
        if name.as_str().get_char(i) == '.' {
            has_dot = true;
        }
        i = i + 1;
    }
    if has_dot {
        let ext = after_last_exec(name.as_str(), '.');
        let mut r = String::new();
        r.append(".");
        r.append(ext.as_str());
        proof {
            reveal_strlit(".");
            assert(r@ =~= seq!['.'] + after_last(name@, '.'));
        }
        r
    } else {
        proof {
            assert(forall|j: int| 0 < j < name@.len() ==> name@[j] != '.');
        }
        let r = String::from_str(".");
        proof {
            reveal_strlit(".");
            assert(r@ =~= seq!['.']);
        }
        r
    }
}

/// The character for one hexadecimal digit.
pub open spec fn hex_digit_char(d: int) -> char {
    if d == 0 { '0' } else if d == 1 { '1' } else if d == 2 { '2' } else if d == 3 { '3' }
    else if d == 4 { '4' } else if d == 5 { '5' } else if d == 6 { '6' } else if d == 7 { '7' }
    else if d == 8 { '8' } else if d == 9 { '9' } else if d == 10 { 'a' } else if d == 11 { 'b' }
    else if d == 12 { 'c' } else if d == 13 { 'd' } else if d == 14 { 'e' } else { 'f' }
}

/// The hexadecimal digits of `n`, most significant first, no leading zeros.
pub open spec fn hex_seq(n: nat) -> Seq<char>
    decreases n,
{
    if n < 16 {
        seq![hex_digit_char(n as int)]
    } else {
        hex_seq(n / 16).push(hex_digit_char((n % 16) as int))
    }
}

/// One lower-case hexadecimal digit as a string.
fn hex_digit_str(d: u8) -> (r: &'static str)
    requires
        d < 16,
    ensures
        r@ =~= seq![hex_digit_char(d as int)],
{
    proof {
        reveal_strlit("0");
        reveal_strlit("1");
        reveal_strlit("2");
        reveal_strlit("3");
        reveal_strlit("4");
        reveal_strlit("5");
        reveal_strlit("6");
        reveal_strlit("7");
        reveal_strlit("8");
        reveal_strlit("9");
        reveal_strlit("a");
        reveal_strlit("b");
        reveal_strlit("c");
        reveal_strlit("d");
        reveal_strlit("e");
        reveal_strlit("f");
    }
    match d {
        0 => "0",
        1 => "1",
        2 => "2",
        3 => "3",
        4 => "4",
        5 => "5",
        6 => "6",
        7 => "7",
        8 => "8",
        9 => "9",
        10 => "a",
        11 => "b",
        12 => "c",
        13 => "d",
        14 => "e",
        _ => "f",
    }
}

/// Format `n` in lower-case hexadecimal, without leading zeros.
pub fn hex_string(n: u128) -> (r: String)
    ensures
        r@ == hex_seq(n as nat),
    decreases n,
{
    if n < 16 {
        let r = hex_digit_str(n as u8).to_owned();
        r
    } else {
        let mut r = hex_string(n / 16);
        r.append(hex_digit_str((n % 16) as u8));
        r
    }
}

/// The character for one decimal digit.
pub open spec fn dec_digit_char(d: int) -> char {
    if d == 0 { '0' } else if d == 1 { '1' } else if d == 2 { '2' } else if d == 3 { '3' }
    else if d == 4 { '4' } else if d == 5 { '5' } else if d == 6 { '6' } else if d == 7 { '7' }
    else if d == 8 { '8' } else { '9' }
}

/// The decimal digits of `n`, most significant first, no leading zeros.
pub open spec fn dec_seq(n: nat) -> Seq<char>
    decreases n,
{
    if n < 10 {
        seq![dec_digit_char(n as int)]
    } else {
        dec_seq(n / 10).push(dec_digit_char((n % 10) as int))
    }
}

/// One decimal digit as a string.
fn dec_digit_str(d: u8) -> (r: &'static str)
    requires
        d < 10,
    ensures
        r@ =~= seq![dec_digit_char(d as int)],
{
    proof {
        reveal_strlit("0");
        reveal_strlit("1");
        reveal_strlit("2");
        reveal_strlit("3");
        reveal_strlit("4");
        reveal_strlit("5");
        reveal_strlit("6");
        reveal_strlit("7");
        reveal_strlit("8");
        reveal_strlit("9");
    }
    match d {
        0 => "0",
        1 => "1",
        2 => "2",
        3 => "3",
        4 => "4",
        5 => "5",
        6 => "6",
        7 => "7",
        8 => "8",
        _ => "9",
    }
}

/// Format `n` in decimal, without leading zeros.
pub fn dec_string(n: u64) -> (r: String)
    ensures
        r@ == dec_seq(n as nat),
    decreases n,
{
    if n < 10 {
        let r = dec_digit_str(n as u8).to_owned();
        r
    } else {
        let mut r = dec_string(n / 10);
        r.append(dec_digit_str((n % 10) as u8));
        r
    }
}

} // verus!

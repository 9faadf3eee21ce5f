//! Character-level string helpers: the identifier character rule, string
//! equality, suffix tests and substring search, each with an exact contract.
use vstd::prelude::*;

verus! {

/// A character allowed in a package, module, command or license identifier:
/// ASCII letters and digits, '-', '_' and ' ' (space is allowed so that a
/// space-separated command list passes the same rule).
pub open spec fn valid_name_char(c: char) -> bool {
    let n = c as u32;
    (97 <= n && n <= 122)  // 'a' ..= 'z'
    || (65 <= n && n <= 90)  // 'A' ..= 'Z'
    || (48 <= n && n <= 57)  // '0' ..= '9'
    || n == 45  // '-'
    || n == 95  // '_'
    || n == 32  // ' '
}

/// A valid identifier: non-empty, made of identifier characters only.
pub open spec fn valid_name(s: Seq<char>) -> bool {
    s.len() > 0 && forall|i: int| 0 <= i < s.len() ==> valid_name_char(s[i])
}

fn is_valid_name_char(c: char) -> (b: bool)
    ensures
        b == valid_name_char(c),
{
    let n = c as u32;
    (97 <= n && n <= 122) || (65 <= n && n <= 90) || (48 <= n && n <= 57) || n == 45 || n == 95
        || n == 32
}

/// Whether every character of `s` is an identifier character; `s` may be empty.
pub fn all_name_chars(s: &str) -> (b: bool)
    ensures
        b == forall|i: int| 0 <= i < s@.len() ==> valid_name_char(s@[i]),
{
    let len = s.unicode_len();
    let mut i: usize = 0;
    while i < len
        invariant
            len == s@.len(),
            0 <= i <= len,
            forall|j: int| 0 <= j < i ==> valid_name_char(s@[j]),
        decreases len - i,
    {
        let c = s.get_char(i);
        if !is_valid_name_char(c) {
            return false;
        }
        i = i + 1;
    }
    true
}

/// Character-for-character string equality.
pub fn str_eq(a: &str, b: &str) -> (r: bool)
    ensures
        r == (a@ == b@),
{
    let alen = a.unicode_len();
    let blen = b.unicode_len();
    if alen != blen {
        return false;
    }
    let mut i: usize = 0;
    while i < alen
        invariant
            alen == a@.len(),
            alen == b@.len(),
            0 <= i <= alen,
            forall|j: int| 0 <= j < i ==> a@[j] == b@[j],
        decreases alen - i,
    {
        if a.get_char(i) != b.get_char(i) {
            return false;
        }
        i = i + 1;
    }
    proof {
        assert(a@ =~= b@);
    }
    true
}

/// Whether `pat` occurs in `text` starting at index `i`.
pub open spec fn occurs_at(text: Seq<char>, pat: Seq<char>, i: int) -> bool {
    0 <= i && i + pat.len() <= text.len() && text.subrange(i, i + pat.len()) == pat
}

/// Whether `pat` occurs anywhere in `text`.
pub open spec fn contains_seq(text: Seq<char>, pat: Seq<char>) -> bool {
    exists|i: int| occurs_at(text, pat, i)
}

/// Substring search with an exact contract.
pub fn str_contains(text: &str, pat: &str) -> (r: bool)
    ensures
        r == contains_seq(text@, pat@),
{
    let tlen = text.unicode_len();
    let plen = pat.unicode_len();
    if plen > tlen {
        assert(forall|i: int| !occurs_at(text@, pat@, i));
        return false;
    }
    if plen == 0 {
        proof {
            assert(text@.subrange(0, 0) =~= pat@);
            assert(occurs_at(text@, pat@, 0));
        }
        return true;
    }
    let limit = tlen - plen;
    let mut i: usize = 0;
    while i <= limit
        invariant
            tlen == text@.len(),
            plen == pat@.len(),
            1 <= plen <= tlen,
            limit == tlen - plen,
            0 <= i <= limit + 1,
            forall|k: int| 0 <= k < i ==> !occurs_at(text@, pat@, k),
        decreases limit + 1 - i,
    {
        let mut j: usize = 0;
        let mut mismatch = false;
        while j < plen
            invariant
                tlen == text@.len(),
                plen == pat@.len(),
                i + plen <= tlen,
                0 <= j <= plen,
                !mismatch ==> forall|l: int| 0 <= l < j ==> text@[i + l] == pat@[l],
                mismatch ==> text@.subrange(i as int, i + plen) != pat@,
            decreases plen - j,
        {
            if text.get_char(i + j) != pat.get_char(j) {
                proof {
                    assert(text@.subrange(i as int, i + plen)[j as int] == text@[i + j]);
                }
                mismatch = true;
                j = plen;
            } else {
                j = j + 1;
            }
        }
        if !mismatch {
            proof {
                assert(text@.subrange(i as int, i + plen) =~= pat@);
                assert(occurs_at(text@, pat@, i as int));
            }
            return true;
        }
        i = i + 1;
    }
    proof {
        assert forall|k: int| !occurs_at(text@, pat@, k) by {
            if 0 <= k && k + pat@.len() <= text@.len() {
                assert(k < i);
            }
        }
    }
    false
}

/// Whether `s` ends with `suffix`.
pub open spec fn ends_with(s: Seq<char>, suffix: Seq<char>) -> bool {
    s.len() >= suffix.len() && s.subrange(s.len() - suffix.len(), s.len() as int) == suffix
}

/// Suffix test with an exact contract.
pub fn str_ends_with(s: &str, suffix: &str) -> (r: bool)
    ensures
        r == ends_with(s@, suffix@),
{
    let slen = s.unicode_len();
    let xlen = suffix.unicode_len();
    if xlen > slen {
        return false;
    }
    let start = slen - xlen;
    let mut j: usize = 0;
    while j < xlen
        invariant
            slen == s@.len(),
            xlen == suffix@.len(),
            xlen <= slen,
            start == slen - xlen,
            0 <= j <= xlen,
            forall|l: int| 0 <= l < j ==> s@[start + l] == suffix@[l],
        decreases xlen - j,
    {
        if s.get_char(start + j) != suffix.get_char(j) {
            proof {
                assert(s@.subrange(start as int, slen as int)[j as int] == s@[start + j]);
            }
            return false;
        }
        j = j + 1;
    }
    proof {
        assert(s@.subrange(start as int, slen as int) =~= suffix@);
    }
    true
}

/// The part of `s` after the last occurrence of `c`, or all of `s` when `c`
/// does not occur.
pub open spec fn after_last(s: Seq<char>, c: char) -> Seq<char>
    decreases s.len(),
{
    if s.len() == 0 {
        s
    } else if s[s.len() - 1] == c {
        Seq::empty()
    } else {
        after_last(s.drop_last(), c).push(s[s.len() - 1])
    }
}

proof fn lemma_after_last_found(s: Seq<char>, c: char, j: int)
    requires
        0 <= j < s.len(),
        s[j] == c,
        forall|k: int| j < k < s.len() ==> s[k] != c,
    ensures
        after_last(s, c) == s.subrange(j + 1, s.len() as int),
    decreases s.len(),
{
    if j == s.len() - 1 {
        assert(after_last(s, c) =~= s.subrange(j + 1, s.len() as int));
    } else {
        lemma_after_last_found(s.drop_last(), c, j);
        assert(after_last(s, c) =~= s.subrange(j + 1, s.len() as int));
    }
}

proof fn lemma_after_last_absent(s: Seq<char>, c: char)
    requires
        forall|k: int| 0 <= k < s.len() ==> s[k] != c,
    ensures
        after_last(s, c) == s,
    decreases s.len(),
{
    if s.len() > 0 {
        lemma_after_last_absent(s.drop_last(), c);
        assert(after_last(s, c) =~= s);
    }
}

/// Splits off everything up to and including the last occurrence of `c`.
pub fn split_after_last(s: &str, c: char) -> (r: String)
    ensures
        r@ == after_last(s@, c),
{
    let len = s.unicode_len();
    let mut i: usize = len;
    while i > 0
        invariant
            len == s@.len(),
            0 <= i <= len,
            forall|k: int| i <= k < len ==> s@[k] != c,
        decreases i,
    {
        let ch = s.get_char(i - 1);
        if ch == c {
            let r = s.substring_char(i, len).to_owned();
            proof {
                lemma_after_last_found(s@, c, i - 1);
            }
            return r;
        }
        i = i - 1;
    }
    proof {
        lemma_after_last_absent(s@, c);
    }
    s.to_owned()
}

} // verus!

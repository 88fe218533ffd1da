//! Character-level helpers over `&str` values: comparison, splitting on a
//! separator, path joining and decimal numerals.
use vstd::prelude::*;

verus! {

/// Index of the last occurrence of `sep` in `s`, or -1 when there is none.
pub open spec fn last_index_of(s: Seq<char>, sep: char) -> int
    decreases s.len(),
{
    if s.len() == 0 {
        -1
    } else if s.last() == sep {
        s.len() - 1
    } else {
        last_index_of(s.drop_last(), sep)
    }
}

/// What follows the last `sep` in `s` (all of `s` when `sep` does not occur).
pub open spec fn last_segment(s: Seq<char>, sep: char) -> Seq<char> {
    s.subrange(last_index_of(s, sep) + 1, s.len() as int)
}

/// `part` placed under the directory `dir`, with `/` between them. An absolute
/// `part` stands for itself, and an empty `dir` adds nothing.
pub open spec fn joined(dir: Seq<char>, part: Seq<char>) -> Seq<char> {
    if part.len() > 0 && part[0] == '/' {
        part
    } else if dir.len() == 0 {
        part
    } else if dir.last() == '/' {
        dir + part
    } else {
        dir + seq!['/'] + part
    }
}

pub open spec fn digit_char(d: int) -> char {
    seq!['0', '1', '2', '3', '4', '5', '6', '7', '8', '9'][d]
}

/// The decimal numeral of `n`, without leading zeros.
pub open spec fn decimal(n: nat) -> Seq<char>
    decreases n,
{
    if n < 10 {
        seq![digit_char(n as int)]
    } else {
        decimal(n / 10).push(digit_char((n % 10) as int))
    }
}

pub open spec fn is_digit(c: char) -> bool {
    '0' <= c && c <= '9'
}

pub open spec fn all_digits(s: Seq<char>) -> bool {
    forall|i: int| 0 <= i < s.len() ==> is_digit(#[trigger] s[i])
}

/// The value of a string of decimal digits.
pub open spec fn numeral_value(s: Seq<char>) -> nat
    decreases s.len(),
{
    if s.len() == 0 {
        0
    } else {
        numeral_value(s.drop_last()) * 10 + ((s.last() as u32 - '0' as u32) as nat)
    }
}

/// Whether `a` and `b` hold the same characters.
pub fn same_text(a: &str, b: &str) -> (r: bool)
    ensures
        r == (a@ == b@),
{
    let n = a.unicode_len();
    let m = b.unicode_len();
    if n != m {
        return false;
    }
    let mut i: usize = 0;
    while i < n
        invariant
            n == a@.len(),
            n == b@.len(),
            i <= n,
            forall|j: int| 0 <= j < i ==> a@[j] == b@[j],
        decreases n - i,
    {
        if a.get_char(i) != b.get_char(i) {
            return false;
        }
        i += 1;
    }
    assert(a@ =~= b@);
    true
}

proof fn lemma_last_index_of(s: Seq<char>, sep: char, k: int)
    requires
        -1 <= k < s.len(),
        k >= 0 ==> s[k] == sep,
        forall|j: int| k < j < s.len() ==> s[j] != sep,
    ensures
        last_index_of(s, sep) == k,
    decreases s.len(),
{
    if s.len() > 0 && s.last() != sep {
        assert forall|j: int| k < j < s.drop_last().len() implies s.drop_last()[j] != sep by {
            assert(s.drop_last()[j] == s[j]);
        }
        lemma_last_index_of(s.drop_last(), sep, k);
    }
}

/// The part of `s` after its last `sep`.
pub fn last_segment_of(s: &str, sep: char) -> (r: &str)
    ensures
        r@ == last_segment(s@, sep),
{
    let n = s.unicode_len();
    let mut i: usize = n;
    let mut found = false;
    while i > 0 && !found
        invariant
            n == s@.len(),
            i <= n,
            found ==> i > 0 && s@[i - 1] == sep,
            forall|j: int| i <= j < n ==> s@[j] != sep,
        decreases i + (if found { 0int } else { 1int }),
    {
        if s.get_char(i - 1) == sep {
            found = true;
        } else {
            i -= 1;
        }
    }
    proof {
        lemma_last_index_of(s@, sep, i - 1);
    }
    s.substring_char(i, n)
}

/// Joins `part` under `dir` as [`joined`] describes.
pub fn join_path(dir: &str, part: &str) -> (r: String)
    ensures
        r@ == joined(dir@, part@),
{
    let plen = part.unicode_len();
    let dlen = dir.unicode_len();
    if plen > 0 && part.get_char(0) == '/' {
        return String::from_str(part);
    }
    if dlen == 0 {
        return String::from_str(part);
    }
    let mut r = String::from_str(dir);
    if dir.get_char(dlen - 1) != '/' {
        let slash = "/";
        proof {
            reveal_strlit("/");
        }
        r.append(slash);
    }
    r.append(part);
    r
}

/// Appends the decimal numeral of `n` to `out`.
pub fn append_decimal(out: &mut String, n: u64)
    ensures
        final(out)@ == old(out)@ + decimal(n as nat),
    decreases n,
{
    let digits = "0123456789";
    proof {
        reveal_strlit("0123456789");
    }
    if n >= 10 {
        append_decimal(out, n / 10);
    }
    let d = (n % 10) as usize;
    let c = digits.substring_char(d, d + 1);
    assert(c@ =~= seq![digit_char(d as int)]);
    out.append(c);
    assert(out@ =~= old(out)@ + decimal(n as nat));
}

/// The value of `s` when it is a non-empty string of decimal digits whose value
/// fits in a `u64`; `None` otherwise.
pub fn parse_decimal(s: &str) -> (r: Option<u64>)
    ensures
        r matches Some(v) ==> s@.len() > 0 && all_digits(s@) && v as nat == numeral_value(s@),
        r is None ==> s@.len() == 0 || !all_digits(s@) || numeral_value(s@) > u64::MAX,
{
    let n = s.unicode_len();
    if n == 0 {
        return None;
    }
    let mut v: u64 = 0;
    let mut i: usize = 0;
    while i < n
        invariant
            n == s@.len(),
            i <= n,
            all_digits(s@.subrange(0, i as int)),
            v as nat == numeral_value(s@.subrange(0, i as int)),
        decreases n - i,
    {
        let c = s.get_char(i);
        assert(s@.subrange(0, i + 1).drop_last() =~= s@.subrange(0, i as int));
        if c < '0' || c > '9' {
            assert(!is_digit(s@[i as int]));
            proof {
                lemma_digits_prefix(s@, i as int + 1);
            }
            return None;
        }
        let d = (c as u32 - '0' as u32) as u64;
        assert(s@.subrange(0, i + 1).last() == c);
        if v > (u64::MAX - d) / 10 {
            proof {
                if all_digits(s@) {
                    lemma_numeral_monotone(s@, i as int + 1);
                }
            }
            return None;
        }
        v = v * 10 + d;
        i += 1;
    }
    assert(s@.subrange(0, n as int) =~= s@);
    Some(v)
}

proof fn lemma_digits_prefix(s: Seq<char>, k: int)
    requires
        0 < k <= s.len(),
        !is_digit(s[k - 1]),
    ensures
        !all_digits(s),
{
    assert(!is_digit(s[k - 1]));
}

/// A numeral is at least the value of any of its prefixes.
proof fn lemma_numeral_monotone(s: Seq<char>, k: int)
    requires
        0 <= k <= s.len(),
        all_digits(s),
    ensures
        numeral_value(s.subrange(0, k)) <= numeral_value(s),
    decreases s.len() - k,
{
    if k < s.len() {
        lemma_numeral_monotone(s, k + 1);
        let p = s.subrange(0, k + 1);
        assert(p.drop_last() =~= s.subrange(0, k));
        assert(is_digit(s[k]));
    }
    assert(s.subrange(0, s.len() as int) =~= s);
}

} // verus!

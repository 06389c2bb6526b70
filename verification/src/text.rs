//! Case-sensitive substring search over the characters of a string, and
//! reading and writing unsigned decimal numerals.

use vstd::prelude::*;
use vstd::string::StrSliceExecFns;
use vstd::string::StringExecFns;

verus! {

/// `p` occurs in `t` starting at character position `i`.
pub open spec fn matches_at(t: Seq<char>, p: Seq<char>, i: int) -> bool {
    0 <= i && i + p.len() <= t.len() && t.subrange(i, i + p.len() as int) == p
}

/// `p` is a literal, case-sensitive substring of `t`.
pub open spec fn is_substring_of(p: Seq<char>, t: Seq<char>) -> bool {
    exists|i: int| matches_at(t, p, i)
}

/// The empty string is a substring of every string.
pub proof fn lemma_empty_is_substring(t: Seq<char>)
    ensures
        is_substring_of(Seq::<char>::empty(), t),
{
    assert(t.subrange(0, 0) =~= Seq::<char>::empty());
    assert(matches_at(t, Seq::<char>::empty(), 0));
}

fn match_at(t: &str, p: &str, i: usize, tlen: usize, plen: usize) -> (b: bool)
    requires
        tlen == t@.len(),
        plen == p@.len(),
        i + plen <= tlen,
    ensures
        b == matches_at(t@, p@, i as int),
{
    let mut j: usize = 0;
    while j < plen
        invariant
            j <= plen,
            tlen == t@.len(),
            plen == p@.len(),
            i + plen <= tlen,
            forall|k: int| 0 <= k < j ==> t@[i + k] == p@[k],
        decreases plen - j,
    {
        if t.get_char(i + j) != p.get_char(j) {
            proof {
                if t@.subrange(i as int, i + plen) == p@ {
                    assert(t@.subrange(i as int, i + plen)[j as int] == t@[i + j]);
                }
            }
            return false;
        }
        j += 1;
    }
    proof {
        assert(t@.subrange(i as int, i + plen) =~= p@);
    }
    true
}

/// Does `t` contain `p` as a literal, case-sensitive substring?
pub fn contains_substring(t: &str, p: &str) -> (b: bool)
    ensures
        b == is_substring_of(p@, t@),
{
    let tlen = t.unicode_len();
    let plen = p.unicode_len();
    if plen > tlen {
        proof {
            assert(forall|i: int| !matches_at(t@, p@, i));
        }
        return false;
    }
    let last = tlen - plen;
    let mut i: usize = 0;
    loop
        invariant
            plen <= tlen,
            tlen == t@.len(),
            plen == p@.len(),
            last == tlen - plen,
            i <= last,
            forall|k: int| 0 <= k < i ==> !matches_at(t@, p@, k),
        decreases last - i,
    {
        if match_at(t, p, i, tlen, plen) {
            return true;
        }
        if i == last {
            proof {
                assert(forall|k: int| !(#[trigger] matches_at(t@, p@, k)));
            }
            return false;
        }
        i += 1;
    }
}

/// A decimal digit.
pub open spec fn is_digit(c: char) -> bool {
    48 <= c as int && c as int <= 57
}

/// The value of a decimal digit.
pub open spec fn digit_val(c: char) -> int {
    c as int - 48
}

pub open spec fn all_digits(s: Seq<char>) -> bool {
    forall|i: int| 0 <= i < s.len() ==> is_digit(s[i])
}

/// The value of a string of decimal digits, most significant first.
pub open spec fn dec_value(s: Seq<char>) -> int
    decreases s.len(),
{
    if s.len() == 0 {
        0
    } else {
        dec_value(s.drop_last()) * 10 + digit_val(s.last())
    }
}

/// The digits of a decimal numeral, after at most one leading `+`.
pub open spec fn digits_of(s: Seq<char>) -> Seq<char> {
    if s.len() > 0 && s[0] == '+' {
        s.subrange(1, s.len() as int)
    } else {
        s
    }
}

/// What `str::parse::<u64>` accepts: at most one leading `+`, then one or
/// more decimal digits, with a value that fits in a `u64`.
pub open spec fn spec_parse_u64(s: Seq<char>) -> Option<u64> {
    let d = digits_of(s);
    if d.len() > 0 && all_digits(d) && dec_value(d) <= u64::MAX {
        Some(dec_value(d) as u64)
    } else {
        None
    }
}

proof fn lemma_dec_value_nonneg(s: Seq<char>)
    requires
        all_digits(s),
    ensures
        dec_value(s) >= 0,
    decreases s.len(),
{
    if s.len() > 0 {
        assert(all_digits(s.drop_last()));
        lemma_dec_value_nonneg(s.drop_last());
        assert(is_digit(s.last()));
    }
}

/// A prefix of a digit string never has a larger value than the whole.
proof fn lemma_dec_value_prefix(s: Seq<char>, j: int)
    requires
        all_digits(s),
        0 <= j <= s.len(),
    ensures
        dec_value(s.take(j)) <= dec_value(s),
    decreases s.len() - j,
{
    if j == s.len() {
        assert(s.take(j) =~= s);
    } else {
        assert(s.take(j + 1).drop_last() =~= s.take(j));
        assert(s.take(j + 1).last() == s[j]);
        assert(all_digits(s.take(j)));
        lemma_dec_value_nonneg(s.take(j));
        assert(is_digit(s[j]));
        assert(dec_value(s.take(j)) <= dec_value(s.take(j + 1)));
        lemma_dec_value_prefix(s, j + 1);
    }
}

/// Parses an unsigned decimal numeral the way `str::parse::<u64>` reads it:
/// at most one leading `+`, then decimal digits; `None` on anything else or
/// on a value out of range.
pub fn parse_u64(s: &str) -> (r: Option<u64>)
    ensures
        r == spec_parse_u64(s@),
{
    let len = s.unicode_len();
    let mut start: usize = 0;
    if len > 0 && s.get_char(0) == '+' {
        start = 1;
    }
    let ghost d = digits_of(s@);
    proof {
        assert(d =~= s@.subrange(start as int, len as int));
    }
    if start >= len {
        return None;
    }
    let mut acc: u64 = 0;
    let mut i: usize = start;
    while i < len
        invariant
            start <= i <= len,
            len == s@.len(),
            start < len,
            d =~= s@.subrange(start as int, len as int),
            d == digits_of(s@),
            all_digits(d.take(i - start)),
            acc == dec_value(d.take(i - start)),
        decreases len - i,
    {
        let c = s.get_char(i);
        let cu = c as u32;
        proof {
            assert(d[i - start] == s@[i as int]);
        }
        if !(48 <= cu && cu <= 57) {
            proof {
                assert(!is_digit(d[i - start]));
                assert(!all_digits(d));
            }
            return None;
        }
        let dv: u64 = (cu - 48) as u64;
        proof {
            assert(d.take(i - start + 1).drop_last() =~= d.take(i - start));
            assert(d.take(i - start + 1).last() == d[i - start]);
            assert(digit_val(d[i - start]) == dv);
            assert(all_digits(d.take(i - start + 1)));
        }
        let m = match acc.checked_mul(10) {
            Some(m) => m,
            None => {
                proof {
                    if all_digits(d) {
                        assert(dec_value(d.take(i - start + 1)) > u64::MAX);
                        lemma_dec_value_prefix(d, i - start + 1);
                    }
                }
                return None;
            },
        };
        acc = match m.checked_add(dv) {
            Some(v) => v,
            None => {
                proof {
                    if all_digits(d) {
                        assert(dec_value(d.take(i - start + 1)) > u64::MAX);
                        lemma_dec_value_prefix(d, i - start + 1);
                    }
                }
                return None;
            },
        };
        i += 1;
    }
    proof {
        assert(d.take(i - start) =~= d);
    }
    Some(acc)
}

/// The character of a decimal digit.
pub open spec fn digit_char(d: int) -> char {
    if d == 0 {
        '0'
    } else if d == 1 {
        '1'
    } else if d == 2 {
        '2'
    } else if d == 3 {
        '3'
    } else if d == 4 {
        '4'
    } else if d == 5 {
        '5'
    } else if d == 6 {
        '6'
    } else if d == 7 {
        '7'
    } else if d == 8 {
        '8'
    } else {
        '9'
    }
}

/// The decimal numeral of `n`, most significant digit first, with no sign
/// and no leading zero.
pub open spec fn spec_numeral(n: int) -> Seq<char>
    decreases n,
{
    if n < 10 {
        seq![digit_char(n)]
    } else {
        spec_numeral(n / 10).push(digit_char(n % 10))
    }
}

fn digit_str(v: u64) -> (s: &'static str)
    requires
        v < 10,
    ensures
        s@.len() == 1,
        is_digit(s@[0]),
        digit_val(s@[0]) == v,
        s@[0] == digit_char(v as int),
{
    proof {
        reveal_strlit("0");
        reveal_strlit("1");
        reveal_strlit("2");
        reveal_strlit("3");
        reveal_strlit("4");
        reveal_strlit("5");
        reveal_strlit("6");
        reveal_strlit("7");
        reveal_strlit("8");
        reveal_strlit("9");
    }
    match v {
        0 => "0",
        1 => "1",
        2 => "2",
        3 => "3",
        4 => "4",
        5 => "5",
        6 => "6",
        7 => "7",
        8 => "8",
        _ => "9",
    }
}

/// Writes `n` as its decimal numeral, most significant digit first.
pub fn u64_to_string(n: u64) -> (s: String)
    ensures
        s@.len() >= 1,
        all_digits(s@),
        dec_value(s@) == n,
        s@ == spec_numeral(n as int),
    decreases n,
{
    if n < 10 {
        let s = digit_str(n).to_owned();
        proof {
            assert(s@.last() == s@[0]);
            assert(s@.drop_last() =~= Seq::<char>::empty());
            assert(dec_value(s@.drop_last()) == 0);
            assert(dec_value(s@) == digit_val(s@[0]));
            assert(s@ =~= spec_numeral(n as int));
        }
        s
    } else {
        let q = n / 10;
        let r = n % 10;
        proof {
            assert(n == q * 10 + r);
            assert(q < n);
        }
        let mut s = u64_to_string(q);
        let ghost prefix = s@;
        let d = digit_str(r);
        s.append(d);
        proof {
            assert(s@.len() == prefix.len() + 1);
            assert(s@.drop_last() =~= prefix);
            assert(s@.last() == d@[0]);
            assert(dec_value(s@) == dec_value(prefix) * 10 + digit_val(d@[0]));
            assert(forall|k: int| 0 <= k < prefix.len() ==> s@[k] == prefix[k]);
            assert(all_digits(s@));
            assert(s@ =~= prefix.push(digit_char(r as int)));
            assert(s@ =~= spec_numeral(n as int));
        }
        s
    }
}

/// Writing an ID as a numeral and parsing the numeral back yields the ID:
/// any string of digits whose value is `n` parses to `n`.
pub proof fn lemma_parse_numeral(s: Seq<char>, n: u64)
    requires
        s.len() > 0,
        all_digits(s),
        dec_value(s) == n,
    ensures
        spec_parse_u64(s) == Some(n),
{
    assert(is_digit(s[0]));
    assert(s[0] != '+');
    assert(digits_of(s) == s);
}

} // verus!

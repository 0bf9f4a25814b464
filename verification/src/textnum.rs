//! Decimal rendering and parsing of integers, for building and reading the
//! textual formats the scheduler works with.

use vstd::prelude::*;

verus! {

use vstd::string::StrSliceExecFns;

/// The character of a decimal digit.
pub open spec fn digit_char(d: int) -> char {
    ((48 + d) as u8) as char
}

/// The decimal digits of a nonnegative number, most significant first.
pub open spec fn dec_digits(n: int) -> Seq<char>
    decreases n,
{
    if n < 10 {
        seq![digit_char(if n < 0 { 0 } else { n })]
    } else {
        dec_digits(n / 10).push(digit_char(n % 10))
    }
}

/// The decimal rendering of a signed number.
pub open spec fn spec_i64_string(n: int) -> Seq<char> {
    if n >= 0 {
        dec_digits(n)
    } else {
        seq!['-'] + dec_digits(-n)
    }
}

/// Whether every character of `s` is a decimal digit.
pub open spec fn all_digits(s: Seq<char>) -> bool {
    forall|i: int| 0 <= i < s.len() ==> '0' <= #[trigger] s[i] <= '9'
}

/// The value of a sequence of decimal digits.
pub open spec fn dec_value(s: Seq<char>) -> int
    decreases s.len(),
{
    if s.len() == 0 {
        0
    } else {
        dec_value(s.drop_last()) * 10 + (s.last() as int - 48)
    }
}

/// Relies on String::push: appends exactly one character.
#[verifier::external_body]
pub(crate) fn push_char(s: &mut String, c: char)
    ensures
        final(s)@ == old(s)@.push(c),
{
    s.push(c);
}

/// Append the decimal digits of `n`.
fn push_dec_digits(n: u64, out: &mut String)
    ensures
        final(out)@ == old(out)@ + dec_digits(n as int),
    decreases n,
{
    if n < 10 {
        let d = (n as u8) + 48;
        push_char(out, d as char);
        proof {
            assert(old(out)@.push(digit_char(n as int)) =~= old(out)@ + dec_digits(n as int));
        }
    } else {
        push_dec_digits(n / 10, out);
        let d = ((n % 10) as u8) + 48;
        push_char(out, d as char);
        proof {
            assert((old(out)@ + dec_digits(n as int / 10)).push(digit_char(n as int % 10))
                =~= old(out)@ + dec_digits(n as int));
        }
    }
}

/// The decimal rendering of `n`.
pub fn i64_to_string(n: i64) -> (r: String)
    ensures
        r@ == spec_i64_string(n as int),
{
    let mut out = String::new();
    if n >= 0 {
        push_dec_digits(n as u64, &mut out);
        proof {
            assert(Seq::<char>::empty() + dec_digits(n as int) =~= dec_digits(n as int));
        }
    } else {
        push_char(&mut out, '-');
        let m: u64 = ((-(n + 1)) as u64) + 1;
        push_dec_digits(m, &mut out);
        proof {
            assert(m as int == -(n as int));
            assert(Seq::<char>::empty().push('-') + dec_digits(m as int) =~= seq!['-']
                + dec_digits(-(n as int)));
        }
    }
    out
}

/// The value of a digit sequence is never negative.
proof fn lemma_dec_value_nonneg(s: Seq<char>)
    requires
        all_digits(s),
    ensures
        dec_value(s) >= 0,
    decreases s.len(),
{
    if s.len() > 0 {
        assert(all_digits(s.drop_last())) by {
            assert(forall|i: int|
                0 <= i < s.len() - 1 ==> s.drop_last()[i] == #[trigger] s[i]);
        }
        lemma_dec_value_nonneg(s.drop_last());
    }
}

/// A prefix of a digit sequence never has a larger value than the whole.
proof fn lemma_dec_value_prefix(s: Seq<char>, j: int)
    requires
        all_digits(s),
        0 <= j <= s.len(),
    ensures
        dec_value(s.take(j)) <= dec_value(s),
    decreases s.len() - j,
{
    if j == s.len() {
        assert(s.take(j) =~= s);
    } else {
        lemma_dec_value_prefix(s, j + 1);
        let t = s.take(j + 1);
        assert(t.drop_last() =~= s.take(j));
        assert(t.last() == s[j]);
        assert(all_digits(s.take(j))) by {
            assert(forall|i: int| 0 <= i < j ==> s.take(j)[i] == #[trigger] s[i]);
        }
        lemma_dec_value_nonneg(s.take(j));
        assert(dec_value(t) == dec_value(s.take(j)) * 10 + (s[j] as int - 48));
        assert(dec_value(s.take(j)) * 10 >= dec_value(s.take(j)));
    }
}

/// Parse a sequence of decimal digits. Returns the value exactly when the
/// string is nonempty, all digits, and the value fits in an `i64`.
#[verifier::loop_isolation(false)]
pub fn parse_i64(s: &str) -> (r: Option<i64>)
    ensures
        match r {
            Some(v) => {
                &&& s@.len() > 0
                &&& all_digits(s@)
                &&& v as int == dec_value(s@)
            },
            None => s@.len() == 0 || !all_digits(s@) || dec_value(s@) > i64::MAX,
        },
        r is Some <==> (s@.len() > 0 && all_digits(s@) && dec_value(s@) <= i64::MAX),
{
    let n = s.unicode_len();
    if n == 0 {
        return None;
    }
    let mut acc: i64 = 0;
    let mut i: usize = 0;
    proof {
        assert(s@.take(0) =~= Seq::<char>::empty());
    }
    while i < n
        invariant
            i <= n,
            all_digits(s@.take(i as int)),
            acc as int == dec_value(s@.take(i as int)),
            acc >= 0,
        decreases n - i,
    {
        let c = s.get_char(i);
        proof {
            assert(s@.take(i as int + 1).drop_last() =~= s@.take(i as int));
            assert(s@.take(i as int + 1).last() == s@[i as int]);
        }
        if !('0' <= c && c <= '9') {
            proof {
                assert(!all_digits(s@));
            }
            return None;
        }
        proof {
            assert(all_digits(s@.take(i as int + 1))) by {
                assert(forall|k: int|
                    0 <= k < i as int ==> s@.take(i as int + 1)[k] == #[trigger] s@.take(
                        i as int,
                    )[k]);
                assert(s@.take(i as int + 1)[i as int] == s@[i as int]);
            }
        }
        let d = (c as u8) - 48;
        if acc > (i64::MAX - (d as i64)) / 10 {
            proof {
                assert(acc as int * 10 + d as int > i64::MAX);
                assert(dec_value(s@.take(i as int + 1)) > i64::MAX);
                if all_digits(s@) {
                    lemma_dec_value_prefix(s@, i as int + 1);
                }
            }
            return None;
        }
        proof {
            assert(acc as int * 10 <= i64::MAX - d as int);
            assert(acc as int * 10 >= 0);
        }
        acc = acc * 10 + (d as i64);
        i = i + 1;
    }
    proof {
        assert(s@.take(n as int) =~= s@);
    }
    Some(acc)
}

/// How many times `c` occurs in `s`.
pub open spec fn char_count(s: Seq<char>, c: char) -> int
    decreases s.len(),
{
    if s.len() == 0 {
        0
    } else {
        char_count(s.drop_last(), c) + if s.last() == c {
            1int
        } else {
            0int
        }
    }
}

/// Split `s` at its single occurrence of `sep`. Succeeds exactly when `sep`
/// occurs exactly once, returning the parts before and after it.
#[verifier::loop_isolation(false)]
pub fn split_once_char(s: &str, sep: char) -> (r: Option<(String, String)>)
    ensures
        match r {
            Some((a, b)) => {
                &&& char_count(s@, sep) == 1
                &&& exists|p: int|
                    0 <= p < s@.len() && #[trigger] s@[p] == sep && a@ == s@.take(p) && b@
                        == s@.subrange(p + 1, s@.len() as int)
            },
            None => char_count(s@, sep) != 1,
        },
        r is Some <==> char_count(s@, sep) == 1,
{
    let n = s.unicode_len();
    let mut i: usize = 0;
    let mut count: usize = 0;
    let mut first: usize = 0;
    let mut seen = false;
    proof {
        assert(s@.take(0) =~= Seq::<char>::empty());
    }
    while i < n
        invariant
            i <= n,
            count <= i,
            count as int == char_count(s@.take(i as int), sep),
            seen <==> count > 0,
            seen ==> first < i && s@[first as int] == sep && char_count(
                s@.take(first as int),
                sep,
            ) == 0,
        decreases n - i,
    {
        let c = s.get_char(i);
        proof {
            assert(s@.take(i as int + 1).drop_last() =~= s@.take(i as int));
            assert(s@.take(i as int + 1).last() == s@[i as int]);
        }
        if c == sep {
            if !seen {
                first = i;
                seen = true;
            }
            count = count + 1;
        }
        i = i + 1;
    }
    proof {
        assert(s@.take(n as int) =~= s@);
    }
    if count != 1 {
        return None;
    }
    let a = s.substring_char(0, first);
    let b = s.substring_char(first + 1, n);
    proof {
        assert(a@ =~= s@.take(first as int));
        assert(s@[first as int] == sep);
    }
    Some((a.to_owned(), b.to_owned()))
}

} // verus!

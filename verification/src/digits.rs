//! Decimal digits: printing an unsigned integer and parsing one back.
//!
//! The client needs the former to splice years and style ids into URL
//! paths; the typed attribute lookup on `Equipment` needs the latter.

use vstd::prelude::*;
use vstd::string::StringExecFns;
use vstd::string::StrSliceExecFns;

verus! {

/// The character for one decimal digit value.
pub open spec fn digit_char(d: int) -> char {
    if d == 0 {
        '0'
    } else if d == 1 {
        '1'
    } else if d == 2 {
        '2'
    } else if d == 3 {
        '3'
    } else if d == 4 {
        '4'
    } else if d == 5 {
        '5'
    } else if d == 6 {
        '6'
    } else if d == 7 {
        '7'
    } else if d == 8 {
        '8'
    } else {
        '9'
    }
}

/// The usual decimal rendering of `n`: no sign, no leading zeros except
/// for zero itself.
pub open spec fn dec_rep(n: nat) -> Seq<char>
    decreases n,
{
    if n < 10 {
        seq![digit_char(n as int)]
    } else {
        dec_rep(n / 10).push(digit_char((n % 10) as int))
    }
}

pub open spec fn is_dec_digit(c: char) -> bool {
    '0' <= c && c <= '9'
}

/// The numeric value of a digit string, most significant digit first.
pub open spec fn dec_val(s: Seq<char>) -> int
    decreases s.len(),
{
    if s.len() == 0 {
        0
    } else {
        dec_val(s.drop_last()) * 10 + (s.last() as int - '0' as int)
    }
}

/// What parsing a whole string as an unsigned decimal number yields:
/// a value only for a non-empty all-digit string whose value fits.
pub open spec fn spec_parse_u64(s: Seq<char>) -> Option<u64> {
    if s.len() > 0 && (forall|k: int| 0 <= k < s.len() ==> is_dec_digit(s[k])) && dec_val(s)
        <= u64::MAX {
        Some(dec_val(s) as u64)
    } else {
        None
    }
}

/// A one-character string slice for a digit value.
fn digit_str(d: u8) -> (r: &'static str)
    requires
        d <= 9,
    ensures
        r@ == seq![digit_char(d as int)],
{
    let r: &'static str = match d {
        0u8 => "0",
        1u8 => "1",
        2u8 => "2",
        3u8 => "3",
        4u8 => "4",
        5u8 => "5",
        6u8 => "6",
        7u8 => "7",
        8u8 => "8",
        _ => "9",
    };
    proof {
        reveal_strlit("0");
        reveal_strlit("1");
        reveal_strlit("2");
        reveal_strlit("3");
        reveal_strlit("4");
        reveal_strlit("5");
        reveal_strlit("6");
        reveal_strlit("7");
        reveal_strlit("8");
        reveal_strlit("9");
        assert(r@ =~= seq![digit_char(d as int)]);
    }
    r
}

/// The digits of the tail of a digit list, least significant first,
/// rendered most significant first.
spec fn rev_chars(ds: Seq<u8>) -> Seq<char>
    decreases ds.len(),
{
    if ds.len() == 0 {
        Seq::empty()
    } else {
        rev_chars(ds.drop_first()) + seq![digit_char(ds.first() as int)]
    }
}

proof fn lemma_rev_chars_push(ds: Seq<u8>, d: u8)
    ensures
        rev_chars(ds.push(d)) == seq![digit_char(d as int)] + rev_chars(ds),
    decreases ds.len(),
{
    if ds.len() == 0 {
        assert(ds.push(d).len() == 1);
        assert(ds.push(d).first() == d);
        assert(ds.push(d).drop_first() =~= Seq::<u8>::empty());
        assert(rev_chars(ds.push(d)) == rev_chars(ds.push(d).drop_first()) + seq![
            digit_char(ds.push(d).first() as int),
        ]);
        assert(rev_chars(Seq::<u8>::empty()) =~= Seq::<char>::empty());
        assert(rev_chars(ds) =~= Seq::<char>::empty());
        assert(rev_chars(ds.push(d)) =~= seq![digit_char(d as int)] + rev_chars(ds));
    } else {
        assert(ds.push(d).drop_first() =~= ds.drop_first().push(d));
        assert(ds.push(d).first() == ds.first());
        lemma_rev_chars_push(ds.drop_first(), d);
        assert(rev_chars(ds.push(d)) =~= seq![digit_char(d as int)] + rev_chars(ds));
    }
}

/// Render `n` in decimal.
pub fn u64_to_dec(n: u64) -> (s: String)
    ensures
        s@ == dec_rep(n as nat),
{
    let mut digits: Vec<u8> = Vec::new();
    let mut m = n;
    loop
        invariant_except_break
            digits@.len() == 0 ==> m == n,
            digits@.len() > 0 ==> m > 0 && dec_rep(n as nat) == dec_rep(m as nat) + rev_chars(
                digits@,
            ),
            forall|k: int| 0 <= k < digits@.len() ==> digits@[k] <= 9,
        ensures
            digits@.len() > 0,
            dec_rep(n as nat) == rev_chars(digits@),
            forall|k: int| 0 <= k < digits@.len() ==> digits@[k] <= 9,
        decreases m,
    {
        let ghost pre_digits = digits@;
        let ghost pre_m = m;
        let d = (m % 10) as u8;
        digits.push(d);
        m = m / 10;
        proof {
            lemma_rev_chars_push(pre_digits, d);
            if pre_digits.len() == 0 {
                if pre_m < 10 {
                    assert(rev_chars(digits@) =~= seq![digit_char(d as int)]);
                } else {
                    assert(dec_rep(pre_m as nat) == dec_rep((pre_m / 10) as nat).push(
                        digit_char((pre_m % 10) as int),
                    ));
                    assert(dec_rep((pre_m / 10) as nat).push(digit_char(d as int)) =~= dec_rep(
                        (pre_m / 10) as nat,
                    ) + seq![digit_char(d as int)]);
                    assert(rev_chars(digits@) =~= seq![digit_char(d as int)] + rev_chars(
                        pre_digits,
                    ));
                    assert(dec_rep(n as nat) =~= dec_rep(m as nat) + rev_chars(digits@));
                }
            } else {
                if pre_m < 10 {
                    assert(dec_rep(pre_m as nat) == seq![digit_char(pre_m as int)]);
                    assert(dec_rep(n as nat) =~= rev_chars(digits@));
                } else {
                    assert(dec_rep(pre_m as nat) == dec_rep((pre_m / 10) as nat).push(
                        digit_char((pre_m % 10) as int),
                    ));
                    assert(dec_rep((pre_m / 10) as nat).push(digit_char(d as int)) =~= dec_rep(
                        (pre_m / 10) as nat,
                    ) + seq![digit_char(d as int)]);
                    assert(dec_rep(n as nat) =~= dec_rep(m as nat) + rev_chars(digits@));
                }
            }
        }
        if m == 0 {
            break;
        }
    }
    let mut s = String::new();
    let mut i = digits.len();
    while i > 0
        invariant
            i <= digits@.len(),
            forall|k: int| 0 <= k < digits@.len() ==> digits@[k] <= 9,
            s@ == rev_chars(digits@.skip(i as int)),
        decreases i,
    {
        i = i - 1;
        let piece = digit_str(digits[i]);
        s.append(piece);
        proof {
            assert(digits@.skip(i as int).drop_first() =~= digits@.skip(i + 1));
            assert(rev_chars(digits@.skip(i as int)) == rev_chars(digits@.skip(i + 1)) + seq![
                digit_char(digits@[i as int] as int),
            ]) by {
                assert(digits@.skip(i as int).first() == digits@[i as int]);
            }
            assert(s@ =~= rev_chars(digits@.skip(i as int)));
        }
    }
    proof {
        assert(digits@.skip(0) =~= digits@);
    }
    s
}

/// Each digit of a digit string contributes non-negatively, so the
/// value of a prefix never exceeds the value of the whole.
proof fn lemma_dec_val_prefix(s: Seq<char>, j: int)
    requires
        0 <= j <= s.len(),
        forall|k: int| 0 <= k < s.len() ==> is_dec_digit(s[k]),
    ensures
        dec_val(s.take(j)) <= dec_val(s),
        dec_val(s) >= 0,
    decreases s.len(),
{
    if s.len() == 0 {
        assert(s.take(j) =~= s);
    } else {
        assert(forall|k: int|
            0 <= k < s.drop_last().len() ==> is_dec_digit(#[trigger] s.drop_last()[k]));
        lemma_dec_val_prefix(s.drop_last(), if j < s.len() {
            j
        } else {
            s.len() - 1
        });
        assert(dec_val(s.drop_last()) * 10 >= dec_val(s.drop_last())) by (nonlinear_arith)
            requires
                dec_val(s.drop_last()) >= 0,
        ;
        assert(is_dec_digit(s.last()));
        if j < s.len() {
            assert(s.take(j) =~= s.drop_last().take(j));
        } else {
            assert(s.take(j) =~= s);
        }
    }
}

/// Parse a whole string as an unsigned decimal number; `None` for an
/// empty string, a non-digit anywhere, or a value beyond `u64::MAX`.
pub fn parse_u64_dec(s: &str) -> (r: Option<u64>)
    ensures
        r == spec_parse_u64(s@),
{
    let len = s.unicode_len();
    if len == 0 {
        return None;
    }
    let mut acc: u64 = 0;
    let mut i: usize = 0;
    proof {
        assert(s@.take(0) =~= Seq::<char>::empty());
    }
    while i < len
        invariant
            i <= len,
            len == s@.len(),
            forall|k: int| 0 <= k < i ==> is_dec_digit(s@[k]),
            acc == dec_val(s@.take(i as int)),
        decreases len - i,
    {
        let c = s.get_char(i);
        if c < '0' || c > '9' {
            return None;
        }
        let d = (c as u32) - ('0' as u32);
        let ghost prefix = s@.take(i as int);
        let ghost next_prefix = s@.take(i + 1);
        proof {
            assert(next_prefix.drop_last() =~= prefix);
            assert(next_prefix.last() == s@[i as int]);
            assert(dec_val(next_prefix) == dec_val(prefix) * 10 + d);
        }
        if acc > 1844674407370955161u64 || (acc == 1844674407370955161u64 && d > 5) {
            proof {
                assert(dec_val(next_prefix) > u64::MAX) by (nonlinear_arith)
                    requires
                        dec_val(next_prefix) == dec_val(prefix) * 10 + d,
                        dec_val(prefix) == acc,
                        acc > 1844674407370955161u64 || (acc == 1844674407370955161u64 && d > 5),
                        d >= 0,
                ;
                if forall|k: int| 0 <= k < s@.len() ==> is_dec_digit(s@[k]) {
                    lemma_dec_val_prefix(s@, i + 1);
                }
            }
            return None;
        }
        proof {
            assert(acc * 10 + d <= u64::MAX) by (nonlinear_arith)
                requires
                    acc <= 1844674407370955161u64,
                    d <= 9,
                    acc < 1844674407370955161u64 || d <= 5,
            ;
        }
        acc = acc * 10 + (d as u64);
        i = i + 1;
    }
    proof {
        assert(s@.take(len as int) =~= s@);
    }
    Some(acc)
}

} // verus!

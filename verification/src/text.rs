//! Decimal text: formatting fixed-point values for the readout overlay
//! and parsing pixel dimensions out of configuration strings.

use vstd::prelude::*;
use vstd::string::StringExecFns;

verus! {

/// The decimal digit character for `d` in 0..=9.
pub open spec fn sp_digit_char(d: int) -> char {
    if d == 0 {
        '0'
    } else if d == 1 {
        '1'
    } else if d == 2 {
        '2'
    } else if d == 3 {
        '3'
    } else if d == 4 {
        '4'
    } else if d == 5 {
        '5'
    } else if d == 6 {
        '6'
    } else if d == 7 {
        '7'
    } else if d == 8 {
        '8'
    } else {
        '9'
    }
}

/// The value of a decimal digit character, -1 when `c` is no digit.
pub open spec fn sp_digit_val(c: char) -> int {
    if c == '0' {
        0
    } else if c == '1' {
        1
    } else if c == '2' {
        2
    } else if c == '3' {
        3
    } else if c == '4' {
        4
    } else if c == '5' {
        5
    } else if c == '6' {
        6
    } else if c == '7' {
        7
    } else if c == '8' {
        8
    } else if c == '9' {
        9
    } else {
        -1
    }
}

/// True when `c` is a decimal digit.
pub open spec fn sp_is_digit(c: char) -> bool {
    sp_digit_val(c) >= 0
}

/// The decimal digits of `n`, most significant first, no leading zeros.
pub open spec fn sp_digits(n: nat) -> Seq<char>
    decreases n,
{
    if n < 10 {
        seq![sp_digit_char(n as int)]
    } else {
        sp_digits(n / 10).push(sp_digit_char((n % 10) as int))
    }
}

/// The last `width` decimal digits of `n`, zero-padded on the left.
pub open spec fn sp_padded_digits(n: nat, width: nat) -> Seq<char>
    decreases width,
{
    if width == 0 {
        Seq::empty()
    } else {
        sp_padded_digits(n / 10, (width - 1) as nat).push(sp_digit_char((n % 10) as int))
    }
}

/// The value of an all-digit character sequence, most significant first.
pub open spec fn sp_int_val(s: Seq<char>) -> int
    decreases s.len(),
{
    if s.len() == 0 {
        0
    } else {
        sp_int_val(s.drop_last()) * 10 + sp_digit_val(s.last())
    }
}

/// True when every character of `s` is a decimal digit.
pub open spec fn sp_all_digits(s: Seq<char>) -> bool {
    forall|i: int| 0 <= i < s.len() ==> sp_is_digit(#[trigger] s[i])
}

/// A fixed-point value printed with five decimal places: the raw value
/// `v` (in millionths) is rounded to the nearest hundred-thousandth,
/// halves up, and printed as integer part, dot, five fraction digits.
pub open spec fn sp_format_fixed5(v: int) -> Seq<char> {
    let q = (v + 5) / 10;
    sp_digits((q / 100_000) as nat) + seq!['.'] + sp_padded_digits((q % 100_000) as nat, 5)
}

/// An all-digit sequence has a non-negative value.
pub proof fn lemma_int_val_nonneg(s: Seq<char>)
    requires
        sp_all_digits(s),
    ensures
        sp_int_val(s) >= 0,
    decreases s.len(),
{
    if s.len() > 0 {
        assert(sp_all_digits(s.drop_last()));
        lemma_int_val_nonneg(s.drop_last());
    }
}

/// Extending an all-digit sequence never shrinks its value: the value
/// of a prefix is a lower bound for the whole.
pub proof fn lemma_int_val_prefix(s: Seq<char>, i: int)
    requires
        sp_all_digits(s),
        0 <= i <= s.len(),
    ensures
        sp_int_val(s.subrange(0, i)) <= sp_int_val(s),
    decreases s.len() - i,
{
    if i < s.len() {
        let t = s.subrange(0, i + 1);
        assert(sp_all_digits(t));
        assert(t.drop_last() =~= s.subrange(0, i));
        lemma_int_val_nonneg(t.drop_last());
        assert(sp_int_val(t) == sp_int_val(s.subrange(0, i)) * 10 + sp_digit_val(s[i]));
        assert(sp_int_val(s.subrange(0, i)) * 10 >= sp_int_val(s.subrange(0, i))) by (nonlinear_arith)
            requires
                sp_int_val(s.subrange(0, i)) >= 0,
        ;
        lemma_int_val_prefix(s, i + 1);
        assert(s.subrange(0, s.len() as int) =~= s);
    } else {
        assert(s.subrange(0, i) =~= s);
    }
}

/// Appends the digit character for `d` to `s`.
fn push_digit_char(d: u64, s: &mut String)
    requires
        d < 10,
    ensures
        final(s)@ == old(s)@.push(sp_digit_char(d as int)),
{
    proof {
        reveal_strlit("0");
        reveal_strlit("1");
        reveal_strlit("2");
        reveal_strlit("3");
        reveal_strlit("4");
        reveal_strlit("5");
        reveal_strlit("6");
        reveal_strlit("7");
        reveal_strlit("8");
        reveal_strlit("9");
    }
    let ghost pre = s@;
    match d {
        0 => s.append("0"),
        1 => s.append("1"),
        2 => s.append("2"),
        3 => s.append("3"),
        4 => s.append("4"),
        5 => s.append("5"),
        6 => s.append("6"),
        7 => s.append("7"),
        8 => s.append("8"),
        _ => s.append("9"),
    }
    proof {
        assert(s@ =~= pre.push(sp_digit_char(d as int)));
    }
}

/// Appends the decimal digits of `n`.
fn push_digits(n: u64, s: &mut String)
    ensures
        final(s)@ == old(s)@ + sp_digits(n as nat),
    decreases n,
{
    let ghost pre = s@;
    if n < 10 {
        push_digit_char(n, s);
        proof {
            assert(s@ =~= pre + sp_digits(n as nat));
        }
    } else {
        push_digits(n / 10, s);
        push_digit_char(n % 10, s);
        proof {
            assert(s@ =~= pre + sp_digits(n as nat));
        }
    }
}

/// Appends the last `width` decimal digits of `n`, zero-padded.
fn push_padded_digits(n: u64, width: u64, s: &mut String)
    ensures
        final(s)@ == old(s)@ + sp_padded_digits(n as nat, width as nat),
    decreases width,
{
    let ghost pre = s@;
    if width > 0 {
        push_padded_digits(n / 10, width - 1, s);
        push_digit_char(n % 10, s);
        proof {
            assert(s@ =~= pre + sp_padded_digits(n as nat, width as nat));
        }
    } else {
        proof {
            assert(s@ =~= pre + sp_padded_digits(n as nat, width as nat));
        }
    }
}

/// The decimal digits of `n` as a string.
pub fn u64_to_string(n: u64) -> (s: String)
    ensures
        s@ == sp_digits(n as nat),
{
    let mut s = String::new();
    push_digits(n, &mut s);
    proof {
        assert(s@ =~= sp_digits(n as nat));
    }
    s
}

/// Formats a non-negative fixed-point value with five decimal places,
/// as the readout overlay shows it.
pub fn format_fixed5(v: i64) -> (s: String)
    requires
        0 <= v <= 1_000_000_000_000,
    ensures
        s@ == sp_format_fixed5(v as int),
{
    let q: i64 = (v + 5) / 10;
    let ip: u64 = (q / 100_000) as u64;
    let fp: u64 = (q % 100_000) as u64;
    let mut s = String::new();
    push_digits(ip, &mut s);
    proof {
        reveal_strlit(".");
    }
    s.append(".");
    push_padded_digits(fp, 5, &mut s);
    proof {
        assert(s@ =~= sp_format_fixed5(v as int));
    }
    s
}

/// Character-wise string equality.
pub fn str_eq(a: &str, b: &str) -> (r: bool)
    ensures
        r == (a@ == b@),
{
    let alen = a.unicode_len();
    let blen = b.unicode_len();
    if alen != blen {
        return false;
    }
    let mut i: usize = 0;
    while i < alen
        invariant
            0 <= i <= alen,
            alen == a@.len(),
            alen == b@.len(),
            forall|k: int| 0 <= k < i ==> a@[k] == b@[k],
        decreases alen - i,
    {
        if a.get_char(i) != b.get_char(i) {
            return false;
        }
        i = i + 1;
    }
    proof {
        assert(a@ =~= b@);
    }
    true
}

/// Parses a whole-pixel dimension: the string must be all decimal
/// digits and denote a value between 1 and 10 000 pixels; the result is
/// that many pixels in fixed point.
pub fn parse_px(s: &str) -> (r: Option<i64>)
    ensures
        r is Some <==> s@.len() > 0 && sp_all_digits(s@) && 1 <= sp_int_val(s@) <= 10_000,
        r matches Some(v) ==> v == sp_int_val(s@) * crate::constants::SCALE,
{
    let len = s.unicode_len();
    if len == 0 {
        return None;
    }
    let mut acc: i64 = 0;
    let mut i: usize = 0;
    while i < len
        invariant
            0 <= i <= len,
            len == s@.len(),
            sp_all_digits(s@.subrange(0, i as int)),
            acc == sp_int_val(s@.subrange(0, i as int)),
            0 <= acc <= 10_000,
        decreases len - i,
    {
        let c = s.get_char(i);
        let d: i64 = match c {
            '0' => 0,
            '1' => 1,
            '2' => 2,
            '3' => 3,
            '4' => 4,
            '5' => 5,
            '6' => 6,
            '7' => 7,
            '8' => 8,
            '9' => 9,
            _ => {
                proof {
                    assert(!sp_is_digit(s@[i as int]));
                }
                return None;
            },
        };
        proof {
            assert(s@.subrange(0, i + 1 as int).drop_last() =~= s@.subrange(0, i as int));
            assert(sp_all_digits(s@.subrange(0, i + 1 as int)));
        }
        acc = acc * 10 + d;
        i = i + 1;
        if acc > 10_000 {
            proof {
                if sp_all_digits(s@) {
                    lemma_int_val_prefix(s@, i as int);
                }
            }
            return None;
        }
    }
    proof {
        assert(s@.subrange(0, len as int) =~= s@);
    }
    if acc == 0 {
        return None;
    }
    Some(acc * crate::constants::SCALE)
}

} // verus!

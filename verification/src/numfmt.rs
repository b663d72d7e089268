use vstd::prelude::*;

use crate::text::push_char;

verus! {

/// The decimal digit character of one digit value.
pub open spec fn digit_char(d: int) -> char {
    if d == 0 {
        '0'
    } else if d == 1 {
        '1'
    } else if d == 2 {
        '2'
    } else if d == 3 {
        '3'
    } else if d == 4 {
        '4'
    } else if d == 5 {
        '5'
    } else if d == 6 {
        '6'
    } else if d == 7 {
        '7'
    } else if d == 8 {
        '8'
    } else {
        '9'
    }
}

/// The decimal digits of a nonnegative integer, most significant
/// first and without leading zeros.
pub open spec fn dec_digits(n: int) -> Seq<char>
    recommends
        0 <= n,
    decreases n,
{
    if n < 10 {
        seq![digit_char(n)]
    } else {
        dec_digits(n / 10).push(digit_char(n % 10))
    }
}

/// The decimal rendering of a signed integer: a leading minus sign for
/// negatives, no leading zeros.
pub open spec fn dec_int(n: int) -> Seq<char> {
    if n < 0 {
        seq!['-'] + dec_digits(-n)
    } else {
        dec_digits(n)
    }
}

fn digit_char_x(d: u32) -> (c: char)
    requires
        d < 10,
    ensures
        c == digit_char(d as int),
{
    match d {
        0 => '0',
        1 => '1',
        2 => '2',
        3 => '3',
        4 => '4',
        5 => '5',
        6 => '6',
        7 => '7',
        8 => '8',
        _ => '9',
    }
}

/// Writes an unsigned integer in decimal.
pub fn u32_string(n: u32) -> (s: String)
    ensures
        s@ == dec_digits(n as int),
{
    let mut digits: Vec<char> = Vec::new();
    let mut m = n;
    proof {
        assert(dec_digits(n as int) =~= dec_digits(n as int) + digits@.reverse());
    }
    loop
        invariant_except_break
            dec_digits(n as int) == dec_digits(m as int) + digits@.reverse(),
        ensures
            dec_digits(n as int) == digits@.reverse(),
        decreases m,
    {
        let d = m % 10;
        let ghost digits0 = digits@;
        digits.push(digit_char_x(d));
        proof {
            assert(digits@.reverse() =~= seq![digit_char(d as int)] + digits0.reverse());
        }
        if m < 10 {
            proof {
                assert(dec_digits(m as int) == seq![digit_char(d as int)]);
                assert(dec_digits(n as int) =~= digits@.reverse());
            }
            break ;
        }
        m = m / 10;
        proof {
            assert(dec_digits(n as int) =~= dec_digits(m as int) + digits@.reverse());
        }
    }
    let mut s = String::new();
    let k = digits.len();
    let mut j: usize = 0;
    while j < k
        invariant
            k == digits@.len(),
            j <= k,
            s@ =~= digits@.reverse().take(j as int),
            dec_digits(n as int) == digits@.reverse(),
        decreases k - j,
    {
        push_char(&mut s, digits[k - 1 - j]);
        proof {
            assert(s@ =~= digits@.reverse().take(j + 1));
        }
        j += 1;
    }
    proof {
        assert(s@ =~= digits@.reverse());
    }
    s
}

/// Writes a signed integer in decimal, with a leading minus sign for
/// negatives.
pub fn i32_string(n: i32) -> (s: String)
    ensures
        s@ == dec_int(n as int),
{
    if n >= 0 {
        u32_string(n as u32)
    } else {
        let mag: u32 = (-(n as i64)) as u32;
        let mut s = String::from_str("-");
        let rest = u32_string(mag);
        s.append(rest.as_str());
        proof {
            reveal_strlit("-");
            assert(s@ =~= seq!['-'] + dec_digits(-(n as int)));
        }
        s
    }
}

} // verus!

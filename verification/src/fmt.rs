//! Verified construction of the small pieces of display text the widgets
//! need: decimal numbers, zero-padded fields and percentage labels.

use vstd::prelude::*;

verus! {

/// The decimal digit character for `d % 10`.
pub open spec fn digit_char(d: nat) -> char {
    let r = d % 10;
    if r == 0 {
        '0'
    } else if r == 1 {
        '1'
    } else if r == 2 {
        '2'
    } else if r == 3 {
        '3'
    } else if r == 4 {
        '4'
    } else if r == 5 {
        '5'
    } else if r == 6 {
        '6'
    } else if r == 7 {
        '7'
    } else if r == 8 {
        '8'
    } else {
        '9'
    }
}

/// The decimal digits of `n`, most significant first, without padding.
pub open spec fn spec_decimal(n: nat) -> Seq<char>
    decreases n,
{
    if n < 10 {
        seq![digit_char(n)]
    } else {
        spec_decimal(n / 10).push(digit_char(n % 10))
    }
}

/// The last two decimal digits of `n`, zero-padded.
pub open spec fn spec_two_digits(n: nat) -> Seq<char> {
    seq![digit_char(n / 10), digit_char(n)]
}

/// The last four decimal digits of `n`, zero-padded.
pub open spec fn spec_four_digits(n: nat) -> Seq<char> {
    seq![digit_char(n / 1000), digit_char(n / 100), digit_char(n / 10), digit_char(n)]
}

/// A year, as rendered in a clock widget: zero-padded to four digits,
/// with a leading minus sign for years before year zero.
pub open spec fn spec_year(y: int) -> Seq<char> {
    if y >= 0 {
        if y < 10000 {
            spec_four_digits(y as nat)
        } else {
            spec_decimal(y as nat)
        }
    } else {
        if -y < 10000 {
            seq!['-'] + spec_four_digits((-y) as nat)
        } else {
            seq!['-'] + spec_decimal((-y) as nat)
        }
    }
}

/// The last two digits of a year, zero-padded: the year taken modulo
/// 100, counting backwards from 100 for years before year zero.
pub open spec fn spec_year_two(y: int) -> Seq<char> {
    if y >= 0 {
        spec_two_digits((y % 100) as nat)
    } else {
        let md = (-y) % 100;
        spec_two_digits((if md == 0 { 0 } else { 100 - md }) as nat)
    }
}

/// A percentage label with a leading space, as rendered next to a
/// battery or volume icon.
pub open spec fn spec_percent(n: nat) -> Seq<char> {
    seq![' '] + spec_decimal(n) + seq!['%']
}

/// The one-character string for the decimal digit `d`.
pub fn digit_str(d: u8) -> (r: &'static str)
    requires
        d < 10,
    ensures
        r@ == seq![digit_char(d as nat)],
{
    proof {
        reveal_strlit("0");
        reveal_strlit("1");
        reveal_strlit("2");
        reveal_strlit("3");
        reveal_strlit("4");
        reveal_strlit("5");
        reveal_strlit("6");
        reveal_strlit("7");
        reveal_strlit("8");
        reveal_strlit("9");
    }
    let r: &'static str = match d {
        0 => "0",
        1 => "1",
        2 => "2",
        3 => "3",
        4 => "4",
        5 => "5",
        6 => "6",
        7 => "7",
        8 => "8",
        _ => "9",
    };
    proof {
        assert(r@ =~= seq![digit_char(d as nat)]);
    }
    r
}

/// `n` in decimal, without padding.
pub fn decimal_string(n: u64) -> (s: String)
    ensures
        s@ == spec_decimal(n as nat),
    decreases n,
{
    if n < 10 {
        String::from_str(digit_str(n as u8))
    } else {
        let mut s = decimal_string(n / 10);
        s.append(digit_str((n % 10) as u8));
        proof {
            assert(s@ =~= spec_decimal(n as nat));
        }
        s
    }
}

/// The last two decimal digits of `n`, zero-padded.
pub fn two_digit_string(n: u8) -> (s: String)
    ensures
        s@ == spec_two_digits(n as nat),
{
    let tens: u8 = (n / 10) % 10;
    let ones: u8 = n % 10;
    let mut s = String::from_str(digit_str(tens));
    s.append(digit_str(ones));
    proof {
        assert(s@ =~= spec_two_digits(n as nat));
    }
    s
}

/// The last four decimal digits of `n`, zero-padded.
pub fn four_digit_string(n: u16) -> (s: String)
    ensures
        s@ == spec_four_digits(n as nat),
{
    let d0: u8 = ((n / 1000) % 10) as u8;
    let d1: u8 = ((n / 100) % 10) as u8;
    let d2: u8 = ((n / 10) % 10) as u8;
    let d3: u8 = (n % 10) as u8;
    let mut s = String::from_str(digit_str(d0));
    s.append(digit_str(d1));
    s.append(digit_str(d2));
    s.append(digit_str(d3));
    proof {
        assert(s@ =~= spec_four_digits(n as nat));
    }
    s
}

/// A year, zero-padded to four digits, with a minus sign if negative.
pub fn year_string(y: i32) -> (s: String)
    ensures
        s@ == spec_year(y as int),
{
    if y >= 0 {
        if y < 10000 {
            four_digit_string(y as u16)
        } else {
            decimal_string(y as u64)
        }
    } else {
        let mag: u64 = (-(y as i64)) as u64;
        let mut s = String::from_str("-");
        proof {
            reveal_strlit("-");
        }
        if mag < 10000 {
            let tail = four_digit_string(mag as u16);
            s.append(tail.as_str());
        } else {
            let tail = decimal_string(mag);
            s.append(tail.as_str());
        }
        proof {
            assert(s@ =~= spec_year(y as int));
        }
        s
    }
}

/// The last two digits of a year, zero-padded.
pub fn year_two_string(y: i32) -> (s: String)
    ensures
        s@ == spec_year_two(y as int),
{
    if y >= 0 {
        two_digit_string(((y as u64) % 100) as u8)
    } else {
        let mag: u64 = (-(y as i64)) as u64;
        let md: u64 = mag % 100;
        let yy: u64 = if md == 0 {
            0
        } else {
            100 - md
        };
        two_digit_string(yy as u8)
    }
}

/// A percentage label with a leading space, e.g. for a charge level.
pub fn percent_string(n: u8) -> (s: String)
    ensures
        s@ == spec_percent(n as nat),
{
    let mut s = String::from_str(" ");
    proof {
        reveal_strlit(" ");
        reveal_strlit("%");
    }
    let digits = decimal_string(n as u64);
    s.append(digits.as_str());
    s.append("%");
    proof {
        assert(s@ =~= spec_percent(n as nat));
    }
    s
}

} // verus!

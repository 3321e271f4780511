//! Decimal rendering of unsigned integers, with a proved round trip back
//! to the number.  The ring file names and the manufacturing summary are
//! built from these digits, and the round trip is what makes distinct
//! dimensions yield distinct file names.

use vstd::prelude::*;
use vstd::string::StringExecFns;

verus! {

/// The character for one decimal digit value (`0 <= d < 10`).
pub open spec fn digit_char(d: int) -> char {
    if d == 0 {
        '0'
    } else if d == 1 {
        '1'
    } else if d == 2 {
        '2'
    } else if d == 3 {
        '3'
    } else if d == 4 {
        '4'
    } else if d == 5 {
        '5'
    } else if d == 6 {
        '6'
    } else if d == 7 {
        '7'
    } else if d == 8 {
        '8'
    } else {
        '9'
    }
}

/// Numeric value of a decimal digit character; inverse of `digit_char`.
pub open spec fn digit_val(c: char) -> int {
    if c == '0' {
        0
    } else if c == '1' {
        1
    } else if c == '2' {
        2
    } else if c == '3' {
        3
    } else if c == '4' {
        4
    } else if c == '5' {
        5
    } else if c == '6' {
        6
    } else if c == '7' {
        7
    } else if c == '8' {
        8
    } else {
        9
    }
}

pub proof fn lemma_digit_char_val(d: int)
    requires
        0 <= d < 10,
    ensures
        digit_val(digit_char(d)) == d,
{
}

/// Decimal digit sequence of `n`, most significant digit first, with no
/// leading zeros (a single `'0'` for zero itself).
pub open spec fn dec_seq(n: nat) -> Seq<char>
    decreases n,
{
    if n < 10 {
        seq![digit_char(n as int)]
    } else {
        dec_seq(n / 10).push(digit_char((n % 10) as int))
    }
}

pub proof fn lemma_dec_seq_len(n: nat)
    ensures
        dec_seq(n).len() >= 1,
        n >= 10 ==> dec_seq(n).len() >= 2,
    decreases n,
{
    if n >= 10 {
        lemma_dec_seq_len(n / 10);
    }
}

/// Value read back from a digit sequence, most significant digit first.
pub open spec fn parse_dec(s: Seq<char>) -> int
    decreases s.len(),
{
    if s.len() == 0 {
        0
    } else if s.len() == 1 {
        digit_val(s[0])
    } else {
        parse_dec(s.drop_last()) * 10 + digit_val(s.last())
    }
}

/// Printing then parsing a number gives the number back; hence two
/// distinct numbers never print to the same digit sequence.
pub proof fn lemma_dec_round_trip(n: nat)
    ensures
        parse_dec(dec_seq(n)) == n,
    decreases n,
{
    if n < 10 {
        lemma_digit_char_val(n as int);
    } else {
        lemma_dec_round_trip(n / 10);
        lemma_dec_seq_len(n / 10);
        let s = dec_seq(n);
        assert(s.drop_last() =~= dec_seq(n / 10));
        lemma_digit_char_val((n % 10) as int);
    }
}

/// Appends the single digit `d` to `s`.
pub fn append_digit(s: &mut String, d: u64)
    requires
        d < 10,
    ensures
        final(s)@ == old(s)@ + seq![digit_char(d as int)],
{
    match d {
        0 => {
            proof {
                reveal_strlit("0");
            }
            s.append("0");
        },
        1 => {
            proof {
                reveal_strlit("1");
            }
            s.append("1");
        },
        2 => {
            proof {
                reveal_strlit("2");
            }
            s.append("2");
        },
        3 => {
            proof {
                reveal_strlit("3");
            }
            s.append("3");
        },
        4 => {
            proof {
                reveal_strlit("4");
            }
            s.append("4");
        },
        5 => {
            proof {
                reveal_strlit("5");
            }
            s.append("5");
        },
        6 => {
            proof {
                reveal_strlit("6");
            }
            s.append("6");
        },
        7 => {
            proof {
                reveal_strlit("7");
            }
            s.append("7");
        },
        8 => {
            proof {
                reveal_strlit("8");
            }
            s.append("8");
        },
        _ => {
            proof {
                reveal_strlit("9");
            }
            s.append("9");
        },
    }
    assert(s@ =~= old(s)@ + seq![digit_char(d as int)]);
}

/// Appends the decimal rendering of `n` to `s`.
pub fn append_u128(s: &mut String, n: u128)
    ensures
        final(s)@ == old(s)@ + dec_seq(n as nat),
    decreases n,
{
    if n < 10 {
        append_digit(s, n as u64);
    } else {
        append_u128(s, n / 10);
        append_digit(s, (n % 10) as u64);
        assert(s@ =~= old(s)@ + dec_seq(n as nat));
    }
}

/// Three zero-padded decimal digits of a value below 1000.
pub open spec fn spec_pad3(n: int) -> Seq<char> {
    seq![digit_char((n / 100) % 10), digit_char((n / 10) % 10), digit_char(n % 10)]
}

/// Appends `n` as exactly three digits, zero padded.
pub fn append_pad3(s: &mut String, n: u64)
    requires
        n < 1000,
    ensures
        final(s)@ == old(s)@ + spec_pad3(n as int),
{
    append_digit(s, n / 100);
    append_digit(s, (n / 10) % 10);
    append_digit(s, n % 10);
    assert(s@ =~= old(s)@ + spec_pad3(n as int));
}

/// Appends the decimal rendering of `n` to `s`.
pub fn append_u64(s: &mut String, n: u64)
    ensures
        final(s)@ == old(s)@ + dec_seq(n as nat),
    decreases n,
{
    if n < 10 {
        append_digit(s, n);
    } else {
        append_u64(s, n / 10);
        append_digit(s, n % 10);
        assert(s@ =~= old(s)@ + dec_seq(n as nat));
    }
}

} // verus!

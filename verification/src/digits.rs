//! Decimal and hexadecimal digit strings, the shared base of every
//! renderer in the crate.

use vstd::prelude::*;
use vstd::string::*;

verus! {

/// The character for one decimal digit value below ten.
pub open spec fn digit_char(d: nat) -> char {
    if d == 0 {
        '0'
    } else if d == 1 {
        '1'
    } else if d == 2 {
        '2'
    } else if d == 3 {
        '3'
    } else if d == 4 {
        '4'
    } else if d == 5 {
        '5'
    } else if d == 6 {
        '6'
    } else if d == 7 {
        '7'
    } else if d == 8 {
        '8'
    } else {
        '9'
    }
}

/// The character for one hexadecimal digit value below sixteen, lower case.
pub open spec fn hex_char(d: nat) -> char {
    if d < 10 {
        digit_char(d)
    } else if d == 10 {
        'a'
    } else if d == 11 {
        'b'
    } else if d == 12 {
        'c'
    } else if d == 13 {
        'd'
    } else if d == 14 {
        'e'
    } else {
        'f'
    }
}

/// The decimal digits of `n`, zero-padded on the left to at least `width`
/// characters. `padded_digits(0, 0)` is empty, `padded_digits(n, 1)` is the
/// ordinary decimal form of `n`.
pub open spec fn padded_digits(n: nat, width: nat) -> Seq<char>
    decreases n + width,
{
    if n == 0 && width == 0 {
        Seq::empty()
    } else {
        padded_digits(n / 10, if width == 0 {
            0
        } else {
            (width - 1) as nat
        }).push(digit_char(n % 10))
    }
}

/// Exactly `width` hexadecimal digits of `v`, most significant first,
/// lower case; `v` is taken modulo `16^width`.
pub open spec fn hex_digits_fixed(v: nat, width: nat) -> Seq<char>
    decreases width,
{
    if width == 0 {
        Seq::empty()
    } else {
        hex_digits_fixed(v / 16, (width - 1) as nat).push(hex_char(v % 16))
    }
}

pub proof fn lemma_padded_digits_len(n: nat, width: nat)
    ensures
        padded_digits(n, width).len() >= width,
        n > 0 || width > 0 ==> padded_digits(n, width).len() >= 1,
    decreases n + width,
{
    if n == 0 && width == 0 {
    } else {
        lemma_padded_digits_len(n / 10, if width == 0 {
            0
        } else {
            (width - 1) as nat
        });
    }
}

fn digit_str(d: u8) -> (r: &'static str)
    requires
        d < 10,
    ensures
        r@ =~= seq![digit_char(d as nat)],
{
    proof {
        reveal_strlit("0");
        reveal_strlit("1");
        reveal_strlit("2");
        reveal_strlit("3");
        reveal_strlit("4");
        reveal_strlit("5");
        reveal_strlit("6");
        reveal_strlit("7");
        reveal_strlit("8");
        reveal_strlit("9");
    }
    match d {
        0 => "0",
        1 => "1",
        2 => "2",
        3 => "3",
        4 => "4",
        5 => "5",
        6 => "6",
        7 => "7",
        8 => "8",
        _ => "9",
    }
}

fn hex_str(d: u8) -> (r: &'static str)
    requires
        d < 16,
    ensures
        r@ =~= seq![hex_char(d as nat)],
{
    proof {
        reveal_strlit("a");
        reveal_strlit("b");
        reveal_strlit("c");
        reveal_strlit("d");
        reveal_strlit("e");
        reveal_strlit("f");
    }
    if d < 10 {
        digit_str(d)
    } else {
        match d {
            10 => "a",
            11 => "b",
            12 => "c",
            13 => "d",
            14 => "e",
            _ => "f",
        }
    }
}

/// Appends the decimal digits of `n`, zero-padded on the left to at least
/// `width` characters, to `out`.
pub fn append_padded(n: u128, width: usize, out: &mut String)
    ensures
        final(out)@ == old(out)@ + padded_digits(n as nat, width as nat),
    decreases n + width,
{
    if n == 0 && width == 0 {
        proof {
            assert(old(out)@ + padded_digits(0, 0) =~= old(out)@);
        }
        return ;
    }
    let next_width: usize = if width == 0 {
        0
    } else {
        width - 1
    };
    append_padded(n / 10, next_width, out);
    let d: u8 = (n % 10) as u8;
    out.append(digit_str(d));
    proof {
        assert(out@ =~= old(out)@ + padded_digits(n as nat, width as nat));
    }
}

/// Appends exactly `width` hexadecimal digits of `v`, most significant
/// first and lower case, to `out`.
pub fn append_hex_fixed(v: u128, width: usize, out: &mut String)
    ensures
        final(out)@ == old(out)@ + hex_digits_fixed(v as nat, width as nat),
    decreases width,
{
    if width == 0 {
        proof {
            assert(old(out)@ + hex_digits_fixed(v as nat, 0) =~= old(out)@);
        }
        return ;
    }
    append_hex_fixed(v / 16, width - 1, out);
    let d: u8 = (v % 16) as u8;
    out.append(hex_str(d));
    proof {
        assert(out@ =~= old(out)@ + hex_digits_fixed(v as nat, width as nat));
    }
}

} // verus!

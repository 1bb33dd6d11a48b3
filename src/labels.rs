use vstd::prelude::*;
use vstd::string::StringExecFns;

verus! {

/// The upper-case hexadecimal digit for `d`, as a one-character string.
pub open spec fn hex_digit_text(d: int) -> Seq<char> {
    if d == 0 {
        "0"@
    } else if d == 1 {
        "1"@
    } else if d == 2 {
        "2"@
    } else if d == 3 {
        "3"@
    } else if d == 4 {
        "4"@
    } else if d == 5 {
        "5"@
    } else if d == 6 {
        "6"@
    } else if d == 7 {
        "7"@
    } else if d == 8 {
        "8"@
    } else if d == 9 {
        "9"@
    } else if d == 10 {
        "A"@
    } else if d == 11 {
        "B"@
    } else if d == 12 {
        "C"@
    } else if d == 13 {
        "D"@
    } else if d == 14 {
        "E"@
    } else {
        "F"@
    }
}

/// The upper-case hexadecimal digits of `n`, without leading zeros ("0" for 0).
pub open spec fn hex_digits(n: nat) -> Seq<char>
    decreases n,
{
    if n < 16 {
        hex_digit_text(n as int)
    } else {
        hex_digits(n / 16) + hex_digit_text((n % 16) as int)
    }
}

/// `0x` followed by the upper-case hexadecimal digits of `n`.
pub open spec fn hex_label_text(n: nat) -> Seq<char> {
    "0x"@ + hex_digits(n)
}

/// The conventional MIPS name of register `i`, without the `$`.
pub open spec fn register_name_text(i: int) -> Seq<char> {
    if i == 0 { "zero"@ }
    else if i == 1 { "at"@ }
    else if i == 2 { "v0"@ }
    else if i == 3 { "v1"@ }
    else if i == 4 { "a0"@ }
    else if i == 5 { "a1"@ }
    else if i == 6 { "a2"@ }
    else if i == 7 { "a3"@ }
    else if i == 8 { "t0"@ }
    else if i == 9 { "t1"@ }
    else if i == 10 { "t2"@ }
    else if i == 11 { "t3"@ }
    else if i == 12 { "t4"@ }
    else if i == 13 { "t5"@ }
    else if i == 14 { "t6"@ }
    else if i == 15 { "t7"@ }
    else if i == 16 { "s0"@ }
    else if i == 17 { "s1"@ }
    else if i == 18 { "s2"@ }
    else if i == 19 { "s3"@ }
    else if i == 20 { "s4"@ }
    else if i == 21 { "s5"@ }
    else if i == 22 { "s6"@ }
    else if i == 23 { "s7"@ }
    else if i == 24 { "t8"@ }
    else if i == 25 { "t9"@ }
    else if i == 26 { "k0"@ }
    else if i == 27 { "k1"@ }
    else if i == 28 { "gp"@ }
    else if i == 29 { "fp"@ }
    else if i == 30 { "sp"@ }
    else { "ra"@ }
}

/// The label of register `i` in a register table: `$` and its name when
/// human-readable labels are asked for, else its number in hexadecimal.
pub open spec fn register_label_text(i: int, human_readable: bool) -> Seq<char> {
    if human_readable {
        "$"@ + register_name_text(i)
    } else {
        hex_label_text(i as nat)
    }
}

fn hex_digit(d: usize) -> (r: &'static str)
    requires
        d < 16,
    ensures
        r@ == hex_digit_text(d as int),
{
    match d {
        0 => "0",
        1 => "1",
        2 => "2",
        3 => "3",
        4 => "4",
        5 => "5",
        6 => "6",
        7 => "7",
        8 => "8",
        9 => "9",
        10 => "A",
        11 => "B",
        12 => "C",
        13 => "D",
        14 => "E",
        _ => "F",
    }
}

fn append_hex_digits(s: &mut String, n: usize)
    ensures
        final(s)@ == old(s)@ + hex_digits(n as nat),
    decreases n,
{
    if n >= 16 {
        append_hex_digits(s, n / 16);
        s.append(hex_digit(n % 16));
        assert(final(s)@ =~= old(s)@ + hex_digits(n as nat));
    } else {
        s.append(hex_digit(n));
    }
}

/// `0x` followed by `n` in upper-case hexadecimal, as in `0x1F`.
pub fn hex_label(n: usize) -> (r: String)
    ensures
        r@ == hex_label_text(n as nat),
{
    let mut s = String::from_str("0x");
    append_hex_digits(&mut s, n);
    s
}

/// The name of register `i`, without the `$`.
pub fn register_name(i: usize) -> (r: &'static str)
    requires
        i < 32,
    ensures
        r@ == register_name_text(i as int),
{
    match i {
        0 => "zero",
        1 => "at",
        2 => "v0",
        3 => "v1",
        4 => "a0",
        5 => "a1",
        6 => "a2",
        7 => "a3",
        8 => "t0",
        9 => "t1",
        10 => "t2",
        11 => "t3",
        12 => "t4",
        13 => "t5",
        14 => "t6",
        15 => "t7",
        16 => "s0",
        17 => "s1",
        18 => "s2",
        19 => "s3",
        20 => "s4",
        21 => "s5",
        22 => "s6",
        23 => "s7",
        24 => "t8",
        25 => "t9",
        26 => "k0",
        27 => "k1",
        28 => "gp",
        29 => "fp",
        30 => "sp",
        _ => "ra",
    }
}

/// The label of register `i`: `$a0` style when `human_readable`, else `0x4` style.
pub fn register_label(i: usize, human_readable: bool) -> (r: String)
    requires
        i < 32,
    ensures
        r@ == register_label_text(i as int, human_readable),
{
    if human_readable {
        let mut s = String::from_str("$");
        s.append(register_name(i));
        s
    } else {
        hex_label(i)
    }
}

} // verus!

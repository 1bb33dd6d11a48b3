use vstd::prelude::*;

verus! {

/// Length in bytes of an instruction line: `0x`, eight hex digits, and the
/// line terminator.
pub const LINE_BYTES: usize = 11;

/// Number of hexadecimal digits in an instruction line.
pub const WORD_DIGITS: usize = 8;

/// What reading one more line does to the instruction stream.
#[derive(Clone, Copy, PartialEq, Eq, Structural, Debug)]
pub enum LineStep {
    /// The line held a word, which was appended; read on.
    Continue,
    /// The line was not an instruction line: the stream ends before it.
    End,
    /// The line had the right length but its digits were not hexadecimal.
    Malformed,
}

pub open spec fn is_hex_byte(b: u8) -> bool {
    (0x30 <= b <= 0x39) || (0x41 <= b <= 0x46) || (0x61 <= b <= 0x66)
}

/// The value of a hexadecimal digit, upper or lower case.
pub open spec fn hex_value(b: u8) -> nat {
    if 0x30 <= b <= 0x39 {
        (b - 0x30) as nat
    } else if 0x41 <= b <= 0x46 {
        (b - 0x41 + 10) as nat
    } else {
        (b - 0x61 + 10) as nat
    }
}

/// The number that a string of hexadecimal digits spells, most significant first.
pub open spec fn hex_number(s: Seq<u8>) -> nat
    decreases s.len(),
{
    if s.len() == 0 {
        0
    } else {
        hex_number(s.drop_last()) * 16 + hex_value(s.last())
    }
}

pub open spec fn pow16(k: nat) -> nat
    decreases k,
{
    if k == 0 {
        1
    } else {
        16 * pow16((k - 1) as nat)
    }
}

/// The digit bytes of an instruction line: those between the two-byte prefix
/// and the terminator.
pub open spec fn digits_of(line: Seq<u8>) -> Seq<u8> {
    line.subrange(2, 10)
}

pub open spec fn all_hex(s: Seq<u8>) -> bool {
    forall|i: int| 0 <= i < s.len() ==> is_hex_byte(#[trigger] s[i])
}

fn hex_digit_value(b: u8) -> (r: Option<u32>)
    ensures
        is_hex_byte(b) ==> r == Some(hex_value(b) as u32) && hex_value(b) < 16,
        !is_hex_byte(b) ==> r is None,
{
    if 0x30 <= b && b <= 0x39 {
        Some((b - 0x30) as u32)
    } else if 0x41 <= b && b <= 0x46 {
        Some((b - 0x41 + 10) as u32)
    } else if 0x61 <= b && b <= 0x66 {
        Some((b - 0x61 + 10) as u32)
    } else {
        None
    }
}

/// Takes in one input line, terminator included. A line that is not exactly
/// eleven bytes long ends the stream and changes nothing. An eleven-byte line
/// whose bytes 2 to 9 are hexadecimal digits (either case) has the word they
/// spell appended; otherwise it is malformed and nothing is appended. The two
/// prefix bytes and the terminator are not inspected.
pub fn accept_line(instructions: &mut Vec<u32>, line: &[u8]) -> (r: LineStep)
    ensures
        line@.len() != LINE_BYTES ==> r == LineStep::End && final(instructions)@ == old(
            instructions,
        )@,
        line@.len() == LINE_BYTES && all_hex(digits_of(line@)) ==> r == LineStep::Continue
            && hex_number(digits_of(line@)) <= u32::MAX && final(instructions)@ == old(
            instructions,
        )@.push(hex_number(digits_of(line@)) as u32),
        line@.len() == LINE_BYTES && !all_hex(digits_of(line@)) ==> r == LineStep::Malformed
            && final(instructions)@ == old(instructions)@,
{
    if line.len() != LINE_BYTES {
        return LineStep::End;
    }
    let ghost digits = digits_of(line@);
    let mut value: u32 = 0;
    let mut k: usize = 0;
    while k < WORD_DIGITS
        invariant
            line@.len() == LINE_BYTES,
            digits == digits_of(line@),
            k <= WORD_DIGITS,
            all_hex(digits.subrange(0, k as int)),
            value == hex_number(digits.subrange(0, k as int)),
            value < pow16(k as nat),
            *instructions == *old(instructions),
        decreases WORD_DIGITS - k,
    {
        let b = line[2 + k];
        assert(b == digits[k as int]);
        match hex_digit_value(b) {
            Some(d) => {
                let ghost pre = digits.subrange(0, k as int);
                let ghost next = digits.subrange(0, k + 1);
                assert(next.drop_last() =~= pre);
                assert(pow16((k + 1) as nat) == 16 * pow16(k as nat));
                assert(value * 16 + d < 16 * pow16(k as nat)) by (nonlinear_arith)
                    requires
                        value < pow16(k as nat),
                        d < 16,
                ;
                proof {
                    lemma_pow16_word();
                    lemma_pow16_monotone((k + 1) as nat, 8);
                }
                value = value * 16 + d;
                k = k + 1;
            },
            None => {
                assert(!all_hex(digits));
                return LineStep::Malformed;
            },
        }
    }
    assert(digits.subrange(0, 8) =~= digits);
    instructions.push(value);
    LineStep::Continue
}

proof fn lemma_pow16_word()
    ensures
        pow16(8) == 0x1_0000_0000,
{
    reveal_with_fuel(pow16, 9);
}

proof fn lemma_pow16_monotone(a: nat, b: nat)
    requires
        a <= b,
    ensures
        pow16(a) <= pow16(b),
    decreases b,
{
    if a < b {
        lemma_pow16_monotone(a, (b - 1) as nat);
    }
}

} // verus!

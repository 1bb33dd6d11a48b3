use vstd::prelude::*;

verus! {

/// A decoded instruction word, tagged by format.
#[derive(Clone, Copy, PartialEq, Eq, Structural, Debug)]
pub enum InsType {
    /// R-format: `rs, rt, rd, shamt, func`.
    RType(u8, u8, u8, u8, u8),
    /// I-format: `opcode, rs, rt, immediate` (no sign extension).
    IType(u8, u8, u8, u16),
    /// J-format: `opcode, address`, where the address keeps only the low 16 bits.
    JType(u8, u32),
}

/// The three instruction formats, without their fields.
#[derive(Clone, Copy, PartialEq, Eq, Structural, Debug)]
pub enum Format {
    R,
    I,
    J,
}

/// Bits 31 to 26 of the word are all zero.
pub open spec fn is_r_word(w: u32) -> bool {
    w & 0xFC00_0000u32 == 0
}

/// The jump test on bits 27 and 26, as the decoder writes it.
pub open spec fn jump_bits(w: u32) -> bool {
    w & 0x0800_0000u32 == 0x0800_0000u32 || w & 0x0C00_0000u32 == 0x0C00_0000u32
}

/// The format of a word: R-format first, then the jump test, else I-format.
pub open spec fn format_of(w: u32) -> Format {
    if is_r_word(w) {
        Format::R
    } else if jump_bits(w) {
        Format::J
    } else {
        Format::I
    }
}

/// The same classification with the jump test made before the R-format test.
pub open spec fn format_jump_first(w: u32) -> Format {
    if jump_bits(w) {
        Format::J
    } else if is_r_word(w) {
        Format::R
    } else {
        Format::I
    }
}

pub open spec fn opcode_field(w: u32) -> u8 {
    (w >> 26u32) as u8
}

pub open spec fn rs_field(w: u32) -> u8 {
    ((w >> 21u32) & 0x1Fu32) as u8
}

pub open spec fn rt_field(w: u32) -> u8 {
    ((w >> 16u32) & 0x1Fu32) as u8
}

pub open spec fn rd_field(w: u32) -> u8 {
    ((w >> 11u32) & 0x1Fu32) as u8
}

pub open spec fn shamt_field(w: u32) -> u8 {
    ((w >> 6u32) & 0x1Fu32) as u8
}

pub open spec fn func_field(w: u32) -> u8 {
    (w & 0x3Fu32) as u8
}

pub open spec fn low16_field(w: u32) -> u16 {
    (w & 0xFFFFu32) as u16
}

/// The decoded form of a word.
pub open spec fn decode_spec(w: u32) -> InsType {
    match format_of(w) {
        Format::R => InsType::RType(
            rs_field(w),
            rt_field(w),
            rd_field(w),
            shamt_field(w),
            func_field(w),
        ),
        Format::J => InsType::JType(opcode_field(w), (w & 0xFFFFu32)),
        Format::I => InsType::IType(opcode_field(w), rs_field(w), rt_field(w), low16_field(w)),
    }
}

impl InsType {
    /// The format that this variant stands for.
    pub open spec fn format(self) -> Format {
        match self {
            InsType::RType(..) => Format::R,
            InsType::IType(..) => Format::I,
            InsType::JType(..) => Format::J,
        }
    }

    /// Every field lies in the range its bit width allows.
    pub open spec fn fields_in_range(self) -> bool {
        match self {
            InsType::RType(rs, rt, rd, shamt, func) => rs < 32 && rt < 32 && rd < 32 && shamt
                < 64 && func < 64,
            InsType::IType(op, rs, rt, _imm) => op < 64 && rs < 32 && rt < 32,
            InsType::JType(op, addr) => op < 64 && addr <= 0xFFFF,
        }
    }
}

/// Decodes one instruction word. Every word decodes, to exactly the variant
/// that `format_of` names, with the fields sliced as `decode_spec` states.
pub fn instruction_type(instruction: &u32) -> (r: InsType)
    ensures
        r == decode_spec(*instruction),
        r.format() == format_of(*instruction),
        r.fields_in_range(),
{
    let w = *instruction;
    proof {
        lemma_field_ranges(w);
    }
    if w & 0xFC00_0000u32 == 0 {
        InsType::RType(
            ((w >> 21u32) & 0x1Fu32) as u8,
            ((w >> 16u32) & 0x1Fu32) as u8,
            ((w >> 11u32) & 0x1Fu32) as u8,
            ((w >> 6u32) & 0x1Fu32) as u8,
            (w & 0x3Fu32) as u8,
        )
    } else if (w & 0x0800_0000u32) == 0x0800_0000u32 || (w & 0x0C00_0000u32) == 0x0C00_0000u32 {
        InsType::JType((w >> 26u32) as u8, w & 0xFFFFu32)
    } else {
        InsType::IType(
            (w >> 26u32) as u8,
            ((w >> 21u32) & 0x1Fu32) as u8,
            ((w >> 16u32) & 0x1Fu32) as u8,
            (w & 0xFFFFu32) as u16,
        )
    }
}

/// Every field of every decoded word lies within its bit width: register
/// numbers below 32, shift amount and function code below 64, opcode below
/// 64, immediate and jump address at most 0xFFFF.
pub proof fn lemma_field_ranges(w: u32)
    ensures
        decode_spec(w).fields_in_range(),
{
    assert((w >> 26u32) < 64) by (bit_vector);
    assert((w >> 21u32) & 0x1Fu32 < 32) by (bit_vector);
    assert((w >> 16u32) & 0x1Fu32 < 32) by (bit_vector);
    assert((w >> 11u32) & 0x1Fu32 < 32) by (bit_vector);
    assert((w >> 6u32) & 0x1Fu32 < 32) by (bit_vector);
    assert(w & 0x3Fu32 < 64) by (bit_vector);
    assert(w & 0xFFFFu32 <= 0xFFFF) by (bit_vector);
}

/// Every word has exactly one format, and the R-format test and the jump test
/// never both hold, so making either test first classifies every word alike.
pub proof fn lemma_format_partition(w: u32)
    ensures
        !(is_r_word(w) && jump_bits(w)),
        format_of(w) == format_jump_first(w),
        (format_of(w) == Format::R) as int + (format_of(w) == Format::I) as int + (format_of(
            w,
        ) == Format::J) as int == 1,
{
    assert(!(w & 0xFC00_0000u32 == 0 && (w & 0x0800_0000u32 == 0x0800_0000u32 || w
        & 0x0C00_0000u32 == 0x0C00_0000u32))) by (bit_vector);
}

} // verus!

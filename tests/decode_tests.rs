use mips_stats::decode::{instruction_type, InsType};

#[test]
fn zero_word_is_r_format_with_zero_fields() {
    assert_eq!(instruction_type(&0x0000_0000), InsType::RType(0, 0, 0, 0, 0));
}

#[test]
fn r_format_fields_are_sliced() {
    // add $t2, $a1, $a1 with shamt 3 and func 0x20
    let w: u32 = (5 << 21) | (5 << 16) | (10 << 11) | (3 << 6) | 0x20;
    assert_eq!(instruction_type(&w), InsType::RType(5, 5, 10, 3, 0x20));
}

#[test]
fn r_format_all_low_bits_set() {
    assert_eq!(instruction_type(&0x03FF_FFFF), InsType::RType(31, 31, 31, 31, 63));
}

#[test]
fn bit_27_makes_j_format() {
    let w: u32 = 0x0800_0005;
    assert_eq!(instruction_type(&w), InsType::JType((w >> 26) as u8, 0x0005));
    assert_eq!(instruction_type(&w), InsType::JType(2, 5));
}

#[test]
fn jal_is_j_format() {
    assert_eq!(instruction_type(&0x0C12_3456), InsType::JType(3, 0x3456));
}

#[test]
fn j_address_keeps_only_sixteen_bits() {
    assert_eq!(instruction_type(&0x0BFF_1234), InsType::JType(2, 0x1234));
}

#[test]
fn all_ones_is_j_format_with_opcode_63() {
    assert_eq!(instruction_type(&0xFFFF_FFFF), InsType::JType(63, 0xFFFF));
}

#[test]
fn bit_26_alone_is_i_format() {
    // opcode 5 (bne): bit 26 set, bit 27 clear
    assert_eq!(instruction_type(&0x1485_FFFE), InsType::IType(5, 4, 5, 0xFFFE));
}

#[test]
fn i_format_fields_are_sliced() {
    assert_eq!(instruction_type(&0x2109_000A), InsType::IType(8, 8, 9, 0x000A));
}

#[test]
fn i_format_immediate_is_not_sign_extended() {
    assert_eq!(instruction_type(&0x2042_8000), InsType::IType(8, 2, 2, 0x8000));
}

#[test]
fn opcode_with_bit_27_set_is_j_format() {
    // opcode 0x23 has bits 27 and 26 set, so the jump mask claims it
    assert_eq!(instruction_type(&0x8C43_8000), InsType::JType(0x23, 0x8000));
}

#[test]
fn fields_stay_in_range_on_sampled_words() {
    let mut w: u32 = 0x9E37_79B9;
    for _ in 0..20000 {
        w = w.wrapping_mul(1_664_525).wrapping_add(1_013_904_223);
        match instruction_type(&w) {
            InsType::RType(rs, rt, rd, shamt, func) => {
                assert_eq!(w & 0xFC00_0000, 0);
                assert!(rs < 32 && rt < 32 && rd < 32 && shamt < 64 && func < 64);
            }
            InsType::IType(op, rs, rt, imm) => {
                assert_ne!(w & 0xFC00_0000, 0);
                assert!(op < 64 && rs < 32 && rt < 32);
                assert_eq!(imm as u32, w & 0xFFFF);
            }
            InsType::JType(op, addr) => {
                assert_ne!(w & 0xFC00_0000, 0);
                assert_ne!(w & 0x0800_0000, 0);
                assert!(op < 64 && addr <= 0xFFFF);
            }
        }
    }
}

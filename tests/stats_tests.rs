use mips_stats::stats::{format_counts, opcode_counts, register_counts};

#[test]
fn empty_stream_counts_nothing() {
    let v: Vec<u32> = Vec::new();
    let f = format_counts(&v);
    assert_eq!((f.i_type, f.j_type, f.r_type), (0, 0, 0));
    assert!(opcode_counts(&v).iter().all(|c| *c == 0));
    let r = register_counts(&v);
    assert!(r.r_type.iter().all(|c| *c == 0));
    assert!(r.i_type.iter().all(|c| *c == 0));
}

#[test]
fn format_counts_sum_to_stream_length() {
    let v: Vec<u32> = vec![0x0000_0000, 0x0800_0005, 0x2109_000A, 0x1485_FFFE, 0xFFFF_FFFF, 0x012A_4020];
    let f = format_counts(&v);
    assert_eq!(f.r_type, 2);
    assert_eq!(f.j_type, 2);
    assert_eq!(f.i_type, 2);
    assert_eq!(f.i_type + f.j_type + f.r_type, v.len());
}

#[test]
fn opcode_counts_has_sixty_three_slots() {
    let v: Vec<u32> = vec![0x2109_000A, 0x2000_0000, 0x0800_0005, 0x0000_0000];
    let c = opcode_counts(&v);
    assert_eq!(c.len(), 63);
    assert_eq!(c[8], 2);
    assert_eq!(c[2], 1);
    assert_eq!(c[0], 0);
    assert_eq!(c.iter().sum::<usize>(), 3);
}

#[test]
fn opcode_63_is_not_counted() {
    let v: Vec<u32> = vec![0xFC00_0000, 0xFFFF_FFFF, 0xF800_0000];
    let c = opcode_counts(&v);
    assert_eq!(c.len(), 63);
    assert_eq!(c[62], 1);
    assert_eq!(c.iter().sum::<usize>(), 1);
    assert_eq!(format_counts(&v).j_type, 3);
}

#[test]
fn register_counts_repeated_r_register() {
    // rs = 5, rt = 5, rd = 10
    let v: Vec<u32> = vec![0x00A5_5000];
    let r = register_counts(&v);
    assert_eq!(r.r_type.len(), 32);
    assert_eq!(r.i_type.len(), 32);
    assert_eq!(r.r_type[5], 2);
    assert_eq!(r.r_type[10], 1);
    assert_eq!(r.r_type.iter().sum::<usize>(), 3);
    assert!(r.i_type.iter().all(|c| *c == 0));
}

#[test]
fn register_counts_i_format_and_jumps() {
    // I-format rs = 8, rt = 8; then a jump, which names no register
    let v: Vec<u32> = vec![0x2108_0001, 0x0800_1234];
    let r = register_counts(&v);
    assert_eq!(r.i_type[8], 2);
    assert_eq!(r.i_type.iter().sum::<usize>(), 2);
    assert!(r.r_type.iter().all(|c| *c == 0));
}

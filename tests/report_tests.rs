use mips_stats::input::{accept_line, LineStep};
use mips_stats::labels::{hex_label, register_label, register_name};
use mips_stats::report::{format_table, opcode_table, register_table};

#[test]
fn single_zero_word_then_end_gives_all_r_format() {
    let mut words: Vec<u32> = Vec::new();
    assert_eq!(accept_line(&mut words, b"0x00000000\n"), LineStep::Continue);
    assert_eq!(accept_line(&mut words, b""), LineStep::End);
    assert_eq!(words, vec![0]);
    let rows = format_table(&words);
    assert_eq!(rows.len(), 3);
    assert_eq!((rows[0].label.as_str(), rows[0].count), ("I-Type", 0));
    assert_eq!((rows[1].label.as_str(), rows[1].count), ("J-Type", 0));
    assert_eq!((rows[2].label.as_str(), rows[2].count), ("R-Type", 1));
}

#[test]
fn opcode_table_rows_in_order_with_hex_labels() {
    let words: Vec<u32> = vec![0x2109_000A, 0x8C43_8000, 0x8C43_0000];
    let rows = opcode_table(&words);
    assert_eq!(rows.len(), 63);
    assert_eq!(rows[0].label, "0x0");
    assert_eq!(rows[8].label, "0x8");
    assert_eq!(rows[8].count, 1);
    assert_eq!(rows[0x23].label, "0x23");
    assert_eq!(rows[0x23].count, 2);
    assert_eq!(rows[62].label, "0x3E");
}

#[test]
fn register_labels_human_and_raw() {
    assert_eq!(register_label(4, true), "$a0");
    assert_eq!(register_label(4, false), "0x4");
    assert_eq!(register_label(0, true), "$zero");
    assert_eq!(register_label(31, true), "$ra");
    assert_eq!(register_label(31, false), "0x1F");
    assert_eq!(register_name(29), "fp");
}

#[test]
fn hex_labels_are_upper_case() {
    assert_eq!(hex_label(0), "0x0");
    assert_eq!(hex_label(10), "0xA");
    assert_eq!(hex_label(62), "0x3E");
    assert_eq!(hex_label(255), "0xFF");
    assert_eq!(hex_label(0x1234), "0x1234");
}

#[test]
fn register_table_rows() {
    let words: Vec<u32> = vec![0x00A5_5000, 0x20A4_0001];
    let rows = register_table(&words, true);
    assert_eq!(rows.len(), 32);
    assert_eq!(rows[4].label, "$a0");
    assert_eq!((rows[4].uses, rows[4].r_count, rows[4].i_count), (1, 0, 1));
    assert_eq!(rows[5].label, "$a1");
    assert_eq!((rows[5].uses, rows[5].r_count, rows[5].i_count), (3, 2, 1));
    assert_eq!(rows[10].label, "$t2");
    assert_eq!((rows[10].uses, rows[10].r_count, rows[10].i_count), (1, 1, 0));
    let raw = register_table(&words, false);
    assert_eq!(raw[4].label, "0x4");
    assert_eq!(raw[10].label, "0xA");
}

use vstd::prelude::*;
use vstd::string::StringExecFns;

use crate::decode::Format;
use crate::labels::{hex_label, hex_label_text, register_label, register_label_text};
use crate::stats::{
    format_count, format_counts, i_register_uses, opcode_count, opcode_counts, r_register_uses,
    register_counts, OPCODE_SLOTS, REGISTER_SLOTS,
};

verus! {

/// One row of the format or opcode table: a label and how many instructions
/// it stands for.
pub struct CountRow {
    pub label: String,
    pub count: usize,
}

/// One row of the register table: the register's label, its total uses, and
/// those uses split by the format of the instruction.
pub struct RegisterRow {
    pub label: String,
    pub uses: usize,
    pub r_count: usize,
    pub i_count: usize,
}

/// The format table: rows `I-Type`, `J-Type`, `R-Type`, in that order, each
/// with the number of words of that format.
pub fn format_table(instructions: &Vec<u32>) -> (rows: Vec<CountRow>)
    ensures
        rows@.len() == 3,
        rows@[0].label@ == "I-Type"@,
        rows@[0].count == format_count(instructions@, Format::I),
        rows@[1].label@ == "J-Type"@,
        rows@[1].count == format_count(instructions@, Format::J),
        rows@[2].label@ == "R-Type"@,
        rows@[2].count == format_count(instructions@, Format::R),
{
    let counts = format_counts(instructions);
    let mut rows: Vec<CountRow> = Vec::new();
    rows.push(CountRow { label: String::from_str("I-Type"), count: counts.i_type });
    rows.push(CountRow { label: String::from_str("J-Type"), count: counts.j_type });
    rows.push(CountRow { label: String::from_str("R-Type"), count: counts.r_type });
    rows
}

/// The opcode table: one row for each opcode from 0 to 62 in ascending order,
/// labelled in hexadecimal, with the number of I- and J-format words that
/// carry it.
pub fn opcode_table(instructions: &Vec<u32>) -> (rows: Vec<CountRow>)
    ensures
        rows@.len() == OPCODE_SLOTS,
        forall|op: int|
            0 <= op < OPCODE_SLOTS ==> (#[trigger] rows@[op]).label@ == hex_label_text(op as nat)
                && rows@[op].count == opcode_count(instructions@, op),
{
    let counts = opcode_counts(instructions);
    let mut rows: Vec<CountRow> = Vec::new();
    let mut op: usize = 0;
    while op < OPCODE_SLOTS
        invariant
            op <= OPCODE_SLOTS,
            rows@.len() == op,
            counts@.len() == OPCODE_SLOTS,
            forall|o: int|
                0 <= o < OPCODE_SLOTS ==> #[trigger] counts@[o] == opcode_count(instructions@, o),
            forall|o: int|
                0 <= o < op ==> (#[trigger] rows@[o]).label@ == hex_label_text(o as nat)
                    && rows@[o].count == opcode_count(instructions@, o),
        decreases OPCODE_SLOTS - op,
    {
        rows.push(CountRow { label: hex_label(op), count: counts[op] });
        op = op + 1;
    }
    rows
}

/// The register table: one row for each register from 0 to 31 in ascending
/// order, with its label, its R-format and I-format use counts, and their sum.
pub fn register_table(instructions: &Vec<u32>, human_readable: bool) -> (rows: Vec<RegisterRow>)
    requires
        instructions@.len() * 3 <= usize::MAX,
    ensures
        rows@.len() == REGISTER_SLOTS,
        forall|reg: int|
            0 <= reg < REGISTER_SLOTS ==> {
                let row = #[trigger] rows@[reg];
                &&& row.label@ == register_label_text(reg, human_readable)
                &&& row.r_count == r_register_uses(instructions@, reg)
                &&& row.i_count == i_register_uses(instructions@, reg)
                &&& row.uses == row.r_count + row.i_count
            },
{
    let counts = register_counts(instructions);
    let mut rows: Vec<RegisterRow> = Vec::new();
    let mut reg: usize = 0;
    while reg < REGISTER_SLOTS
        invariant
            reg <= REGISTER_SLOTS,
            rows@.len() == reg,
            instructions@.len() * 3 <= usize::MAX,
            counts.r_type@.len() == REGISTER_SLOTS,
            counts.i_type@.len() == REGISTER_SLOTS,
            forall|g: int|
                0 <= g < REGISTER_SLOTS ==> #[trigger] counts.r_type@[g] == r_register_uses(
                    instructions@,
                    g,
                ),
            forall|g: int|
                0 <= g < REGISTER_SLOTS ==> #[trigger] counts.i_type@[g] == i_register_uses(
                    instructions@,
                    g,
                ),
            forall|g: int|
                0 <= g < REGISTER_SLOTS ==> counts.r_type@[g] + #[trigger] counts.i_type@[g] <= 3
                    * instructions@.len(),
            forall|g: int|
                0 <= g < reg ==> {
                    let row = #[trigger] rows@[g];
                    &&& row.label@ == register_label_text(g, human_readable)
                    &&& row.r_count == r_register_uses(instructions@, g)
                    &&& row.i_count == i_register_uses(instructions@, g)
                    &&& row.uses == row.r_count + row.i_count
                },
        decreases REGISTER_SLOTS - reg,
    {
        let r_count = counts.r_type[reg];
        let i_count = counts.i_type[reg];
        assert(counts.r_type@[reg as int] + counts.i_type@[reg as int] <= 3 * instructions@.len());
        rows.push(
            RegisterRow {
                label: register_label(reg, human_readable),
                uses: r_count + i_count,
                r_count,
                i_count,
            },
        );
        reg = reg + 1;
    }
    rows
}

} // verus!

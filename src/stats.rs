use vstd::prelude::*;

use crate::decode::{
    format_of, instruction_type, lemma_field_ranges, lemma_format_partition, opcode_field,
    rd_field, rs_field, rt_field, Format, InsType,
};

verus! {

/// Number of opcode counters: opcodes 0 to 62 are tracked, 63 is not.
pub const OPCODE_SLOTS: usize = 63;

/// Number of general-purpose registers.
pub const REGISTER_SLOTS: usize = 32;

pub open spec fn one_if(b: bool) -> nat {
    if b {
        1
    } else {
        0
    }
}

/// How many words of `s` have format `f`.
pub open spec fn format_count(s: Seq<u32>, f: Format) -> nat
    decreases s.len(),
{
    if s.len() == 0 {
        0
    } else {
        format_count(s.drop_last(), f) + one_if(format_of(s.last()) == f)
    }
}

/// Whether a word adds to the opcode counter `op`: it is an I- or J-format
/// word whose opcode is `op`.
pub open spec fn counts_for_opcode(w: u32, op: int) -> bool {
    format_of(w) != Format::R && opcode_field(w) as int == op
}

/// How many words of `s` are I- or J-format with opcode `op`.
pub open spec fn opcode_count(s: Seq<u32>, op: int) -> nat
    decreases s.len(),
{
    if s.len() == 0 {
        0
    } else {
        opcode_count(s.drop_last(), op) + one_if(counts_for_opcode(s.last(), op))
    }
}

/// How often an R-format word names register `reg` among `rs`, `rt`, `rd`.
pub open spec fn r_uses_in(w: u32, reg: int) -> nat {
    if format_of(w) == Format::R {
        one_if(rs_field(w) as int == reg) + one_if(rt_field(w) as int == reg) + one_if(
            rd_field(w) as int == reg,
        )
    } else {
        0
    }
}

/// How often an I-format word names register `reg` among `rs`, `rt`.
pub open spec fn i_uses_in(w: u32, reg: int) -> nat {
    if format_of(w) == Format::I {
        one_if(rs_field(w) as int == reg) + one_if(rt_field(w) as int == reg)
    } else {
        0
    }
}

/// Uses of register `reg` by the R-format words of `s`.
pub open spec fn r_register_uses(s: Seq<u32>, reg: int) -> nat
    decreases s.len(),
{
    if s.len() == 0 {
        0
    } else {
        r_register_uses(s.drop_last(), reg) + r_uses_in(s.last(), reg)
    }
}

/// Uses of register `reg` by the I-format words of `s`.
pub open spec fn i_register_uses(s: Seq<u32>, reg: int) -> nat
    decreases s.len(),
{
    if s.len() == 0 {
        0
    } else {
        i_register_uses(s.drop_last(), reg) + i_uses_in(s.last(), reg)
    }
}

/// The number of words of each format in a stream.
pub struct FormatCounts {
    pub i_type: usize,
    pub j_type: usize,
    pub r_type: usize,
}

/// Per-register use counts, split by the format of the using instruction.
pub struct RegisterCounts {
    pub r_type: Vec<usize>,
    pub i_type: Vec<usize>,
}

/// The three format counts of a stream add up to its length.
pub proof fn lemma_format_total(s: Seq<u32>)
    ensures
        format_count(s, Format::I) + format_count(s, Format::J) + format_count(s, Format::R)
            == s.len(),
    decreases s.len(),
{
    if s.len() > 0 {
        lemma_format_total(s.drop_last());
        lemma_format_partition(s.last());
    }
}

/// A word with opcode 63 leaves every opcode counter as it was.
pub proof fn lemma_opcode_63_uncounted(s: Seq<u32>, w: u32)
    requires
        opcode_field(w) == 63,
    ensures
        forall|op: int| 0 <= op < OPCODE_SLOTS ==> #[trigger] opcode_count(s.push(w), op)
            == opcode_count(s, op),
{
    assert forall|op: int| 0 <= op < OPCODE_SLOTS implies #[trigger] opcode_count(s.push(w), op)
        == opcode_count(s, op) by {
        assert(s.push(w).drop_last() =~= s);
    }
}

/// Counts the words of each format.
pub fn format_counts(instructions: &Vec<u32>) -> (r: FormatCounts)
    ensures
        r.i_type == format_count(instructions@, Format::I),
        r.j_type == format_count(instructions@, Format::J),
        r.r_type == format_count(instructions@, Format::R),
        r.i_type + r.j_type + r.r_type == instructions@.len(),
{
    let mut r_type: usize = 0;
    let mut j_type: usize = 0;
    let mut i_type: usize = 0;
    let n = instructions.len();
    let mut k: usize = 0;
    while k < n
        invariant
            n == instructions@.len(),
            k <= n,
            i_type == format_count(instructions@.subrange(0, k as int), Format::I),
            j_type == format_count(instructions@.subrange(0, k as int), Format::J),
            r_type == format_count(instructions@.subrange(0, k as int), Format::R),
        decreases n - k,
    {
        let ghost pre = instructions@.subrange(0, k as int);
        let ghost next = instructions@.subrange(0, k + 1);
        assert(next.drop_last() =~= pre);
        proof {
            lemma_format_total(pre);
        }
        match instruction_type(&instructions[k]) {
            InsType::IType(..) => {
                i_type = i_type + 1;
            },
            InsType::RType(..) => {
                r_type = r_type + 1;
            },
            InsType::JType(..) => {
                j_type = j_type + 1;
            },
        }
        k = k + 1;
    }
    assert(instructions@.subrange(0, n as int) =~= instructions@);
    proof {
        lemma_format_total(instructions@);
    }
    FormatCounts { i_type, j_type, r_type }
}

/// Counts the I- and J-format words by opcode, one counter for each opcode
/// from 0 to 62. R-format words and words with opcode 63 count nowhere.
pub fn opcode_counts(instructions: &Vec<u32>) -> (r: Vec<usize>)
    ensures
        r@.len() == OPCODE_SLOTS,
        forall|op: int| 0 <= op < OPCODE_SLOTS ==> #[trigger] r@[op] == opcode_count(instructions@, op),
{
    let mut counts: Vec<usize> = Vec::new();
    let mut j: usize = 0;
    while j < OPCODE_SLOTS
        invariant
            j <= OPCODE_SLOTS,
            counts@.len() == j,
            forall|op: int| 0 <= op < j ==> #[trigger] counts@[op] == 0,
        decreases OPCODE_SLOTS - j,
    {
        counts.push(0);
        j = j + 1;
    }
    let n = instructions.len();
    let mut k: usize = 0;
    while k < n
        invariant
            n == instructions@.len(),
            k <= n,
            counts@.len() == OPCODE_SLOTS,
            forall|op: int|
                0 <= op < OPCODE_SLOTS ==> #[trigger] counts@[op] == opcode_count(
                    instructions@.subrange(0, k as int),
                    op,
                ),
            forall|op: int| 0 <= op < OPCODE_SLOTS ==> #[trigger] counts@[op] <= k,
        decreases n - k,
    {
        let ghost pre = instructions@.subrange(0, k as int);
        let ghost next = instructions@.subrange(0, k + 1);
        assert(next.drop_last() =~= pre);
        let w = instructions[k];
        let op: u8 = match instruction_type(&w) {
            InsType::JType(op, _) => op,
            InsType::IType(op, _, _, _) => op,
            InsType::RType(..) => 64,
        };
        if (op as usize) < OPCODE_SLOTS {
            let idx = op as usize;
            counts.set(idx, counts[idx] + 1);
        }
        assert forall|o: int| 0 <= o < OPCODE_SLOTS implies #[trigger] counts@[o] == opcode_count(
            next,
            o,
        ) by {
            assert(opcode_count(next, o) == opcode_count(pre, o) + one_if(counts_for_opcode(w, o)));
        }
        k = k + 1;
    }
    assert(instructions@.subrange(0, n as int) =~= instructions@);
    counts
}

/// Counts register uses: `rs`, `rt` and `rd` of each R-format word into the
/// R-format table, `rs` and `rt` of each I-format word into the I-format
/// table, one count per field even where two fields name the same register.
pub fn register_counts(instructions: &Vec<u32>) -> (r: RegisterCounts)
    requires
        instructions@.len() * 3 <= usize::MAX,
    ensures
        r.r_type@.len() == REGISTER_SLOTS,
        r.i_type@.len() == REGISTER_SLOTS,
        forall|reg: int|
            0 <= reg < REGISTER_SLOTS ==> #[trigger] r.r_type@[reg] == r_register_uses(
                instructions@,
                reg,
            ),
        forall|reg: int|
            0 <= reg < REGISTER_SLOTS ==> #[trigger] r.i_type@[reg] == i_register_uses(
                instructions@,
                reg,
            ),
        forall|reg: int|
            0 <= reg < REGISTER_SLOTS ==> r.r_type@[reg] + #[trigger] r.i_type@[reg] <= 3
                * instructions@.len(),
{
    let mut r_counts: Vec<usize> = Vec::new();
    let mut i_counts: Vec<usize> = Vec::new();
    let mut j: usize = 0;
    while j < REGISTER_SLOTS
        invariant
            j <= REGISTER_SLOTS,
            r_counts@.len() == j,
            i_counts@.len() == j,
            forall|reg: int| 0 <= reg < j ==> #[trigger] r_counts@[reg] == 0,
            forall|reg: int| 0 <= reg < j ==> #[trigger] i_counts@[reg] == 0,
        decreases REGISTER_SLOTS - j,
    {
        r_counts.push(0);
        i_counts.push(0);
        j = j + 1;
    }
    let n = instructions.len();
    let mut k: usize = 0;
    while k < n
        invariant
            n == instructions@.len(),
            n * 3 <= usize::MAX,
            k <= n,
            r_counts@.len() == REGISTER_SLOTS,
            i_counts@.len() == REGISTER_SLOTS,
            forall|reg: int|
                0 <= reg < REGISTER_SLOTS ==> #[trigger] r_counts@[reg] == r_register_uses(
                    instructions@.subrange(0, k as int),
                    reg,
                ),
            forall|reg: int|
                0 <= reg < REGISTER_SLOTS ==> #[trigger] i_counts@[reg] == i_register_uses(
                    instructions@.subrange(0, k as int),
                    reg,
                ),
            forall|reg: int|
                0 <= reg < REGISTER_SLOTS ==> r_counts@[reg] + #[trigger] i_counts@[reg] <= 3 * k,
        decreases n - k,
    {
        let ghost pre = instructions@.subrange(0, k as int);
        let ghost next = instructions@.subrange(0, k + 1);
        assert(next.drop_last() =~= pre);
        let ghost r0 = r_counts@;
        let ghost i0 = i_counts@;
        let w = instructions[k];
        proof {
            lemma_field_ranges(w);
        }
        match instruction_type(&w) {
            InsType::RType(rs, rt, rd, _, _) => {
                assert(r0[rs as int] + i0[rs as int] <= 3 * k);
                assert(r0[rt as int] + i0[rt as int] <= 3 * k);
                assert(r0[rd as int] + i0[rd as int] <= 3 * k);
                let a = rs as usize;
                r_counts.set(a, r_counts[a] + 1);
                let b = rt as usize;
                r_counts.set(b, r_counts[b] + 1);
                let c = rd as usize;
                r_counts.set(c, r_counts[c] + 1);
            },
            InsType::IType(_, rs, rt, _) => {
                assert(r0[rs as int] + i0[rs as int] <= 3 * k);
                assert(r0[rt as int] + i0[rt as int] <= 3 * k);
                let a = rs as usize;
                i_counts.set(a, i_counts[a] + 1);
                let b = rt as usize;
                i_counts.set(b, i_counts[b] + 1);
            },
            InsType::JType(..) => {},
        }
        assert forall|reg: int| 0 <= reg < REGISTER_SLOTS implies #[trigger] r_counts@[reg]
            == r_register_uses(next, reg) && i_counts@[reg] == i_register_uses(next, reg) by {
            assert(r_register_uses(next, reg) == r_register_uses(pre, reg) + r_uses_in(w, reg));
            assert(i_register_uses(next, reg) == i_register_uses(pre, reg) + i_uses_in(w, reg));
            assert(r_counts@[reg] == r0[reg] + r_uses_in(w, reg));
            assert(i_counts@[reg] == i0[reg] + i_uses_in(w, reg));
        }
        k = k + 1;
    }
    assert(instructions@.subrange(0, n as int) =~= instructions@);
    RegisterCounts { r_type: r_counts, i_type: i_counts }
}

} // verus!

use vstd::prelude::*;
use vstd::string::StringExecFns;

verus! {

/// Which report to produce, and whether to print headers and register names.
#[derive(Clone, Copy, PartialEq, Eq, Structural, Debug)]
pub struct ProgramConfig {
    /// `-u`: headers and `$name` register labels.
    pub human_readable: bool,
    /// `-i`: the format table.
    pub instructions: bool,
    /// `-o`: the opcode table.
    pub opcodes: bool,
    /// `-r`: the register table.
    pub registers: bool,
}

/// The configuration before any argument is read: everything off.
pub open spec fn default_config() -> ProgramConfig {
    ProgramConfig { human_readable: false, instructions: false, opcodes: false, registers: false }
}

/// Reading one argument. `-u` turns on human-readable output; a mode flag
/// (`-i`, `-o`, `-r`) takes effect only while no other mode is on.
pub open spec fn apply_arg(c: ProgramConfig, a: Seq<char>) -> ProgramConfig {
    ProgramConfig {
        human_readable: c.human_readable || a == "-u"@,
        instructions: c.instructions || (a == "-i"@ && !c.opcodes && !c.registers),
        opcodes: c.opcodes || (a == "-o"@ && !c.instructions && !c.registers),
        registers: c.registers || (a == "-r"@ && !c.opcodes && !c.instructions),
    }
}

/// The configuration after reading `args` from first to last.
pub open spec fn config_of(args: Seq<Seq<char>>) -> ProgramConfig
    decreases args.len(),
{
    if args.len() == 0 {
        default_config()
    } else {
        apply_arg(config_of(args.drop_last()), args.last())
    }
}

/// At most one report is selected.
pub open spec fn at_most_one_mode(c: ProgramConfig) -> bool {
    (c.instructions as int) + (c.opcodes as int) + (c.registers as int) <= 1
}

proof fn lemma_mode_flags_distinct()
    ensures
        "-i"@ != "-o"@,
        "-i"@ != "-r"@,
        "-o"@ != "-r"@,
{
    reveal_strlit("-i");
    reveal_strlit("-o");
    reveal_strlit("-r");
    assert("-i"@[1] != "-o"@[1]);
    assert("-i"@[1] != "-r"@[1]);
    assert("-o"@[1] != "-r"@[1]);
}

/// Whatever the arguments, at most one report is selected.
pub proof fn lemma_at_most_one_mode(args: Seq<Seq<char>>)
    ensures
        at_most_one_mode(config_of(args)),
    decreases args.len(),
{
    if args.len() > 0 {
        lemma_at_most_one_mode(args.drop_last());
        lemma_mode_flags_distinct();
    }
}

/// The first mode flag wins: once `args` has selected a report, further
/// arguments never change which report is selected.
pub proof fn lemma_first_mode_wins(args: Seq<Seq<char>>, more: Seq<Seq<char>>)
    requires
        config_of(args).instructions || config_of(args).opcodes || config_of(args).registers,
    ensures
        config_of(args + more).instructions == config_of(args).instructions,
        config_of(args + more).opcodes == config_of(args).opcodes,
        config_of(args + more).registers == config_of(args).registers,
    decreases more.len(),
{
    lemma_at_most_one_mode(args);
    if more.len() == 0 {
        assert(args + more =~= args);
    } else {
        lemma_first_mode_wins(args, more.drop_last());
        assert((args + more).drop_last() =~= args + more.drop_last());
    }
}

/// Reads the command-line arguments in order (the program name included, as
/// it comes first) into a configuration.
pub fn parse_args(args: &Vec<String>) -> (config: ProgramConfig)
    ensures
        config == config_of(args@.map_values(|a: String| a@)),
        at_most_one_mode(config),
{
    let ghost texts = args@.map_values(|a: String| a@);
    let flag_u = String::from_str("-u");
    let flag_i = String::from_str("-i");
    let flag_o = String::from_str("-o");
    let flag_r = String::from_str("-r");
    let mut config = ProgramConfig {
        human_readable: false,
        instructions: false,
        opcodes: false,
        registers: false,
    };
    let mut k: usize = 0;
    while k < args.len()
        invariant
            k <= args@.len(),
            texts == args@.map_values(|a: String| a@),
            flag_u@ == "-u"@,
            flag_i@ == "-i"@,
            flag_o@ == "-o"@,
            flag_r@ == "-r"@,
            config == config_of(texts.subrange(0, k as int)),
        decreases args@.len() - k,
    {
        let arg = &args[k];
        proof {
            lemma_mode_flags_distinct();
        }
        assert(texts.subrange(0, k + 1).drop_last() =~= texts.subrange(0, k as int));
        assert(texts.subrange(0, k + 1).last() == arg@);
        if *arg == flag_u {
            config.human_readable = true;
        }
        if *arg == flag_i && !config.opcodes && !config.registers {
            config.instructions = true;
        }
        if *arg == flag_o && !config.instructions && !config.registers {
            config.opcodes = true;
        }
        if *arg == flag_r && !config.opcodes && !config.instructions {
            config.registers = true;
        }
        k = k + 1;
    }
    assert(texts.subrange(0, args@.len() as int) =~= texts);
    proof {
        lemma_at_most_one_mode(texts);
    }
    config
}

} // verus!

use mips_stats::config::{parse_args, ProgramConfig};

fn args(list: &[&str]) -> Vec<String> {
    list.iter().map(|s| s.to_string()).collect()
}

#[test]
fn no_flags_selects_nothing() {
    let c = parse_args(&args(&["prog"]));
    assert_eq!(
        c,
        ProgramConfig { human_readable: false, instructions: false, opcodes: false, registers: false }
    );
}

#[test]
fn first_mode_flag_wins() {
    let c = parse_args(&args(&["prog", "-o", "-i", "-r", "-u"]));
    assert_eq!(
        c,
        ProgramConfig { human_readable: true, instructions: false, opcodes: true, registers: false }
    );
    let c = parse_args(&args(&["prog", "-r", "-o", "-r"]));
    assert!(c.registers && !c.opcodes && !c.instructions && !c.human_readable);
}

#[test]
fn unknown_arguments_are_ignored() {
    let c = parse_args(&args(&["prog", "-x", "-ui", "-i"]));
    assert!(c.instructions && !c.human_readable);
}

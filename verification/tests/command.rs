use vban_autogain::command::{App, Command};

fn parse(line: &str) -> Command {
    App::new().parse_command(line)
}

fn is_error_with_usage(c: &Command) -> bool {
    match c {
        Command::Error(m) => !m.is_empty() && m == App::new().help(),
        _ => false,
    }
}

#[test]
fn empty_line_is_a_nop() {
    assert!(matches!(parse(""), Command::Nop));
    assert!(matches!(parse("   "), Command::Nop));
    assert!(matches!(parse("# just a comment"), Command::Nop));
}

#[test]
fn bare_commands() {
    assert!(matches!(parse("help"), Command::Help));
    assert!(matches!(parse("exit"), Command::Exit));
    assert!(matches!(parse("info"), Command::Info));
}

#[test]
fn bare_commands_take_no_argument() {
    assert!(is_error_with_usage(&parse("help me")));
    assert!(is_error_with_usage(&parse("exit 1")));
    assert!(is_error_with_usage(&parse("info all")));
}

#[test]
fn rm_takes_an_index() {
    assert!(matches!(parse("rm 0"), Command::Rm(0)));
    assert!(matches!(parse("rm 2"), Command::Rm(2)));
    assert!(matches!(parse("rm +7"), Command::Rm(7)));
    assert!(matches!(parse("rm 18446744073709551615"), Command::Rm(usize::MAX)));
}

#[test]
fn rm_refuses_a_bad_index() {
    assert!(is_error_with_usage(&parse("rm")));
    assert!(is_error_with_usage(&parse("rm x")));
    assert!(is_error_with_usage(&parse("rm -1")));
    assert!(is_error_with_usage(&parse("rm 1.5")));
    assert!(is_error_with_usage(&parse("rm 0 1")));
    // one past usize::MAX: the value must fit
    assert!(is_error_with_usage(&parse("rm 18446744073709551616")));
}

#[test]
fn add_carries_the_address_text() {
    match parse("add 127.0.0.1:9001") {
        Command::Add(a) => assert_eq!(a, "127.0.0.1:9001"),
        other => panic!("expected Add, got {:?}", other),
    }
}

#[test]
fn add_honours_shell_quoting() {
    // the tokenizer must strip the quotes; the address keeps its exact value
    match parse("add \"127.0.0.1:9001\"") {
        Command::Add(a) => assert_eq!(a, "127.0.0.1:9001"),
        other => panic!("expected Add, got {:?}", other),
    }
    match parse("add 'with space'") {
        Command::Add(a) => assert_eq!(a, "with space"),
        other => panic!("expected Add, got {:?}", other),
    }
}

#[test]
fn add_takes_exactly_one_argument() {
    assert!(is_error_with_usage(&parse("add")));
    assert!(is_error_with_usage(&parse("add a b")));
}

#[test]
fn unmatched_quote_is_reported_not_fatal() {
    assert!(is_error_with_usage(&parse("add \"127.0.0.1:9001")));
}

#[test]
fn gain_takes_a_decibel_literal() {
    match parse("gain 6") {
        Command::SetGain(g) => {
            assert_eq!(g, "6");
            // the process converts dB to the linear multiplier 10^(dB/20)
            let linear = 10f32.powf(g.parse::<f32>().unwrap() / 20.0);
            assert!((linear - 1.9953).abs() < 1e-3);
        }
        other => panic!("expected SetGain, got {:?}", other),
    }
    assert!(matches!(parse("max 2.5"), Command::SetGainMax(_)));
}

#[test]
fn gain_notanumber_leaves_an_error() {
    assert!(is_error_with_usage(&parse("gain notanumber")));
    assert!(is_error_with_usage(&parse("gain")));
    assert!(is_error_with_usage(&parse("gain 6 7")));
    assert!(is_error_with_usage(&parse("max notanumber")));
}

#[test]
fn gain_literals_agree_with_the_float_parser() {
    let accepted = [
        "6", "-3.5", ".5", "5.", "1e3", "1E-3", "+2", "-0", "3.25e+2", "inf", "INF", "-inf",
        "infinity", "Infinity", "nan", "NaN", "+nan", "5.e2", "1e03", "0008", "+.5", "-.5e-0",
        "340282350000000000000000000000000000000000", "1e99999",
    ];
    for lit in accepted {
        let line = format!("gain {}", lit);
        match App::new().parse_command(&line) {
            Command::SetGain(g) => {
                assert!(g.parse::<f32>().is_ok(), "{} must parse", g);
            }
            other => panic!("expected SetGain for {:?}, got {:?}", lit, other),
        }
    }
    let rejected = [
        "+", "-", ".", "e5", "5e", "abc", "1.2.3", "--5", "1e+", "in", "infin", "nans", "5f",
        "0x10", "1_000", ".e5", "+-5", "1e5.5", "infinityy", "na",
    ];
    for lit in rejected {
        let line = format!("gain {}", lit);
        let c = App::new().parse_command(&line);
        assert!(is_error_with_usage(&c), "{:?} must be refused, got {:?}", lit, c);
        assert!(lit.parse::<f32>().is_err(), "{} must not parse", lit);
    }
}

#[test]
fn unknown_command_reports_usage() {
    assert!(is_error_with_usage(&parse("frobnicate")));
    assert!(is_error_with_usage(&parse("Help")));
}

#[test]
fn help_text_is_not_empty() {
    let app = App::new();
    assert!(!app.help().is_empty());
    assert!(app.help().contains("gain"));
}

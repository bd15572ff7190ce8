//! Option parsing, including the quirks of bundled single-character flags.

use wintime::args::{parse_arg, Opts, ParseStep};

fn strings(words: &[&str]) -> Vec<String> {
    words.iter().map(|w| w.to_string()).collect()
}

#[test]
fn no_arguments_is_done() {
    let mut opts = Opts::default();
    let args: Vec<String> = Vec::new();
    let mut i = 0;
    assert_eq!(parse_arg(&mut opts, &args, &mut i), ParseStep::Done);
    assert_eq!(i, 0);
}

#[test]
fn plain_token_starts_the_command() {
    let mut opts = Opts::default();
    let args = strings(&["cmd", "-a"]);
    let mut i = 0;
    assert_eq!(parse_arg(&mut opts, &args, &mut i), ParseStep::Done);
    assert_eq!(i, 0);
    assert!(!opts.append);
}

#[test]
fn long_output_option_takes_the_next_token() {
    let mut opts = Opts::default();
    let args = strings(&["--output", "times.txt", "cmd"]);
    let mut i = 0;
    assert_eq!(parse_arg(&mut opts, &args, &mut i), ParseStep::More);
    assert_eq!(i, 2);
    assert_eq!(opts.ofile.as_deref(), Some("times.txt"));
    assert!(!opts.append);
}

#[test]
fn short_output_option_takes_the_next_token() {
    let mut opts = Opts::default();
    let args = strings(&["-o", "out.log", "cmd"]);
    let mut i = 0;
    assert_eq!(parse_arg(&mut opts, &args, &mut i), ParseStep::More);
    assert_eq!(i, 2);
    assert_eq!(opts.ofile.as_deref(), Some("out.log"));
}

#[test]
fn output_option_without_a_file_is_missing_its_argument() {
    let mut opts = Opts::default();
    let args = strings(&["-o"]);
    let mut i = 0;
    assert_eq!(
        parse_arg(&mut opts, &args, &mut i),
        ParseStep::MissingArg(String::from("-o"))
    );
    assert_eq!(i, 1);
    assert_eq!(opts.ofile, None);
}

#[test]
fn long_append_option() {
    let mut opts = Opts::default();
    let args = strings(&["--append", "cmd"]);
    let mut i = 0;
    assert_eq!(parse_arg(&mut opts, &args, &mut i), ParseStep::More);
    assert_eq!(i, 1);
    assert!(opts.append);
}

#[test]
fn short_append_flag() {
    let mut opts = Opts::default();
    let args = strings(&["-a", "cmd"]);
    let mut i = 0;
    assert_eq!(parse_arg(&mut opts, &args, &mut i), ParseStep::More);
    assert_eq!(i, 1);
    assert!(opts.append);
}

#[test]
fn help_and_version_requests() {
    let mut opts = Opts::default();
    let args = strings(&["--help"]);
    let mut i = 0;
    assert_eq!(parse_arg(&mut opts, &args, &mut i), ParseStep::Help);

    let args = strings(&["--version"]);
    let mut i = 0;
    assert_eq!(parse_arg(&mut opts, &args, &mut i), ParseStep::Version);

    let args = strings(&["-V", "cmd"]);
    let mut i = 0;
    assert_eq!(parse_arg(&mut opts, &args, &mut i), ParseStep::Version);
}

#[test]
fn unknown_long_option_is_invalid() {
    let mut opts = Opts::default();
    let args = strings(&["--bogus", "cmd"]);
    let mut i = 0;
    assert_eq!(
        parse_arg(&mut opts, &args, &mut i),
        ParseStep::InvalidOpt(String::from("--bogus"))
    );
    assert_eq!(i, 0);
}

#[test]
fn unknown_flag_in_a_bundle_is_invalid() {
    // The append flag before it still consumed a token.
    let mut opts = Opts::default();
    let args = strings(&["-ax", "cmd"]);
    let mut i = 0;
    assert_eq!(parse_arg(&mut opts, &args, &mut i), ParseStep::InvalidFlag('x'));
    assert_eq!(i, 1);
    assert!(opts.append);
}

#[test]
fn version_flag_after_append_flags_wins() {
    let mut opts = Opts::default();
    let args = strings(&["-aV", "cmd"]);
    let mut i = 0;
    assert_eq!(parse_arg(&mut opts, &args, &mut i), ParseStep::Version);
    assert_eq!(i, 1);
    assert!(opts.append);
}

#[test]
fn every_append_flag_in_a_bundle_consumes_a_token() {
    // `-aa` reads as two append requests, and each one moves the cursor: the
    // bundle itself and then the following token are consumed.
    let mut opts = Opts::default();
    let args = strings(&["-aa", "x", "y"]);
    let mut i = 0;
    assert_eq!(parse_arg(&mut opts, &args, &mut i), ParseStep::More);
    assert_eq!(i, 2);
    assert!(opts.append);
}

#[test]
fn lone_dash_consumes_nothing() {
    // A bare dash is an empty flag bundle: the step succeeds without moving
    // the cursor, so a driver that loops on `More` must not see it twice.
    let mut opts = Opts::default();
    let args = strings(&["-", "cmd"]);
    let mut i = 0;
    assert_eq!(parse_arg(&mut opts, &args, &mut i), ParseStep::More);
    assert_eq!(i, 0);
}

#[test]
fn options_stop_at_the_command() {
    let mut opts = Opts::default();
    let args = strings(&["-a", "--output", "f.txt", "cmd", "arg1"]);
    let mut i = 0;
    loop {
        match parse_arg(&mut opts, &args, &mut i) {
            ParseStep::More => continue,
            ParseStep::Done => break,
            step => panic!("unexpected step: {:?}", step),
        }
    }
    assert_eq!(i, 3);
    assert!(opts.append);
    assert_eq!(opts.ofile.as_deref(), Some("f.txt"));
    assert_eq!(&args[i..], &strings(&["cmd", "arg1"])[..]);
}

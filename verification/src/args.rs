//! Option parsing for the command line in front of the target command:
//! `[-aV] [-o file] [--append] [--output file] [--help] [--version]`.
//!
//! Parsing is a step relation: `parse_arg` looks at the token under a cursor
//! into the argument vector, and either consumes an option (`More`), stops at
//! the first token that does not look like an option (`Done`), or reports the
//! request or mistake it found.  The caller loops while the step is `More`;
//! everything from the cursor on is then the command to run.

use vstd::prelude::*;

verus! {

/// The options gathered in front of the command: an output file to write the
/// report to instead of the standard error stream, and whether to append to
/// it rather than truncate it.
pub struct Opts {
    pub ofile: Option<String>,
    pub append: bool,
}

impl Default for Opts {
    /// No output file, truncate rather than append.
    fn default() -> (o: Opts)
        ensures
            o.ofile is None,
            !o.append,
    {
        Opts { ofile: None, append: false }
    }
}

/// What one parsing step found.
#[derive(Debug, PartialEq, Eq)]
pub enum ParseStep {
    /// An option was consumed; parsing goes on.
    More,
    /// The token under the cursor, if any, is not an option: the command
    /// starts here.
    Done,
    /// `--help` was given.
    Help,
    /// `--version` or `-V` was given.
    Version,
    /// An unknown long option; the token is carried for the diagnostic.
    InvalidOpt(String),
    /// An unknown flag character in a bundle such as `-ax`.
    InvalidFlag(char),
    /// An option that needs an argument stood last; the option's own token is
    /// carried for the diagnostic.
    MissingArg(String),
}

/// The token begins with two dashes.
pub open spec fn starts_dash_dash(a: Seq<char>) -> bool {
    a.len() >= 2 && a[0] == '-' && a[1] == '-'
}

/// The token begins with a dash.
pub open spec fn starts_dash(a: Seq<char>) -> bool {
    a.len() >= 1 && a[0] == '-'
}

/// How scanning a flag bundle such as `-aV` from position `j` on ends:
/// either every remaining character asks to append (`Fine`), or a version
/// request or an unknown flag stops the scan.  `consumed` counts the append
/// flags seen on the way, each of which moves the cursor one token — the
/// first one over the bundle itself, later ones over following tokens.
pub enum FlagScan {
    Fine { consumed: nat },
    SawVersion { consumed: nat },
    SawInvalid { consumed: nat, flag: char },
}

/// The same scan outcome with `n` more append flags in front.
pub open spec fn add_consumed(f: FlagScan, n: nat) -> FlagScan {
    match f {
        FlagScan::Fine { consumed } => FlagScan::Fine { consumed: consumed + n },
        FlagScan::SawVersion { consumed } => FlagScan::SawVersion { consumed: consumed + n },
        FlagScan::SawInvalid { consumed, flag } => FlagScan::SawInvalid {
            consumed: consumed + n,
            flag,
        },
    }
}

/// Scanning the flag bundle `a` from position `j` to its end.
pub open spec fn scan_flags(a: Seq<char>, j: int) -> FlagScan
    recommends
        1 <= j,
    decreases a.len() - j,
{
    if j < 1 || j >= a.len() {
        FlagScan::Fine { consumed: 0 }
    } else if a[j] == 'V' {
        FlagScan::SawVersion { consumed: 0 }
    } else if a[j] == 'a' {
        add_consumed(scan_flags(a, j + 1), 1)
    } else {
        FlagScan::SawInvalid { consumed: 0, flag: a[j] }
    }
}

proof fn lemma_add_consumed_twice(f: FlagScan, m: nat, n: nat)
    ensures
        add_consumed(add_consumed(f, m), n) == add_consumed(f, m + n),
{
}

/// A scan that has only seen append flags through position `j` is the scan of
/// the whole bundle, less the flags already counted.
proof fn lemma_scan_prefix(a: Seq<char>, j: int)
    requires
        1 <= j <= a.len(),
        forall|k: int| 1 <= k < j ==> a[k] == 'a',
    ensures
        scan_flags(a, 1) == add_consumed(scan_flags(a, j), (j - 1) as nat),
    decreases j,
{
    if j == 1 {
        assert(add_consumed(scan_flags(a, 1), 0) == scan_flags(a, 1));
    } else {
        assert(a[j - 1] == 'a');
        lemma_scan_prefix(a, j - 1);
        lemma_add_consumed_twice(scan_flags(a, j), 1, (j - 2) as nat);
    }
}

/// Discards a value; used where a step's outcome is already decided.
pub fn ignore<T>(_value: T) {
}

/// Compares two string slices character by character.
fn str_eq(a: &str, b: &str) -> (r: bool)
    ensures
        r == (a@ == b@),
{
    let na = a.unicode_len();
    let nb = b.unicode_len();
    if na != nb {
        return false;
    }
    let mut k: usize = 0;
    while k < na
        invariant
            k <= na,
            na == a@.len(),
            na == b@.len(),
            forall|m: int| 0 <= m < k ==> a@[m] == b@[m],
        decreases na - k,
    {
        if a.get_char(k) != b.get_char(k) {
            return false;
        }
        k = k + 1;
    }
    proof {
        assert(a@ =~= b@);
    }
    true
}

/// Consumes an output-file option and the file name after it.  The cursor
/// must stand on the option's own token; if no token follows it, the option
/// is reported as missing its argument with the cursor spent.
pub fn parse_output(opts: &mut Opts, args: &Vec<String>, i: &mut usize) -> (step: ParseStep)
    requires
        *old(i) < args@.len(),
    ensures
        final(opts).append == old(opts).append,
        ({
            let i0 = *old(i) as int;
            if i0 + 1 < args@.len() {
                &&& step == ParseStep::More
                &&& *final(i) == i0 + 2
                &&& final(opts).ofile == Some(args@[i0 + 1])
            } else {
                &&& step == ParseStep::MissingArg(args@[i0])
                &&& *final(i) == args@.len()
                &&& final(opts).ofile == old(opts).ofile
            }
        }),
{
    let name = args[*i].clone();
    let len = args.len();
    *i = *i + 1;
    if *i >= len {
        ParseStep::MissingArg(name)
    } else {
        opts.ofile = Some(args[*i].clone());
        *i = *i + 1;
        ParseStep::More
    }
}

/// Consumes one token, if any is left, and turns appending on.
pub fn parse_append(opts: &mut Opts, args: &Vec<String>, i: &mut usize) -> (step: ParseStep)
    ensures
        step == ParseStep::More,
        final(opts).append,
        final(opts).ofile == old(opts).ofile,
        *final(i) == if *old(i) < args@.len() {
            *old(i) + 1
        } else {
            *old(i) as int
        },
{
    if *i < args.len() {
        *i = *i + 1;
    }
    opts.append = true;
    ParseStep::More
}

/// One parsing step at the cursor, exactly as the usage line reads.  A token
/// of two dashes names a long option; a token of one dash is either `-o` or a
/// bundle of single-character flags, where `V` asks for the version, `a` asks
/// to append and — like every append flag — moves the cursor one token, and
/// anything else is invalid; any other token, or no token, ends parsing.
#[verifier::loop_isolation(false)]
pub fn parse_arg(opts: &mut Opts, args: &Vec<String>, i: &mut usize) -> (step: ParseStep)
    ensures
        ({
            let len = args@.len() as int;
            let i0 = *old(i) as int;
            if i0 >= len {
                &&& step == ParseStep::Done
                &&& *final(opts) == *old(opts)
                &&& *final(i) == i0
            } else {
                let a = args@[i0]@;
                if a == "--output"@ || a == "-o"@ {
                    &&& final(opts).append == old(opts).append
                    &&& if i0 + 1 < len {
                        &&& step == ParseStep::More
                        &&& *final(i) == i0 + 2
                        &&& final(opts).ofile == Some(args@[i0 + 1])
                    } else {
                        &&& step == ParseStep::MissingArg(args@[i0])
                        &&& *final(i) == len
                        &&& final(opts).ofile == old(opts).ofile
                    }
                } else if a == "--help"@ {
                    &&& step == ParseStep::Help
                    &&& *final(opts) == *old(opts)
                    &&& *final(i) == i0
                } else if a == "--version"@ {
                    &&& step == ParseStep::Version
                    &&& *final(opts) == *old(opts)
                    &&& *final(i) == i0
                } else if a == "--append"@ {
                    &&& step == ParseStep::More
                    &&& final(opts).append
                    &&& final(opts).ofile == old(opts).ofile
                    &&& *final(i) == i0 + 1
                } else if starts_dash_dash(a) {
                    &&& step == ParseStep::InvalidOpt(args@[i0])
                    &&& *final(opts) == *old(opts)
                    &&& *final(i) == i0
                } else if starts_dash(a) {
                    let update_ok = (|consumed: nat|
                        {
                            &&& *final(i) == if i0 + consumed < len {
                                i0 + consumed
                            } else {
                                len
                            }
                            &&& final(opts).append == (old(opts).append || consumed >= 1)
                            &&& final(opts).ofile == old(opts).ofile
                        });
                    match scan_flags(a, 1) {
                        FlagScan::Fine { consumed } => step == ParseStep::More && update_ok(
                            consumed,
                        ),
                        FlagScan::SawVersion { consumed } => step == ParseStep::Version
                            && update_ok(consumed),
                        FlagScan::SawInvalid { consumed, flag } => step == ParseStep::InvalidFlag(
                            flag,
                        ) && update_ok(consumed),
                    }
                } else {
                    &&& step == ParseStep::Done
                    &&& *final(opts) == *old(opts)
                    &&& *final(i) == i0
                }
            }
        }),
{
    proof {
        reveal_strlit("--output");
        reveal_strlit("--help");
        reveal_strlit("--version");
        reveal_strlit("--append");
        reveal_strlit("-o");
    }
    if *i >= args.len() {
        return ParseStep::Done;
    }
    let arg = &args[*i];
    let a = arg.as_str();
    let n = a.unicode_len();
    if n >= 2 && a.get_char(0) == '-' && a.get_char(1) == '-' {
        if str_eq(a, "--output") {
            parse_output(opts, args, i)
        } else if str_eq(a, "--help") {
            ParseStep::Help
        } else if str_eq(a, "--version") {
            ParseStep::Version
        } else if str_eq(a, "--append") {
            parse_append(opts, args, i)
        } else {
            ParseStep::InvalidOpt(arg.clone())
        }
    } else if n >= 1 && a.get_char(0) == '-' {
        if str_eq(a, "-o") {
            parse_output(opts, args, i)
        } else {
            let ghost i0 = *i as int;
            let mut j: usize = 1;
            while j < n
                invariant
                    1 <= j <= n,
                    n == a@.len(),
                    i0 < args@.len(),
                    forall|k: int| 1 <= k < j ==> a@[k] == 'a',
                    *i == if i0 + (j - 1) < args@.len() {
                        i0 + (j - 1)
                    } else {
                        args@.len() as int
                    },
                    opts.append == (old(opts).append || j > 1),
                    opts.ofile == old(opts).ofile,
                decreases n - j,
            {
                let c = a.get_char(j);
                if c == 'V' {
                    proof {
                        lemma_scan_prefix(a@, j as int);
                    }
                    return ParseStep::Version;
                } else if c == 'a' {
                    ignore(parse_append(opts, args, i));
                } else {
                    proof {
                        lemma_scan_prefix(a@, j as int);
                    }
                    return ParseStep::InvalidFlag(c);
                }
                j = j + 1;
            }
            proof {
                lemma_scan_prefix(a@, n as int);
            }
            ParseStep::More
        }
    } else {
        ParseStep::Done
    }
}

} // verus!

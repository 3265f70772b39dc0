//! Command-line options. The arguments are read left to right; a help,
//! version or upgrade flag ends the scan, an option that takes a value
//! consumes the argument after it, and anything unknown is skipped.

use vstd::prelude::*;

use crate::text::{chars_of, parse_u64, parse_u64_chars, str_eq, string_of};

verus! {

/// Where the Linux ARC statistics are read from unless `--source` says
/// otherwise.
pub const DEFAULT_SOURCE: &'static str = "/proc/spl/kstat/zfs/arcstats";

/// Polling interval in milliseconds unless `--interval` says otherwise.
pub const DEFAULT_INTERVAL_MS: u64 = 1000;

/// What the command line asks for.
#[derive(Debug)]
pub enum CliCommand {
    /// Run the dashboard with these settings.
    Run { source: String, meminfo: Option<String>, interval_ms: u64 },
    /// Print the usage text and exit.
    Help,
    /// Print the version and exit.
    Version,
    /// Print how to upgrade and exit.
    Upgrade,
}

/// `CliCommand` with its strings taken by their characters.
pub enum CliModel {
    Run { source: Seq<char>, meminfo: Option<Seq<char>>, interval_ms: u64 },
    Help,
    Version,
    Upgrade,
}

pub open spec fn command_view(c: CliCommand) -> CliModel {
    match c {
        CliCommand::Run { source, meminfo, interval_ms } => CliModel::Run {
            source: source@,
            meminfo: match meminfo {
                Some(m) => Some(m@),
                None => None,
            },
            interval_ms,
        },
        CliCommand::Help => CliModel::Help,
        CliCommand::Version => CliModel::Version,
        CliCommand::Upgrade => CliModel::Upgrade,
    }
}

pub open spec fn args_view(args: Seq<String>) -> Seq<Seq<char>> {
    args.map_values(|s: String| s@)
}

/// The command that arguments `a[i..]` give, with the settings read so far.
pub open spec fn scan_args(
    a: Seq<Seq<char>>,
    i: int,
    source: Seq<char>,
    meminfo: Option<Seq<char>>,
    interval_ms: u64,
) -> CliModel
    decreases a.len() - i,
{
    if i < 0 || i >= a.len() {
        CliModel::Run { source, meminfo, interval_ms }
    } else if a[i] == "-h"@ || a[i] == "--help"@ {
        CliModel::Help
    } else if a[i] == "-V"@ || a[i] == "--version"@ {
        CliModel::Version
    } else if a[i] == "-U"@ || a[i] == "--upgrade"@ {
        CliModel::Upgrade
    } else if a[i] == "--source"@ && i + 1 < a.len() {
        scan_args(a, i + 2, a[i + 1], meminfo, interval_ms)
    } else if a[i] == "--meminfo"@ && i + 1 < a.len() {
        scan_args(a, i + 2, source, Some(a[i + 1]), interval_ms)
    } else if (a[i] == "--interval"@ || a[i] == "-n"@) && i + 1 < a.len() {
        scan_args(
            a,
            i + 2,
            source,
            meminfo,
            match parse_u64(a[i + 1]) {
                Some(ms) => ms,
                None => interval_ms,
            },
        )
    } else {
        scan_args(a, i + 1, source, meminfo, interval_ms)
    }
}

/// The command `std::env::args()` asks for; `args[0]` is the program
/// name. An interval that does not parse as a `u64` keeps the previous
/// one; an option missing its value is ignored.
pub fn parse_cli(args: &Vec<String>) -> (r: CliCommand)
    ensures
        command_view(r) == scan_args(
            args_view(args@),
            1,
            DEFAULT_SOURCE@,
            None,
            DEFAULT_INTERVAL_MS,
        ),
{
    let ghost a = args_view(args@);
    let mut source = string_of(DEFAULT_SOURCE);
    let mut meminfo: Option<String> = None;
    let mut interval_ms: u64 = DEFAULT_INTERVAL_MS;
    let mut i: usize = 1;
    while i < args.len()
        invariant
            a == args_view(args@),
            a.len() == args@.len(),
            1 <= i,
            scan_args(a, 1, DEFAULT_SOURCE@, None, DEFAULT_INTERVAL_MS) == scan_args(
                a,
                i as int,
                source@,
                match meminfo {
                    Some(m) => Some(m@),
                    None => None,
                },
                interval_ms,
            ),
        decreases args@.len() - i,
    {
        let arg = args[i].as_str();
        assert(a[i as int] == arg@);
        if str_eq(arg, "-h") || str_eq(arg, "--help") {
            return CliCommand::Help;
        }
        if str_eq(arg, "-V") || str_eq(arg, "--version") {
            return CliCommand::Version;
        }
        if str_eq(arg, "-U") || str_eq(arg, "--upgrade") {
            return CliCommand::Upgrade;
        }
        let has_value = i + 1 < args.len();
        if has_value {
            assert(a[i + 1] == args@[i + 1]@);
        }
        if str_eq(arg, "--source") && has_value {
            source = string_of(args[i + 1].as_str());
            i = i + 2;
        } else if str_eq(arg, "--meminfo") && has_value {
            meminfo = Some(string_of(args[i + 1].as_str()));
            i = i + 2;
        } else if (str_eq(arg, "--interval") || str_eq(arg, "-n")) && has_value {
            let v = chars_of(args[i + 1].as_str());
            assert(v@.subrange(0, v@.len() as int) =~= v@);
            match parse_u64_chars(&v, 0, v.len()) {
                Some(ms) => {
                    interval_ms = ms;
                },
                None => {},
            }
            i = i + 2;
        } else {
            i = i + 1;
        }
    }
    CliCommand::Run { source, meminfo, interval_ms }
}

/// When the scan reaches `--help` or `-h` (an argument that is not taken
/// as an option's value), the command is Help, whatever came before it and
/// whatever follows.
pub proof fn lemma_help_flag_asks_for_help(
    a: Seq<Seq<char>>,
    i: int,
    source: Seq<char>,
    meminfo: Option<Seq<char>>,
    interval_ms: u64,
)
    requires
        0 <= i < a.len(),
        a[i] == "--help"@ || a[i] == "-h"@,
    ensures
        scan_args(a, i, source, meminfo, interval_ms) is Help,
{
}

/// `zfstop --help` and `zfstop -h`, with anything after the flag, show the
/// help.
pub proof fn lemma_command_line_help(args: Seq<String>)
    requires
        args.len() >= 2,
        args[1]@ == "--help"@ || args[1]@ == "-h"@,
    ensures
        scan_args(args_view(args), 1, DEFAULT_SOURCE@, None, DEFAULT_INTERVAL_MS) is Help,
{
    assert(args_view(args)[1] == args[1]@);
    lemma_help_flag_asks_for_help(args_view(args), 1, DEFAULT_SOURCE@, None, DEFAULT_INTERVAL_MS);
}

} // verus!

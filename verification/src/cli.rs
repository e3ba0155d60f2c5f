//! The launcher's command line.
//!
//! | Short | Long            | Required | Meaning                  |
//! |-------|-----------------|----------|--------------------------|
//! | `-l`  | `--local-port`  | yes      | local port               |
//! | `-r`  | `--remote-port` | yes      | remote port              |
//! | `-h`  | `--host`        | yes      | remote address           |
//! | `-b`  | `--bind`        | no       | local bind address       |
//! | `-d`  | `--debug`       | no       | debug mode (flag only)   |
//! | `-t`  | `--tcp`         | no       | TCP mode (flag only)     |
//! | `-u`  | `--udp`         | no       | UDP mode (flag only)     |

use vstd::prelude::*;
use vstd::string::*;
use crate::mode::InputError;
use crate::options::{
    add_flag,
    add_optional,
    add_required,
    declared_groups,
    defines,
    first_value,
    is_plain,
    occurrences,
    parse,
    parse_outcome,
    usage_rendering,
    Occurrences,
    OptionGroup,
};
use crate::request::{invocation_from, invocation_of, outcome_view, Flags, FlagsView, Invocation, InvocationView};

verus! {

/// The option groups of the launcher.
pub open spec fn cli_table() -> Seq<OptionGroup> {
    seq![
        OptionGroup {
            short: "l"@,
            long: "local-port"@,
            description: "The local port to which udpproxy should bind to"@,
            hint: "LOCAL_PORT"@,
            takes_value: true,
            required: true,
        },
        OptionGroup {
            short: "r"@,
            long: "remote-port"@,
            description: "The remote port to which UDP packets should be forwarded"@,
            hint: "REMOTE_PORT"@,
            takes_value: true,
            required: true,
        },
        OptionGroup {
            short: "h"@,
            long: "host"@,
            description: "The remote address to which packets will be forwarded"@,
            hint: "REMOTE_ADDR"@,
            takes_value: true,
            required: true,
        },
        OptionGroup {
            short: "b"@,
            long: "bind"@,
            description: "The address on which to listen for incoming requests"@,
            hint: "BIND_ADDR"@,
            takes_value: true,
            required: false,
        },
        OptionGroup {
            short: "d"@,
            long: "debug"@,
            description: "Enable debug mode"@,
            hint: Seq::empty(),
            takes_value: false,
            required: false,
        },
        OptionGroup {
            short: "t"@,
            long: "tcp"@,
            description: "Run in TCP proxy mode"@,
            hint: Seq::empty(),
            takes_value: false,
            required: false,
        },
        OptionGroup {
            short: "u"@,
            long: "udp"@,
            description: "Run in UDP proxy mode"@,
            hint: Seq::empty(),
            takes_value: false,
            required: false,
        },
    ]
}

/// Declares the launcher's options.
fn cli_options() -> (options: getopts::Options)
    ensures
        declared_groups(options) == cli_table(),
        is_plain(options),
{
    proof {
        reveal_strlit("l");
        reveal_strlit("local-port");
        reveal_strlit("r");
        reveal_strlit("remote-port");
        reveal_strlit("h");
        reveal_strlit("host");
        reveal_strlit("b");
        reveal_strlit("bind");
        reveal_strlit("d");
        reveal_strlit("debug");
        reveal_strlit("t");
        reveal_strlit("tcp");
        reveal_strlit("u");
        reveal_strlit("udp");
    }
    let mut options = getopts::Options::new();
    add_required(
        &mut options,
        "l",
        "local-port",
        "The local port to which udpproxy should bind to",
        "LOCAL_PORT",
    );
    add_required(
        &mut options,
        "r",
        "remote-port",
        "The remote port to which UDP packets should be forwarded",
        "REMOTE_PORT",
    );
    add_required(
        &mut options,
        "h",
        "host",
        "The remote address to which packets will be forwarded",
        "REMOTE_ADDR",
    );
    add_optional(
        &mut options,
        "b",
        "bind",
        "The address on which to listen for incoming requests",
        "BIND_ADDR",
    );
    add_flag(&mut options, "d", "debug", "Enable debug mode");
    add_flag(&mut options, "t", "tcp", "Run in TCP proxy mode");
    add_flag(&mut options, "u", "udp", "Run in UDP proxy mode");
    options
}

/// The value that the first occurrence of the option `name` carried.
pub open spec fn value_of(found: Occurrences, name: Seq<char>) -> Option<Seq<char>> {
    first_value(found[name])
}

/// Whether the option `name` occurred at all.
pub open spec fn is_given(found: Occurrences, name: Seq<char>) -> bool {
    found[name].len() > 0
}

/// The launcher's flags among the occurrences that a parse found.
pub open spec fn flags_of(found: Occurrences) -> FlagsView {
    FlagsView {
        local_port: value_of(found, "l"@),
        remote_port: value_of(found, "r"@),
        remote_host: value_of(found, "h"@),
        bind_address: value_of(found, "b"@),
        debug: is_given(found, "d"@),
        tcp: is_given(found, "t"@),
        udp: is_given(found, "u"@),
    }
}

/// What the outcome of a parse amounts to: a failed parse is a usage error,
/// a successful one is judged by the flags it found.
pub open spec fn command_line_meaning(outcome: Option<Occurrences>) -> Result<InvocationView, InputError> {
    match outcome {
        None => Err(InputError::Usage),
        Some(found) => invocation_of(flags_of(found)),
    }
}

/// Every option of the launcher has a short name.
proof fn lemma_short_names()
    ensures
        forall|i: int| 0 <= i < cli_table().len() ==> (#[trigger] cli_table()[i]).short.len() == 1,
{
    reveal_strlit("l");
    reveal_strlit("r");
    reveal_strlit("h");
    reveal_strlit("b");
    reveal_strlit("d");
    reveal_strlit("t");
    reveal_strlit("u");
}

/// Reads the launcher's flags out of the matches of a successful parse.
fn read_flags(matches: &getopts::Matches) -> (flags: Flags)
    requires
        forall|i: int| 0 <= i < cli_table().len() ==> defines(occurrences(*matches), #[trigger] cli_table()[i]),
    ensures
        flags@ == flags_of(occurrences(*matches)),
{
    proof {
        lemma_short_names();
        assert(defines(occurrences(*matches), cli_table()[0]));
        assert(defines(occurrences(*matches), cli_table()[1]));
        assert(defines(occurrences(*matches), cli_table()[2]));
        assert(defines(occurrences(*matches), cli_table()[3]));
        assert(defines(occurrences(*matches), cli_table()[4]));
        assert(defines(occurrences(*matches), cli_table()[5]));
        assert(defines(occurrences(*matches), cli_table()[6]));
    }
    Flags {
        local_port: matches.opt_str("l"),
        remote_port: matches.opt_str("r"),
        remote_host: matches.opt_str("h"),
        bind_address: matches.opt_str("b"),
        debug: matches.opt_present("d"),
        tcp: matches.opt_present("t"),
        udp: matches.opt_present("u"),
    }
}

/// Parses the arguments that follow the program name. Arguments that the
/// parser refuses are a usage error; what it accepts is validated as
/// [`invocation_from`] does.
pub fn parse_command_line(args: &Vec<String>) -> (r: Result<Invocation, InputError>)
    ensures
        outcome_view(r) == command_line_meaning(parse_outcome(cli_table(), args.deep_view())),
{
    let options = cli_options();
    proof {
        lemma_short_names();
    }
    match parse(&options, args) {
        Ok(matches) => invocation_from(read_flags(&matches)),
        Err(_) => Err(InputError::Usage),
    }
}

/// The first line of the usage message of a launcher called `launcher`.
pub open spec fn usage_brief_text(launcher: Seq<char>) -> Seq<char> {
    "Usage: "@ + launcher + " [-b BIND_ADDR] -l LOCAL_PORT -h REMOTE_ADDR -r REMOTE_PORT"@
}

/// Builds the first line of the usage message.
pub fn usage_brief(launcher: &str) -> (brief: String)
    ensures
        brief@ == usage_brief_text(launcher@),
{
    "Usage: ".to_owned().concat(launcher).concat(
        " [-b BIND_ADDR] -l LOCAL_PORT -h REMOTE_ADDR -r REMOTE_PORT",
    )
}

/// Renders the usage message: the first line, then one entry for each
/// option.
pub fn usage_text(launcher: &str) -> (text: String)
    ensures
        text@ == usage_rendering(cli_table(), usage_brief_text(launcher@)),
{
    let brief = usage_brief(launcher);
    cli_options().usage(brief.as_str())
}

} // verus!

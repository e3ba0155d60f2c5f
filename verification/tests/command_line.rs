use proxy_launcher::cli::{parse_command_line, usage_brief, usage_text};
use proxy_launcher::mode::{select_mode, InputError, ProxyMode};
use proxy_launcher::request::{invocation_from, Flags, Invocation, LaunchRequest};

fn args(items: &[&str]) -> Vec<String> {
    items.iter().map(|s| s.to_string()).collect()
}

fn request(local_port: &str, remote_port: &str, remote_host: &str) -> LaunchRequest {
    LaunchRequest {
        local_port: local_port.to_string(),
        remote_host: remote_host.to_string(),
        remote_port: remote_port.to_string(),
        bind_address: None,
        debug: false,
    }
}

fn flags() -> Flags {
    Flags {
        local_port: Some("9999".to_string()),
        remote_port: Some("8888".to_string()),
        remote_host: Some("10.0.0.1".to_string()),
        bind_address: None,
        debug: false,
        tcp: false,
        udp: false,
    }
}

#[test]
fn no_mode_flag_selects_tcp() {
    assert_eq!(select_mode(false, false), Ok(ProxyMode::Tcp));
}

#[test]
fn tcp_flag_selects_tcp() {
    assert_eq!(select_mode(true, false), Ok(ProxyMode::Tcp));
}

#[test]
fn udp_flag_selects_udp() {
    assert_eq!(select_mode(false, true), Ok(ProxyMode::Udp));
}

#[test]
fn both_mode_flags_select_nothing() {
    assert_eq!(select_mode(true, true), Err(InputError::ModeConflict));
}

#[test]
fn delegates_are_named_after_their_mode() {
    assert_eq!(ProxyMode::Tcp.executable_name(), "tcpproxy");
    assert_eq!(ProxyMode::Udp.executable_name(), "udpproxy");
}

#[test]
fn required_options_give_a_tcp_invocation() {
    let parsed = parse_command_line(&args(&["-l", "9999", "-r", "8888", "-h", "10.0.0.1"]));
    assert_eq!(
        parsed,
        Ok(Invocation { mode: ProxyMode::Tcp, request: request("9999", "8888", "10.0.0.1") })
    );
}

#[test]
fn long_options_are_read_like_short_ones() {
    let parsed = parse_command_line(&args(&[
        "--local-port",
        "9999",
        "--remote-port=8888",
        "--host",
        "10.0.0.1",
        "--bind",
        "127.0.0.1",
        "--debug",
        "--udp",
    ]));
    let mut expected = request("9999", "8888", "10.0.0.1");
    expected.bind_address = Some("127.0.0.1".to_string());
    expected.debug = true;
    assert_eq!(parsed, Ok(Invocation { mode: ProxyMode::Udp, request: expected }));
}

#[test]
fn a_value_may_follow_its_short_option_directly() {
    let parsed = parse_command_line(&args(&["-l9999", "-r8888", "-h10.0.0.1", "-t"]));
    assert_eq!(
        parsed,
        Ok(Invocation { mode: ProxyMode::Tcp, request: request("9999", "8888", "10.0.0.1") })
    );
}

#[test]
fn bind_address_and_debug_are_optional() {
    let parsed = parse_command_line(&args(&[
        "-b",
        "127.0.0.1",
        "-l",
        "9999",
        "-h",
        "10.0.0.1",
        "-r",
        "8888",
        "-d",
    ]));
    let mut expected = request("9999", "8888", "10.0.0.1");
    expected.bind_address = Some("127.0.0.1".to_string());
    expected.debug = true;
    assert_eq!(parsed, Ok(Invocation { mode: ProxyMode::Tcp, request: expected }));
}

#[test]
fn udp_flag_gives_a_udp_invocation() {
    let parsed = parse_command_line(&args(&["-u", "-l", "1", "-r", "2", "-h", "example.org"]));
    assert_eq!(
        parsed,
        Ok(Invocation { mode: ProxyMode::Udp, request: request("1", "2", "example.org") })
    );
}

#[test]
fn both_mode_flags_conflict() {
    let parsed = parse_command_line(&args(&["-l", "1", "-r", "2", "-h", "x", "-t", "-u"]));
    assert_eq!(parsed, Err(InputError::ModeConflict));
}

#[test]
fn a_missing_required_option_is_a_usage_error() {
    assert_eq!(parse_command_line(&args(&["-r", "2", "-h", "x"])), Err(InputError::Usage));
    assert_eq!(parse_command_line(&args(&["-l", "1", "-h", "x"])), Err(InputError::Usage));
    assert_eq!(parse_command_line(&args(&["-l", "1", "-r", "2"])), Err(InputError::Usage));
    assert_eq!(parse_command_line(&args(&[])), Err(InputError::Usage));
}

#[test]
fn a_missing_required_option_is_reported_before_a_mode_conflict() {
    assert_eq!(parse_command_line(&args(&["-t", "-u"])), Err(InputError::Usage));
}

#[test]
fn malformed_arguments_are_a_usage_error() {
    let unknown = parse_command_line(&args(&["-l", "1", "-r", "2", "-h", "x", "-z"]));
    assert_eq!(unknown, Err(InputError::Usage));
    let no_value = parse_command_line(&args(&["-r", "2", "-h", "x", "-l"]));
    assert_eq!(no_value, Err(InputError::Usage));
    let twice = parse_command_line(&args(&["-l", "1", "-l", "3", "-r", "2", "-h", "x"]));
    assert_eq!(twice, Err(InputError::Usage));
    let flag_with_value = parse_command_line(&args(&["-l", "1", "-r", "2", "-h", "x", "--debug=yes"]));
    assert_eq!(flag_with_value, Err(InputError::Usage));
}

#[test]
fn free_arguments_are_ignored() {
    let parsed = parse_command_line(&args(&["extra", "-l", "1", "-r", "2", "-h", "x", "more"]));
    assert_eq!(parsed, Ok(Invocation { mode: ProxyMode::Tcp, request: request("1", "2", "x") }));
}

#[test]
fn complete_flags_make_an_invocation() {
    let mut supplied = flags();
    supplied.bind_address = Some("127.0.0.1".to_string());
    supplied.debug = true;
    supplied.udp = true;
    let mut expected = request("9999", "8888", "10.0.0.1");
    expected.bind_address = Some("127.0.0.1".to_string());
    expected.debug = true;
    assert_eq!(invocation_from(supplied), Ok(Invocation { mode: ProxyMode::Udp, request: expected }));
}

#[test]
fn flags_without_a_required_value_are_a_usage_error() {
    let mut supplied = flags();
    supplied.local_port = None;
    assert_eq!(invocation_from(supplied), Err(InputError::Usage));
    let mut supplied = flags();
    supplied.remote_port = None;
    assert_eq!(invocation_from(supplied), Err(InputError::Usage));
    let mut supplied = flags();
    supplied.remote_host = None;
    assert_eq!(invocation_from(supplied), Err(InputError::Usage));
}

#[test]
fn conflicting_flags_are_reported_before_a_missing_value() {
    let mut supplied = flags();
    supplied.tcp = true;
    supplied.udp = true;
    supplied.local_port = None;
    assert_eq!(invocation_from(supplied), Err(InputError::ModeConflict));
}

#[test]
fn usage_brief_names_the_program() {
    assert_eq!(
        usage_brief("launcher"),
        "Usage: launcher [-b BIND_ADDR] -l LOCAL_PORT -h REMOTE_ADDR -r REMOTE_PORT"
    );
    assert_eq!(
        usage_brief(""),
        "Usage:  [-b BIND_ADDR] -l LOCAL_PORT -h REMOTE_ADDR -r REMOTE_PORT"
    );
}

#[test]
fn usage_text_lists_every_option() {
    let lines = [
        "Usage: launcher [-b BIND_ADDR] -l LOCAL_PORT -h REMOTE_ADDR -r REMOTE_PORT",
        "",
        "Options:",
        "    -l, --local-port LOCAL_PORT",
        "                        The local port to which udpproxy should bind to",
        "    -r, --remote-port REMOTE_PORT",
        "                        The remote port to which UDP packets should be",
        "                        forwarded",
        "    -h, --host REMOTE_ADDR",
        "                        The remote address to which packets will be forwarded",
        "    -b, --bind BIND_ADDR",
        "                        The address on which to listen for incoming requests",
        "    -d, --debug         Enable debug mode",
        "    -t, --tcp           Run in TCP proxy mode",
        "    -u, --udp           Run in UDP proxy mode",
        "",
    ];
    assert_eq!(usage_text("launcher"), lines.join("\n"));
}

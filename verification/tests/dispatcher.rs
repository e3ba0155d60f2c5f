use proxy_launcher::dispatch::{Action, Command, Dispatcher, Event};
use proxy_launcher::failure::{Failure, Program, FATAL_EXIT_CODE};
use proxy_launcher::mode::{InputError, ProxyMode};
use proxy_launcher::request::{Invocation, LaunchRequest};
use proxy_launcher::resolver::ExecutableRef;

fn strings(items: &[&str]) -> Vec<String> {
    items.iter().map(|s| s.to_string()).collect()
}

fn place(directory: &str, file_name: &str) -> ExecutableRef {
    ExecutableRef { directory: directory.to_string(), file_name: file_name.to_string() }
}

fn command(program: &str, arguments: &[&str]) -> Command {
    Command { program: program.to_string(), arguments: strings(arguments) }
}

const REQUIRED: [&str; 6] = ["-l", "9999", "-r", "8888", "-h", "10.0.0.1"];

/// A stand-in for the file system and the operating system.
struct World {
    /// The places that hold a file.
    existing: Vec<ExecutableRef>,
    /// The place that holds a file once the package manager has run.
    installed: Option<ExecutableRef>,
    /// What starting the package manager leads to.
    installer: Event,
    /// What starting the delegate leads to.
    delegate: Event,
}

/// What a launch did, as its driver saw it.
#[derive(Debug, PartialEq)]
struct Run {
    probed: Vec<ExecutableRef>,
    spawned: Vec<Command>,
    code: i32,
    failure: Option<Failure>,
}

/// Drives a launch to its end in `world`.
fn run(args: &[&str], search_path: &str, windows: bool, mut world: World) -> Run {
    let (mut state, mut action) = Dispatcher::start(&strings(args), search_path, "/work", windows);
    let mut probed = Vec::new();
    let mut spawned = Vec::new();
    loop {
        let event = match action {
            Action::Probe(candidate) => {
                let exists = world.existing.contains(&candidate);
                probed.push(candidate);
                Event::Probed(exists)
            }
            Action::Spawn { command, resolved } => {
                assert!(world.existing.contains(&resolved));
                let event = if command.program == "cargo" {
                    world.existing.extend(world.installed.take());
                    world.installer
                } else {
                    world.delegate
                };
                spawned.push(command);
                event
            }
            Action::Exit { code, failure } => {
                assert!(!state.awaits(&Event::Probed(true)));
                assert!(!state.awaits(&Event::SpawnFailed));
                assert!(!state.awaits(&Event::Exited(Some(0))));
                return Run { probed, spawned, code, failure };
            }
        };
        assert!(state.awaits(&event));
        let next = state.step(event);
        state = next.0;
        action = next.1;
    }
}

fn world(existing: &[ExecutableRef]) -> World {
    World {
        existing: existing.to_vec(),
        installed: None,
        installer: Event::Exited(Some(0)),
        delegate: Event::Exited(Some(0)),
    }
}

#[test]
fn present_delegate_is_started_and_its_status_forwarded() {
    let mut os = world(&[place("/b", "tcpproxy")]);
    os.delegate = Event::Exited(Some(7));
    let done = run(&REQUIRED, "/a:/b", false, os);
    assert_eq!(
        done,
        Run {
            probed: vec![place("/a", "tcpproxy"), place("/b", "tcpproxy")],
            spawned: vec![command("tcpproxy", &REQUIRED)],
            code: 7,
            failure: None,
        }
    );
}

#[test]
fn clean_exit_of_the_delegate_is_a_clean_exit() {
    let done = run(&REQUIRED, "/a:/b", false, world(&[place("/a", "tcpproxy")]));
    assert_eq!(done.code, 0);
    assert_eq!(done.failure, None);
    assert_eq!(done.probed, vec![place("/a", "tcpproxy")]);
}

#[test]
fn negative_status_of_the_delegate_is_forwarded() {
    let mut os = world(&[place("/a", "tcpproxy")]);
    os.delegate = Event::Exited(Some(-1));
    let done = run(&REQUIRED, "/a:/b", false, os);
    assert_eq!(done.code, -1);
    assert_eq!(done.failure, None);
}

#[test]
fn udp_launch_starts_the_udp_delegate_with_all_arguments() {
    let args = ["-u", "-d", "-b", "127.0.0.1", "-l", "53", "-h", "resolver.example", "-r", "5353"];
    let done = run(&args, "/a", false, world(&[place("/work", "udpproxy")]));
    let expected = ["-l", "53", "-r", "5353", "-h", "resolver.example", "-b", "127.0.0.1", "-d"];
    assert_eq!(
        done,
        Run {
            probed: vec![place("/a", "udpproxy"), place("/work", "udpproxy")],
            spawned: vec![command("udpproxy", &expected)],
            code: 0,
            failure: None,
        }
    );
}

#[test]
fn windows_launch_looks_for_files_with_suffix() {
    let done = run(&REQUIRED, "C;D", true, world(&[place("D", "tcpproxy.exe")]));
    assert_eq!(done.probed, vec![place("C", "tcpproxy.exe"), place("D", "tcpproxy.exe")]);
    assert_eq!(done.spawned, vec![command("tcpproxy", &REQUIRED)]);
}

#[test]
fn absent_delegate_is_not_started_when_provisioning_does_not_help() {
    let done = run(&REQUIRED, "/a:/b", false, world(&[place("/b", "cargo")]));
    assert_eq!(
        done,
        Run {
            probed: vec![
                place("/a", "tcpproxy"),
                place("/b", "tcpproxy"),
                place("/work", "tcpproxy"),
                place("/a", "cargo"),
                place("/b", "cargo"),
                place("/a", "tcpproxy"),
                place("/b", "tcpproxy"),
                place("/work", "tcpproxy"),
            ],
            spawned: vec![command("cargo", &["install", "tcpproxy"])],
            code: FATAL_EXIT_CODE,
            failure: Some(Failure::ProvisionFailure(ProxyMode::Tcp)),
        }
    );
}

#[test]
fn failed_install_is_found_out_by_the_second_search() {
    let mut os = world(&[place("/b", "cargo")]);
    os.installer = Event::Exited(Some(101));
    let done = run(&REQUIRED, "/a:/b", false, os);
    assert_eq!(done.spawned, vec![command("cargo", &["install", "tcpproxy"])]);
    assert_eq!(done.code, FATAL_EXIT_CODE);
    assert_eq!(done.failure, Some(Failure::ProvisionFailure(ProxyMode::Tcp)));
}

#[test]
fn provisioned_delegate_is_started() {
    let mut os = world(&[place("/a", "cargo")]);
    os.installed = Some(place("/b", "udpproxy"));
    os.installer = Event::Exited(None);
    os.delegate = Event::Exited(Some(3));
    let mut args = REQUIRED.to_vec();
    args.push("--udp");
    let done = run(&args, "/a:/b", false, os);
    assert_eq!(
        done,
        Run {
            probed: vec![
                place("/a", "udpproxy"),
                place("/b", "udpproxy"),
                place("/work", "udpproxy"),
                place("/a", "cargo"),
                place("/a", "udpproxy"),
                place("/b", "udpproxy"),
            ],
            spawned: vec![command("cargo", &["install", "udpproxy"]), command("udpproxy", &REQUIRED)],
            code: 3,
            failure: None,
        }
    );
}

#[test]
fn missing_package_manager_is_fatal() {
    let done = run(&REQUIRED, "/a", false, world(&[]));
    assert_eq!(
        done,
        Run {
            probed: vec![
                place("/a", "tcpproxy"),
                place("/work", "tcpproxy"),
                place("/a", "cargo"),
                place("/work", "cargo"),
            ],
            spawned: vec![],
            code: FATAL_EXIT_CODE,
            failure: Some(Failure::ToolingMissing),
        }
    );
}

#[test]
fn package_manager_that_cannot_be_started_is_fatal() {
    let mut os = world(&[place("/a", "cargo")]);
    os.installer = Event::SpawnFailed;
    let done = run(&REQUIRED, "/a", false, os);
    assert_eq!(done.spawned, vec![command("cargo", &["install", "tcpproxy"])]);
    assert_eq!(done.code, FATAL_EXIT_CODE);
    assert_eq!(done.failure, Some(Failure::SpawnFailure(Program::Installer)));
}

#[test]
fn delegate_that_cannot_be_started_is_fatal() {
    let mut os = world(&[place("/a", "tcpproxy")]);
    os.delegate = Event::SpawnFailed;
    let done = run(&REQUIRED, "/a", false, os);
    assert_eq!(done.spawned, vec![command("tcpproxy", &REQUIRED)]);
    assert_eq!(done.code, FATAL_EXIT_CODE);
    assert_eq!(done.failure, Some(Failure::SpawnFailure(Program::Delegate(ProxyMode::Tcp))));
}

#[test]
fn delegate_without_exit_status_is_fatal() {
    let mut os = world(&[place("/a", "tcpproxy")]);
    os.delegate = Event::Exited(None);
    let done = run(&REQUIRED, "/a", false, os);
    assert_eq!(done.code, FATAL_EXIT_CODE);
    assert_eq!(done.failure, Some(Failure::AbnormalChildExit(ProxyMode::Tcp)));
}

#[test]
fn conflicting_mode_flags_end_the_launch_before_anything_is_tried() {
    let mut args = REQUIRED.to_vec();
    args.extend(["-t", "-u"]);
    let done = run(&args, "/a:/b", false, world(&[place("/a", "tcpproxy"), place("/a", "udpproxy")]));
    assert_eq!(
        done,
        Run {
            probed: vec![],
            spawned: vec![],
            code: FATAL_EXIT_CODE,
            failure: Some(Failure::Input(InputError::ModeConflict)),
        }
    );
}

#[test]
fn refused_command_line_ends_the_launch_before_anything_is_tried() {
    let done = run(&["-l", "9999"], "/a:/b", false, world(&[place("/a", "tcpproxy")]));
    assert_eq!(
        done,
        Run {
            probed: vec![],
            spawned: vec![],
            code: FATAL_EXIT_CODE,
            failure: Some(Failure::Input(InputError::Usage)),
        }
    );
}

#[test]
fn launch_begins_with_a_probe_of_the_first_directory() {
    let (state, action) = Dispatcher::start(&strings(&REQUIRED), "/a:/b", "/work", false);
    assert_eq!(action, Action::Probe(place("/a", "tcpproxy")));
    assert!(state.awaits(&Event::Probed(false)));
    assert!(!state.awaits(&Event::SpawnFailed));
    assert!(!state.awaits(&Event::Exited(None)));
}

#[test]
fn started_program_is_awaited() {
    let (state, _) = Dispatcher::start(&strings(&REQUIRED), "/a:/b", "/work", false);
    let (state, action) = state.step(Event::Probed(true));
    assert_eq!(
        action,
        Action::Spawn { command: command("tcpproxy", &REQUIRED), resolved: place("/a", "tcpproxy") }
    );
    assert!(state.awaits(&Event::SpawnFailed));
    assert!(state.awaits(&Event::Exited(Some(0))));
    assert!(!state.awaits(&Event::Probed(true)));
}

#[test]
fn parsed_invocation_begins_a_launch() {
    let invocation = Invocation {
        mode: ProxyMode::Udp,
        request: LaunchRequest {
            local_port: "53".to_string(),
            remote_host: "resolver.example".to_string(),
            remote_port: "5353".to_string(),
            bind_address: None,
            debug: false,
        },
    };
    let (state, action) = Dispatcher::begin(Ok(invocation), "", "/work", true);
    assert_eq!(action, Action::Probe(place("", "udpproxy.exe")));
    let (_, action) = state.step(Event::Probed(true));
    assert_eq!(
        action,
        Action::Spawn {
            command: command("udpproxy", &["-l", "53", "-r", "5353", "-h", "resolver.example"]),
            resolved: place("", "udpproxy.exe"),
        }
    );
}

#[test]
fn refused_invocation_begins_nothing() {
    let (state, action) = Dispatcher::begin(Err(InputError::Usage), "/a", "/work", false);
    assert_eq!(
        action,
        Action::Exit { code: FATAL_EXIT_CODE, failure: Some(Failure::Input(InputError::Usage)) }
    );
    assert!(!state.awaits(&Event::Probed(true)));
}

//! The launcher as a state machine.
//!
//! The machine decides; its driver acts. [`Dispatcher::start`] and
//! [`Dispatcher::step`] each hand back the next state and one [`Action`]. The
//! driver carries the action out and reports what happened as an [`Event`],
//! until the action is [`Action::Exit`].
//!
//! A launch goes through these states:
//!
//! ```text
//! Resolving --found--> AwaitingExit --> Done
//!     | all directories tried
//!     v
//! LocatingInstaller --found--> Provisioning --> ResolvingAgain --found--> AwaitingExit
//!     | all directories tried                        | all directories tried
//!     v                                              v
//!    Done                                           Done
//! ```

use vstd::pervasive::unreached;
use vstd::prelude::*;
use crate::cli::{cli_table, command_line_meaning, parse_command_line};
use crate::failure::{installer_name, Failure, Program, FATAL_EXIT_CODE};
use crate::mode::{delegate_name, InputError, ProxyMode};
use crate::options::parse_outcome;
use crate::request::{outcome_view, Invocation, InvocationView, LaunchRequest, LaunchRequestView};
use crate::resolver::{
    candidate_directories,
    candidate_entries,
    executable_file_name,
    file_name_of,
    ExecutableRef,
    ExecutableRefView,
    Search,
    SearchView,
};
use crate::translate::{delegate_arguments, translate};

verus! {

/// What the driver reports after it has carried out an action.
#[derive(Clone, Copy, Debug, PartialEq, Eq, Structural)]
pub enum Event {
    /// The probed file exists, or does not.
    Probed(bool),
    /// The program could not be started.
    SpawnFailed,
    /// The program ran and ended, with this exit status if it left one.
    Exited(Option<i32>),
}

/// A program to start and the arguments to start it with.
#[derive(Clone, Debug, PartialEq, Eq)]
pub struct Command {
    pub program: String,
    pub arguments: Vec<String>,
}

/// A command, as the text it holds.
pub struct CommandView {
    pub program: Seq<char>,
    pub arguments: Seq<Seq<char>>,
}

impl View for Command {
    type V = CommandView;

    open spec fn view(&self) -> CommandView {
        CommandView { program: self.program@, arguments: self.arguments.deep_view() }
    }
}

/// What the driver is asked to do next.
#[derive(Clone, Debug, PartialEq, Eq)]
pub enum Action {
    /// Test whether the file exists and report [`Event::Probed`].
    Probe(ExecutableRef),
    /// Start the command, wait until it ends and report [`Event::Exited`],
    /// or [`Event::SpawnFailed`] if it could not be started. `resolved` is
    /// where the program was found.
    Spawn { command: Command, resolved: ExecutableRef },
    /// End the process with this exit status, after telling the user of the
    /// failure, if there is one.
    Exit { code: i32, failure: Option<Failure> },
}

/// An action, as the text it holds.
pub enum ActionView {
    Probe(ExecutableRefView),
    Spawn { command: CommandView, resolved: ExecutableRefView },
    Exit { code: i32, failure: Option<Failure> },
}

impl View for Action {
    type V = ActionView;

    open spec fn view(&self) -> ActionView {
        match *self {
            Action::Probe(place) => ActionView::Probe(place@),
            Action::Spawn { command, resolved } => ActionView::Spawn {
                command: command@,
                resolved: resolved@,
            },
            Action::Exit { code, failure } => ActionView::Exit { code, failure },
        }
    }
}

/// What the machine keeps while it looks for a program: the launch it works
/// on and the search it is in.
pub struct JobView {
    pub mode: ProxyMode,
    pub request: LaunchRequestView,
    pub windows: bool,
    pub search: SearchView,
}

impl JobView {
    /// The file that holds the delegate.
    pub open spec fn delegate_file(self) -> Seq<char> {
        file_name_of(delegate_name(self.mode), self.windows)
    }

    /// The file that holds the package manager.
    pub open spec fn installer_file(self) -> Seq<char> {
        file_name_of(installer_name(), self.windows)
    }

    /// Whether a directory is left to try after the current candidate.
    pub open spec fn has_more(self) -> bool {
        !self.search.advanced().is_exhausted()
    }

    /// The job with its search moved past the current candidate.
    pub open spec fn advanced(self) -> JobView {
        JobView { search: self.search.advanced(), ..self }
    }

    /// The job with a fresh search for `file_name`.
    pub open spec fn retargeted(self, file_name: Seq<char>) -> JobView {
        JobView { search: self.search.retargeted(file_name), ..self }
    }

    /// The request to probe the current candidate.
    pub open spec fn probe(self) -> ActionView {
        ActionView::Probe(self.search.candidate())
    }

    /// The request to start the delegate, found at the current candidate,
    /// with the arguments that stand for the launch request.
    pub open spec fn launch(self) -> ActionView {
        ActionView::Spawn {
            command: CommandView {
                program: delegate_name(self.mode),
                arguments: delegate_arguments(self.request),
            },
            resolved: self.search.candidate(),
        }
    }

    /// The request to start the package manager, found at the current
    /// candidate, so that it installs the delegate's package.
    pub open spec fn install(self) -> ActionView {
        ActionView::Spawn {
            command: CommandView {
                program: installer_name(),
                arguments: seq!["install"@, delegate_name(self.mode)],
            },
            resolved: self.search.candidate(),
        }
    }
}

/// The states of the machine.
pub enum DispatcherView {
    /// Looking for the delegate, for the first time.
    Resolving(JobView),
    /// The delegate is missing: looking for the package manager.
    LocatingInstaller(JobView),
    /// The package manager is running.
    Provisioning(JobView),
    /// Looking for the delegate again, after the install attempt.
    ResolvingAgain(JobView),
    /// The delegate is running.
    AwaitingExit(ProxyMode),
    /// The launch is over.
    Done,
}

/// The end of a launch that failed.
pub open spec fn failed(failure: Failure) -> (DispatcherView, ActionView) {
    (DispatcherView::Done, ActionView::Exit { code: FATAL_EXIT_CODE, failure: Some(failure) })
}

impl DispatcherView {
    /// Whether the state is one that the machine can be in: a search under
    /// way has a candidate left and is for the file that its state names.
    pub open spec fn wf(self) -> bool {
        match self {
            DispatcherView::Resolving(job) | DispatcherView::ResolvingAgain(job) => {
                &&& !job.search.is_exhausted()
                &&& job.search.file_name == job.delegate_file()
            },
            DispatcherView::LocatingInstaller(job) | DispatcherView::Provisioning(job) => {
                &&& !job.search.is_exhausted()
                &&& job.search.file_name == job.installer_file()
            },
            DispatcherView::AwaitingExit(_) | DispatcherView::Done => true,
        }
    }

    /// Whether `event` answers the action that led to this state.
    pub open spec fn awaits(self, event: Event) -> bool {
        match self {
            DispatcherView::Resolving(_)
            | DispatcherView::LocatingInstaller(_)
            | DispatcherView::ResolvingAgain(_) => event is Probed,
            DispatcherView::Provisioning(_) | DispatcherView::AwaitingExit(_) => event is SpawnFailed
                || event is Exited,
            DispatcherView::Done => false,
        }
    }

    /// The state and the action that follow this state on `event`.
    ///
    /// A delegate that is found is started. One that is missing is looked
    /// for in the next directory; once every directory is tried the package
    /// manager is looked for, started and waited for, whatever status it
    /// ends with, and then the delegate is looked for once more. The status
    /// of the delegate becomes the status of the launcher.
    pub open spec fn next(self, event: Event) -> (DispatcherView, ActionView)
        recommends
            self.wf(),
            self.awaits(event),
    {
        match (self, event) {
            (DispatcherView::Resolving(job), Event::Probed(true)) => (
                DispatcherView::AwaitingExit(job.mode),
                job.launch(),
            ),
            (DispatcherView::Resolving(job), Event::Probed(false)) => {
                if job.has_more() {
                    (DispatcherView::Resolving(job.advanced()), job.advanced().probe())
                } else {
                    let job = job.retargeted(job.installer_file());
                    (DispatcherView::LocatingInstaller(job), job.probe())
                }
            },
            (DispatcherView::LocatingInstaller(job), Event::Probed(true)) => (
                DispatcherView::Provisioning(job),
                job.install(),
            ),
            (DispatcherView::LocatingInstaller(job), Event::Probed(false)) => {
                if job.has_more() {
                    (DispatcherView::LocatingInstaller(job.advanced()), job.advanced().probe())
                } else {
                    failed(Failure::ToolingMissing)
                }
            },
            (DispatcherView::Provisioning(_), Event::SpawnFailed) => failed(
                Failure::SpawnFailure(Program::Installer),
            ),
            (DispatcherView::Provisioning(job), Event::Exited(_)) => {
                let job = job.retargeted(job.delegate_file());
                (DispatcherView::ResolvingAgain(job), job.probe())
            },
            (DispatcherView::ResolvingAgain(job), Event::Probed(true)) => (
                DispatcherView::AwaitingExit(job.mode),
                job.launch(),
            ),
            (DispatcherView::ResolvingAgain(job), Event::Probed(false)) => {
                if job.has_more() {
                    (DispatcherView::ResolvingAgain(job.advanced()), job.advanced().probe())
                } else {
                    failed(Failure::ProvisionFailure(job.mode))
                }
            },
            (DispatcherView::AwaitingExit(mode), Event::SpawnFailed) => failed(
                Failure::SpawnFailure(Program::Delegate(mode)),
            ),
            (DispatcherView::AwaitingExit(_), Event::Exited(Some(code))) => (
                DispatcherView::Done,
                ActionView::Exit { code, failure: None },
            ),
            (DispatcherView::AwaitingExit(mode), Event::Exited(None)) => failed(
                Failure::AbnormalChildExit(mode),
            ),
            _ => arbitrary(),
        }
    }

    /// A bound on the steps that the machine can still take.
    pub open spec fn steps_left(self) -> nat {
        match self {
            DispatcherView::Resolving(job) => 2 + 2 * job.search.directories.len() + job.search.untried(),
            DispatcherView::LocatingInstaller(job) => 2 + job.search.directories.len()
                + job.search.untried(),
            DispatcherView::Provisioning(job) => 2 + job.search.directories.len(),
            DispatcherView::ResolvingAgain(job) => 1 + job.search.untried(),
            DispatcherView::AwaitingExit(_) => 1,
            DispatcherView::Done => 0,
        }
    }

    /// Whether the install attempt, if the launch has one, is over.
    pub open spec fn is_past_provisioning(self) -> bool {
        self is ResolvingAgain || self is AwaitingExit || self is Done
    }
}

/// The state and the action that a launch begins with: a refused command
/// line ends it at once, an invocation starts the search for its delegate.
pub open spec fn started(
    parsed: Result<InvocationView, InputError>,
    search_path: Seq<char>,
    current_dir: Seq<char>,
    windows: bool,
) -> (DispatcherView, ActionView) {
    match parsed {
        Err(refusal) => failed(Failure::Input(refusal)),
        Ok(invocation) => {
            let job = JobView {
                mode: invocation.mode,
                request: invocation.request,
                windows,
                search: SearchView {
                    directories: candidate_entries(search_path, current_dir),
                    file_name: file_name_of(delegate_name(invocation.mode), windows),
                    cursor: 0,
                },
            };
            (DispatcherView::Resolving(job), job.probe())
        },
    }
}

/// Every step leaves a state that the machine can be in, and brings the
/// launch closer to its end: no launch goes on for ever.
pub proof fn lemma_step_makes_progress(state: DispatcherView, event: Event)
    requires
        state.wf(),
        state.awaits(event),
    ensures
        state.next(event).0.wf(),
        state.next(event).0.steps_left() < state.steps_left(),
{
}

/// A program is started only where it was just found: the step that asks
/// for a program to be started answers a probe that succeeded, and names the
/// probed place as the place of the program.
pub proof fn lemma_spawn_follows_successful_probe(state: DispatcherView, event: Event)
    requires
        state.wf(),
        state.awaits(event),
        state.next(event).1 is Spawn,
    ensures
        event == Event::Probed(true),
        match state {
            DispatcherView::Resolving(job) | DispatcherView::ResolvingAgain(job) => {
                &&& state.next(event).1 == job.launch()
                &&& state.next(event).1->resolved == job.search.candidate()
            },
            DispatcherView::LocatingInstaller(job) => {
                &&& state.next(event).1 == job.install()
                &&& state.next(event).1->resolved == job.search.candidate()
            },
            _ => false,
        },
{
}

/// The package manager is started at most once in a launch: once it is
/// running, no step leads back to a state before that, and if a later step
/// starts a program, it is the delegate.
pub proof fn lemma_provisioning_happens_once(state: DispatcherView, event: Event)
    requires
        state.wf(),
        state.awaits(event),
        state is Provisioning || state.is_past_provisioning(),
    ensures
        state.next(event).0.is_past_provisioning(),
        state.next(event).1 is Spawn ==> (state matches DispatcherView::ResolvingAgain(job)
            && state.next(event).1 == job.launch()),
{
}

/// The launch ends exactly when the action is to exit. It exits with the
/// delegate's own status when the delegate ran and left one, and with the
/// fatal status, naming the failure, in every other case.
pub proof fn lemma_exit_status(state: DispatcherView, event: Event)
    requires
        state.wf(),
        state.awaits(event),
    ensures
        state.next(event).0 is Done <==> state.next(event).1 is Exit,
        state.next(event).1 matches ActionView::Exit { code, failure } ==> match (state, event) {
            (DispatcherView::AwaitingExit(_), Event::Exited(Some(status))) => code == status
                && failure is None,
            _ => code == FATAL_EXIT_CODE && failure is Some,
        },
{
}

/// The working data of the machine while it looks for a program.
#[derive(Debug, PartialEq, Eq)]
struct Job {
    mode: ProxyMode,
    request: LaunchRequest,
    windows: bool,
    search: Search,
}

impl View for Job {
    type V = JobView;

    closed spec fn view(&self) -> JobView {
        JobView { mode: self.mode, request: self.request@, windows: self.windows, search: self.search@ }
    }
}

impl Job {
    /// Asks for the current candidate to be probed.
    fn probe(&self) -> (action: Action)
        requires
            !self@.search.is_exhausted(),
        ensures
            action@ == self@.probe(),
    {
        Action::Probe(self.search.candidate())
    }

    /// Asks for the delegate to be started.
    fn launch(&self) -> (action: Action)
        requires
            !self@.search.is_exhausted(),
        ensures
            action@ == self@.launch(),
    {
        Action::Spawn {
            command: Command {
                program: self.mode.executable_name().to_owned(),
                arguments: translate(&self.request),
            },
            resolved: self.search.candidate(),
        }
    }

    /// Asks for the package manager to be started.
    fn install(&self) -> (action: Action)
        requires
            !self@.search.is_exhausted(),
        ensures
            action@ == self@.install(),
    {
        let mut arguments: Vec<String> = Vec::new();
        arguments.push("install".to_owned());
        arguments.push(self.mode.executable_name().to_owned());
        assert(arguments.deep_view() == seq!["install"@, delegate_name(self.mode)]);
        Action::Spawn {
            command: Command { program: Program::Installer.name().to_owned(), arguments },
            resolved: self.search.candidate(),
        }
    }

    /// Tells whether a directory is left to try after the current candidate.
    fn has_more(&self) -> (more: bool)
        requires
            !self@.search.is_exhausted(),
        ensures
            more == self@.has_more(),
    {
        self.search.cursor < self.search.directories.len() - 1
    }

    /// Moves the search past the current candidate.
    fn advance(self) -> (job: Job)
        requires
            !self@.search.is_exhausted(),
        ensures
            job@ == self@.advanced(),
    {
        Job { mode: self.mode, request: self.request, windows: self.windows, search: self.search.advance() }
    }

    /// Starts a fresh search for the executable `name`.
    fn retarget(self, name: &str) -> (job: Job)
        ensures
            job@ == self@.retargeted(file_name_of(name@, self.windows)),
    {
        let file_name = executable_file_name(name, self.windows);
        Job {
            mode: self.mode,
            request: self.request,
            windows: self.windows,
            search: self.search.retarget(file_name),
        }
    }
}

/// Where a launch stands between two actions.
#[derive(Debug, PartialEq, Eq)]
enum Stage {
    Resolving(Job),
    LocatingInstaller(Job),
    Provisioning(Job),
    ResolvingAgain(Job),
    AwaitingExit(ProxyMode),
    Done,
}

impl View for Stage {
    type V = DispatcherView;

    closed spec fn view(&self) -> DispatcherView {
        match *self {
            Stage::Resolving(job) => DispatcherView::Resolving(job@),
            Stage::LocatingInstaller(job) => DispatcherView::LocatingInstaller(job@),
            Stage::Provisioning(job) => DispatcherView::Provisioning(job@),
            Stage::ResolvingAgain(job) => DispatcherView::ResolvingAgain(job@),
            Stage::AwaitingExit(mode) => DispatcherView::AwaitingExit(mode),
            Stage::Done => DispatcherView::Done,
        }
    }
}

/// The state of a launch between two actions. Its model is a
/// [`DispatcherView`]; every state that exists is well formed.
#[derive(Debug, PartialEq, Eq)]
pub struct Dispatcher {
    stage: Stage,
}

impl View for Dispatcher {
    type V = DispatcherView;

    closed spec fn view(&self) -> DispatcherView {
        self.stage@
    }
}

/// Ends a launch that failed.
fn fail(failure: Failure) -> (r: (Dispatcher, Action))
    ensures
        (r.0@, r.1@) == failed(failure),
{
    (Dispatcher { stage: Stage::Done }, Action::Exit { code: FATAL_EXIT_CODE, failure: Some(failure) })
}

impl Dispatcher {
    #[verifier::type_invariant]
    spec fn well_formed(self) -> bool {
        self.stage@.wf()
    }

    /// Begins a launch with a command line that is already parsed.
    pub fn begin(
        parsed: Result<Invocation, InputError>,
        search_path: &str,
        current_dir: &str,
        windows: bool,
    ) -> (r: (Dispatcher, Action))
        ensures
            (r.0@, r.1@) == started(outcome_view(parsed), search_path@, current_dir@, windows),
            r.0@.wf(),
    {
        match parsed {
            Err(refusal) => fail(Failure::Input(refusal)),
            Ok(invocation) => {
                let directories = candidate_directories(search_path, current_dir);
                let file_name = executable_file_name(invocation.mode.executable_name(), windows);
                let job = Job {
                    mode: invocation.mode,
                    request: invocation.request,
                    windows,
                    search: Search::new(directories, file_name),
                };
                let action = job.probe();
                (Dispatcher { stage: Stage::Resolving(job) }, action)
            },
        }
    }

    /// Begins a launch: parses the arguments that follow the program name
    /// and, if they are accepted, asks for the first probe.
    pub fn start(args: &Vec<String>, search_path: &str, current_dir: &str, windows: bool) -> (r: (
        Dispatcher,
        Action,
    ))
        ensures
            (r.0@, r.1@) == started(
                command_line_meaning(parse_outcome(cli_table(), args.deep_view())),
                search_path@,
                current_dir@,
                windows,
            ),
            r.0@.wf(),
    {
        Dispatcher::begin(parse_command_line(args), search_path, current_dir, windows)
    }

    /// Tells whether `event` answers the action that led to this state.
    pub fn awaits(&self, event: &Event) -> (awaited: bool)
        ensures
            awaited == self@.awaits(*event),
    {
        match &self.stage {
            Stage::Resolving(_) | Stage::LocatingInstaller(_) | Stage::ResolvingAgain(_) => {
                match event {
                    Event::Probed(_) => true,
                    _ => false,
                }
            },
            Stage::Provisioning(_) | Stage::AwaitingExit(_) => {
                match event {
                    Event::Probed(_) => false,
                    _ => true,
                }
            },
            Stage::Done => false,
        }
    }

    /// Takes one step: from this state, on `event`, to the next state and
    /// the action that is due.
    pub fn step(self, event: Event) -> (r: (Dispatcher, Action))
        requires
            self@.awaits(event),
        ensures
            (r.0@, r.1@) == self@.next(event),
            r.0@.wf(),
    {
        proof {
            use_type_invariant(&self);
        }
        match self.stage {
            Stage::Resolving(job) => match event {
                Event::Probed(true) => {
                    let action = job.launch();
                    (Dispatcher { stage: Stage::AwaitingExit(job.mode) }, action)
                },
                _ => {
                    if job.has_more() {
                        let job = job.advance();
                        let action = job.probe();
                        (Dispatcher { stage: Stage::Resolving(job) }, action)
                    } else {
                        let job = job.retarget(Program::Installer.name());
                        let action = job.probe();
                        (Dispatcher { stage: Stage::LocatingInstaller(job) }, action)
                    }
                },
            },
            Stage::LocatingInstaller(job) => match event {
                Event::Probed(true) => {
                    let action = job.install();
                    (Dispatcher { stage: Stage::Provisioning(job) }, action)
                },
                _ => {
                    if job.has_more() {
                        let job = job.advance();
                        let action = job.probe();
                        (Dispatcher { stage: Stage::LocatingInstaller(job) }, action)
                    } else {
                        fail(Failure::ToolingMissing)
                    }
                },
            },
            Stage::Provisioning(job) => match event {
                Event::SpawnFailed => fail(Failure::SpawnFailure(Program::Installer)),
                _ => {
                    let delegate = job.mode.executable_name();
                    let job = job.retarget(delegate);
                    let action = job.probe();
                    (Dispatcher { stage: Stage::ResolvingAgain(job) }, action)
                },
            },
            Stage::ResolvingAgain(job) => match event {
                Event::Probed(true) => {
                    let action = job.launch();
                    (Dispatcher { stage: Stage::AwaitingExit(job.mode) }, action)
                },
                _ => {
                    if job.has_more() {
                        let job = job.advance();
                        let action = job.probe();
                        (Dispatcher { stage: Stage::ResolvingAgain(job) }, action)
                    } else {
                        fail(Failure::ProvisionFailure(job.mode))
                    }
                },
            },
            Stage::AwaitingExit(mode) => match event {
                Event::SpawnFailed => fail(Failure::SpawnFailure(Program::Delegate(mode))),
                Event::Exited(Some(code)) => (
                    Dispatcher { stage: Stage::Done },
                    Action::Exit { code, failure: None },
                ),
                _ => fail(Failure::AbnormalChildExit(mode)),
            },
            Stage::Done => unreached(),
        }
    }
}

} // verus!

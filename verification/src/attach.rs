//! The waiting program's side of the handshake, step by step.
//!
//! A request for a debugger goes through a fixed series of states. Between
//! one state and the next something has to be done that only the program
//! itself can do: read a file, look for a program, start one, read the flag.
//! So the work is shared. The program carries out one action at a time and
//! reports what came of it as an event; the rules here take the state and the
//! event and give the next state and the next action.
//!
//! ```text
//! Idle -> GuardChecked -> EnvironmentSane -> BinariesResolved
//!      -> MessageEncoded -> FlagArmed -> TerminalSpawned -> Blocked -> Released
//! ```
//!
//! A request that finds the latch closed is `Declined` and returns without a
//! word. A request that cannot go on has `Failed`: it says why and returns.
//! The flag is set before the terminal is started, so that the debugger
//! cannot clear it too early; the wait begins only after the terminal has
//! really been started, and it ends only when the flag is seen cleared.

use crate::guard::{enter, EntryGuard};
use crate::launch::{
    choose_terminal, chosen_terminal, lifeline_message, lifeline_text, linux_check,
    linux_launch, linux_launch_failure, linux_launch_failure_text, linux_launch_term,
    macos_check, macos_launch, macos_launch_failure, macos_launch_failure_text,
    macos_launch_term, no_osascript_text, no_terminal_text, optional_text, ptrace_advice_text,
    ptrace_allows, LaunchCommand, LaunchCommandView, Platform,
};
use crate::text::{clone_texts, texts};
use vstd::prelude::*;
use vstd::string::*;

verus! {

/// Where a request stands.
#[derive(Clone, Copy, Debug, PartialEq, Eq, Structural)]
pub enum Phase {
    /// Nothing has happened yet.
    Idle,
    /// The latch was open; the environment is being checked.
    GuardChecked,
    /// The environment lets a debugger attach; the programs are being
    /// looked for.
    EnvironmentSane,
    /// All programs are there; the message is being handed over.
    BinariesResolved,
    /// The message is in the environment; the flag is being set.
    MessageEncoded,
    /// The flag is set; the terminal is being started.
    FlagArmed,
    /// The attempt to start the terminal is over; the message is being
    /// taken out of the environment again.
    TerminalSpawned,
    /// The terminal runs; the flag is being watched.
    Blocked,
    /// The flag was seen cleared. The request is over.
    Released,
    /// The latch was closed. The request is over.
    Declined,
    /// The request could not go on and has said why. It is over.
    Failed,
}

/// What was found on the search path.
#[derive(Clone, Debug, PartialEq, Eq)]
pub struct Lookup {
    /// Whether the debugger is there.
    pub debugger: bool,
    /// Whether the wrapper is there.
    pub wrapper: bool,
    /// Where `alacritty` is, if it is there.
    pub alacritty: Option<String>,
    /// Where `xterm` is, if it is there.
    pub xterm: Option<String>,
}

/// What was found on the search path, as plain values.
pub struct LookupView {
    pub debugger: bool,
    pub wrapper: bool,
    pub alacritty: Option<Seq<char>>,
    pub xterm: Option<Seq<char>>,
}

impl View for Lookup {
    type V = LookupView;

    open spec fn view(&self) -> LookupView {
        LookupView {
            debugger: self.debugger,
            wrapper: self.wrapper,
            alacritty: optional_text(self.alacritty),
            xterm: optional_text(self.xterm),
        }
    }
}

/// What came of an action.
#[derive(Clone, Debug, PartialEq, Eq)]
pub enum Event {
    /// The ptrace policy file of Linux was read: what it holds, or `None` if
    /// it could not be read.
    PtraceScope(Option<Vec<u8>>),
    /// `osascript` was looked for on macOS: whether it is there.
    Osascript(bool),
    /// The programs were looked for.
    Binaries(Lookup),
    /// The action was carried out, and there is nothing to tell.
    Done,
    /// The terminal was started (`None`), or could not be, and why.
    Spawned(Option<String>),
    /// The flag was read.
    Flag(bool),
}

/// What came of an action, as plain values.
pub enum EventView {
    PtraceScope(Option<Seq<u8>>),
    Osascript(bool),
    Binaries(LookupView),
    Done,
    Spawned(Option<Seq<char>>),
    Flag(bool),
}

impl View for Event {
    type V = EventView;

    open spec fn view(&self) -> EventView {
        match self {
            Event::PtraceScope(scope) => EventView::PtraceScope(
                match scope {
                    Some(bytes) => Some(bytes@),
                    None => None,
                },
            ),
            Event::Osascript(found) => EventView::Osascript(*found),
            Event::Binaries(lookup) => EventView::Binaries(lookup@),
            Event::Done => EventView::Done,
            Event::Spawned(failure) => EventView::Spawned(optional_text(*failure)),
            Event::Flag(value) => EventView::Flag(*value),
        }
    }
}

/// What the program is to do next.
#[derive(Clone, Debug, PartialEq, Eq)]
pub enum Action {
    /// Probe the environment: on Linux read the ptrace policy file, on macOS
    /// look for `osascript`. Answered by `PtraceScope` or `Osascript`.
    CheckEnvironment,
    /// Look for `debugger`, the wrapper, `alacritty` and `xterm` on the
    /// search path. Answered by `Binaries`.
    ResolveBinaries { debugger: String },
    /// Put `value` into the environment variable of the handshake. Answered
    /// by `Done`.
    ExportLifeline { value: String },
    /// Set the flag. Answered by `Done`.
    ArmFlag,
    /// Start `program` with `args`. Answered by `Spawned`.
    Spawn { program: String, args: Vec<String> },
    /// Take the environment variable of the handshake out of the
    /// environment. Answered by `Done`.
    RetireLifeline,
    /// Read the flag. Answered by `Flag`.
    Poll,
    /// Write `message` to the error stream and return to the caller.
    Report { message: String },
    /// Return to the caller.
    Return,
}

/// What the program is to do next, as plain values.
pub enum ActionView {
    CheckEnvironment,
    ResolveBinaries { debugger: Seq<char> },
    ExportLifeline { value: Seq<char> },
    ArmFlag,
    Spawn { program: Seq<char>, args: Seq<Seq<char>> },
    RetireLifeline,
    Poll,
    Report { message: Seq<char> },
    Return,
}

impl View for Action {
    type V = ActionView;

    open spec fn view(&self) -> ActionView {
        match self {
            Action::CheckEnvironment => ActionView::CheckEnvironment,
            Action::ResolveBinaries { debugger } => ActionView::ResolveBinaries {
                debugger: debugger@,
            },
            Action::ExportLifeline { value } => ActionView::ExportLifeline { value: value@ },
            Action::ArmFlag => ActionView::ArmFlag,
            Action::Spawn { program, args } => ActionView::Spawn {
                program: program@,
                args: texts(args@),
            },
            Action::RetireLifeline => ActionView::RetireLifeline,
            Action::Poll => ActionView::Poll,
            Action::Report { message } => ActionView::Report { message: message@ },
            Action::Return => ActionView::Return,
        }
    }
}

/// A request, as plain values.
pub struct AttachView {
    /// Where the request stands.
    pub phase: Phase,
    /// The flag, as the program last wrote or read it.
    pub flag: bool,
    pub platform: Platform,
    /// The identifier of the program's own process.
    pub pid: nat,
    /// The command name of the debugger that is asked for.
    pub debugger: Seq<char>,
    /// What starts the terminal, once the programs have been found.
    pub command: Option<LaunchCommandView>,
    /// Why the terminal could not be started, if it could not.
    pub failure: Option<Seq<char>>,
}

/// The diagnostic for a debugger that is not on the search path.
pub open spec fn no_debugger_text(debugger: Seq<char>) -> Seq<char> {
    "debug-here: can't find "@ + debugger + " on your path. Bailing."@
}

/// The diagnostic for a wrapper that is not on the search path.
pub open spec fn no_wrapper_text() -> Seq<char> {
    "debug-here:\n            Can't find debug-here-gdb-wrapper on your path. To get it\n            you can run `cargo install debug-here-gdb-wrapper`\n            "@
}

/// A diagnostic that begins with the name of the library.
pub open spec fn prefixed(message: Seq<char>) -> Seq<char> {
    "debug-here: "@ + message
}

impl AttachView {
    /// A request that nothing has happened to yet.
    pub open spec fn initial(platform: Platform, pid: nat, debugger: Option<Seq<char>>) -> AttachView {
        AttachView {
            phase: Phase::Idle,
            flag: false,
            platform,
            pid,
            debugger: match debugger {
                Some(name) => name,
                None => platform.default_backend().name_text(),
            },
            command: None,
            failure: None,
        }
    }

    /// What holds of a request at every moment: the flag is set from the
    /// moment it is armed until it is seen cleared, and only then; the
    /// command that starts the terminal is known from the moment the
    /// programs have been found; and nobody waits for a terminal that could
    /// not be started.
    pub open spec fn inv(self) -> bool {
        &&& self.flag <==> (self.phase == Phase::FlagArmed || self.phase == Phase::TerminalSpawned
            || self.phase == Phase::Blocked || (self.phase == Phase::Failed && self.failure is Some))
        &&& (self.phase == Phase::BinariesResolved || self.phase == Phase::MessageEncoded
            || self.phase == Phase::FlagArmed || self.phase == Phase::TerminalSpawned) ==> self.command is Some
        &&& self.failure is Some ==> (self.phase == Phase::TerminalSpawned || self.phase
            == Phase::Failed)
    }

    /// Whether the request is over.
    pub open spec fn is_over(self) -> bool {
        self.phase == Phase::Released || self.phase == Phase::Declined || self.phase
            == Phase::Failed
    }

    /// The same request at another point.
    pub open spec fn at(self, phase: Phase) -> AttachView {
        AttachView { phase, ..self }
    }

    /// The diagnostic for a terminal that could not be started.
    pub open spec fn launch_failure_text(self, error: Seq<char>) -> Seq<char> {
        match self.platform {
            Platform::Linux => linux_launch_failure_text(
                match self.command {
                    Some(command) => command.program,
                    None => Seq::empty(),
                },
                error,
            ),
            Platform::MacOs => macos_launch_failure_text(self.debugger, error),
        }
    }
}

/// The action that a request waits for: what the program is to do in the
/// state that the request is in. A request that is over, or has not begun,
/// waits for nothing, and the program is to return.
pub open spec fn pending(s: AttachView) -> ActionView {
    match s.phase {
        Phase::GuardChecked => ActionView::CheckEnvironment,
        Phase::EnvironmentSane => ActionView::ResolveBinaries { debugger: s.debugger },
        Phase::BinariesResolved => ActionView::ExportLifeline {
            value: lifeline_text(s.debugger, s.pid),
        },
        Phase::MessageEncoded => ActionView::ArmFlag,
        Phase::FlagArmed => match s.command {
            Some(command) => ActionView::Spawn { program: command.program, args: command.args },
            None => ActionView::Return,
        },
        Phase::TerminalSpawned => ActionView::RetireLifeline,
        Phase::Blocked => ActionView::Poll,
        Phase::Idle | Phase::Released | Phase::Declined | Phase::Failed => ActionView::Return,
    }
}

/// The request goes on from the state `s`.
pub open spec fn proceed(s: AttachView) -> (AttachView, ActionView) {
    (s, pending(s))
}

/// The request gives up with a diagnostic.
pub open spec fn fail(s: AttachView, message: Seq<char>) -> (AttachView, ActionView) {
    (s.at(Phase::Failed), ActionView::Report { message })
}

/// What the latch does to a request: a request that has not begun goes on
/// if the latch was open, and is over if it was closed.
pub open spec fn begun(s: AttachView, held: bool) -> (AttachView, ActionView) {
    if s.phase != Phase::Idle {
        proceed(s)
    } else if enter(held).1 {
        proceed(s.at(Phase::GuardChecked))
    } else {
        proceed(s.at(Phase::Declined))
    }
}

/// The request goes on with the command that starts the terminal, or gives
/// up if there is none.
pub open spec fn ready(s: AttachView, command: Result<LaunchCommandView, Seq<char>>) -> (
    AttachView,
    ActionView,
) {
    match command {
        Ok(command) => proceed(
            AttachView { phase: Phase::BinariesResolved, command: Some(command), ..s },
        ),
        Err(message) => fail(s, prefixed(message)),
    }
}

/// What the programs that were found mean for the request. The debugger
/// has to be there, then the wrapper, then on Linux a terminal emulator; and
/// where the debugger is started directly it has to be a known backend.
pub open spec fn resolved(s: AttachView, found: LookupView) -> (AttachView, ActionView) {
    if !found.debugger {
        fail(s, no_debugger_text(s.debugger))
    } else if !found.wrapper {
        fail(s, no_wrapper_text())
    } else {
        match s.platform {
            Platform::Linux => match chosen_terminal(found.alacritty, found.xterm) {
                Some(terminal) => ready(s, linux_launch(terminal, s.debugger, s.pid)),
                None => fail(s, prefixed(no_terminal_text())),
            },
            Platform::MacOs => ready(s, macos_launch(s.debugger, s.pid)),
        }
    }
}

/// The next state and the next action, given the state and what came of the
/// last action. An event that the state does not wait for changes nothing:
/// the action that is due is asked for again.
pub open spec fn stepped(s: AttachView, e: EventView) -> (AttachView, ActionView) {
    match s.phase {
        Phase::GuardChecked => match e {
            EventView::PtraceScope(scope) if s.platform == Platform::Linux => if ptrace_allows(
                scope,
            ) {
                proceed(s.at(Phase::EnvironmentSane))
            } else {
                fail(s, prefixed(ptrace_advice_text()))
            },
            EventView::Osascript(found) if s.platform == Platform::MacOs => if found {
                proceed(s.at(Phase::EnvironmentSane))
            } else {
                fail(s, prefixed(no_osascript_text()))
            },
            _ => proceed(s),
        },
        Phase::EnvironmentSane => match e {
            EventView::Binaries(found) => resolved(s, found),
            _ => proceed(s),
        },
        Phase::BinariesResolved => match e {
            EventView::Done => proceed(s.at(Phase::MessageEncoded)),
            _ => proceed(s),
        },
        Phase::MessageEncoded => match e {
            EventView::Done => proceed(AttachView { phase: Phase::FlagArmed, flag: true, ..s }),
            _ => proceed(s),
        },
        Phase::FlagArmed => match e {
            EventView::Spawned(failure) => proceed(
                AttachView { phase: Phase::TerminalSpawned, failure, ..s },
            ),
            _ => proceed(s),
        },
        Phase::TerminalSpawned => match e {
            EventView::Done => match s.failure {
                None => proceed(s.at(Phase::Blocked)),
                Some(error) => fail(s, prefixed(s.launch_failure_text(error))),
            },
            _ => proceed(s),
        },
        Phase::Blocked => match e {
            EventView::Flag(value) => if value {
                proceed(s)
            } else {
                proceed(AttachView { phase: Phase::Released, flag: false, ..s })
            },
            _ => proceed(s),
        },
        Phase::Idle | Phase::Released | Phase::Declined | Phase::Failed => proceed(s),
    }
}

/// A request for a debugger, and where it stands.
#[derive(Debug)]
pub struct Attach {
    phase: Phase,
    flag: bool,
    platform: Platform,
    pid: u32,
    debugger: String,
    command: Option<LaunchCommand>,
    failure: Option<String>,
}

impl View for Attach {
    type V = AttachView;

    closed spec fn view(&self) -> AttachView {
        AttachView {
            phase: self.phase,
            flag: self.flag,
            platform: self.platform,
            pid: self.pid as nat,
            debugger: self.debugger@,
            command: match self.command {
                Some(command) => Some(command@),
                None => None,
            },
            failure: optional_text(self.failure),
        }
    }
}

/// Writes a diagnostic that begins with the name of the library.
fn prefix(message: &str) -> (r: String)
    ensures
        r@ == prefixed(message@),
{
    let mut r = String::from_str("debug-here: ");
    r.append(message);
    r
}

impl Attach {
    #[verifier::type_invariant]
    closed spec fn type_inv(self) -> bool {
        self@.inv()
    }

    /// A request of the process `pid` on `platform` for `debugger`, or for
    /// the debugger that the platform uses where none is asked for. Nothing
    /// has happened to it yet.
    pub fn new(platform: Platform, pid: u32, debugger: Option<&str>) -> (attach: Attach)
        ensures
            attach@ == AttachView::initial(
                platform,
                pid as nat,
                match debugger {
                    Some(name) => Some(name@),
                    None => None,
                },
            ),
            attach@.inv(),
    {
        let debugger = match debugger {
            Some(name) => String::from_str(name),
            None => String::from_str(platform.default_debugger()),
        };
        Attach {
            phase: Phase::Idle,
            flag: false,
            platform,
            pid,
            debugger,
            command: None,
            failure: None,
        }
    }

    /// Where the request stands.
    pub fn phase(&self) -> (phase: Phase)
        ensures
            phase == self@.phase,
    {
        self.phase
    }

    /// The flag, as the program last wrote or read it.
    pub fn flag(&self) -> (flag: bool)
        ensures
            flag == self@.flag,
    {
        self.flag
    }

    /// The command name of the debugger that is asked for.
    pub fn debugger(&self) -> (name: &str)
        ensures
            name@ == self@.debugger,
    {
        self.debugger.as_str()
    }

    /// Whether the request is over.
    pub fn is_over(&self) -> (over: bool)
        ensures
            over == self@.is_over(),
    {
        match self.phase {
            Phase::Released | Phase::Declined | Phase::Failed => true,
            _ => false,
        }
    }

    /// The action that the request waits for.
    pub fn pending_action(&self) -> (action: Action)
        ensures
            action@ == pending(self@),
    {
        match self.phase {
            Phase::GuardChecked => Action::CheckEnvironment,
            Phase::EnvironmentSane => Action::ResolveBinaries { debugger: self.debugger.clone() },
            Phase::BinariesResolved => Action::ExportLifeline {
                value: lifeline_message(self.debugger.as_str(), self.pid),
            },
            Phase::MessageEncoded => Action::ArmFlag,
            Phase::FlagArmed => match &self.command {
                Some(command) => Action::Spawn {
                    program: command.program.clone(),
                    args: clone_texts(&command.args),
                },
                None => Action::Return,
            },
            Phase::TerminalSpawned => Action::RetireLifeline,
            Phase::Blocked => Action::Poll,
            Phase::Idle | Phase::Released | Phase::Declined | Phase::Failed => Action::Return,
        }
    }

    /// The request as it is, with the action that it waits for.
    fn proceed(self) -> (r: (Attach, Action))
        ensures
            (r.0@, r.1@) == proceed(self@),
    {
        let action = self.pending_action();
        (self, action)
    }

    /// The request at `phase`, with the action that it waits for there.
    fn proceed_at(self, phase: Phase) -> (r: (Attach, Action))
        requires
            self@.at(phase).inv(),
        ensures
            (r.0@, r.1@) == proceed(self@.at(phase)),
    {
        let next = Attach { phase, ..self };
        next.proceed()
    }

    /// The request given up, with the diagnostic that says why.
    fn fail(self, message: String) -> (r: (Attach, Action))
        requires
            self@.at(Phase::Failed).inv(),
        ensures
            (r.0@, r.1@) == fail(self@, message@),
    {
        let next = Attach { phase: Phase::Failed, ..self };
        (next, Action::Report { message })
    }

    /// Tests the latch for a request that has not begun. The request goes on
    /// if the latch was open and is over if it was closed; the latch is
    /// closed afterwards. A request that has begun is left as it is, and so
    /// is the latch.
    pub fn begin(self, guard: &mut EntryGuard) -> (r: (Attach, Action))
        ensures
            (r.0@, r.1@) == begun(self@, old(guard).is_held()),
            r.0@.inv(),
            final(guard).is_held() == if self@.phase == Phase::Idle {
                enter(old(guard).is_held()).0
            } else {
                old(guard).is_held()
            },
    {
        proof {
            use_type_invariant(&self);
        }
        match self.phase {
            Phase::Idle => {
                if guard.try_enter() {
                    self.proceed_at(Phase::GuardChecked)
                } else {
                    self.proceed_at(Phase::Declined)
                }
            },
            _ => self.proceed(),
        }
    }

    /// Takes the programs that were found into account.
    fn resolve(self, found: Lookup) -> (r: (Attach, Action))
        requires
            self@.phase == Phase::EnvironmentSane,
        ensures
            (r.0@, r.1@) == resolved(self@, found@),
    {
        proof {
            use_type_invariant(&self);
        }
        if !found.debugger {
            let mut message = String::from_str("debug-here: can't find ");
            message.append(self.debugger.as_str());
            message.append(" on your path. Bailing.");
            return self.fail(message);
        }
        if !found.wrapper {
            return self.fail(
                String::from_str(
                    "debug-here:\n            Can't find debug-here-gdb-wrapper on your path. To get it\n            you can run `cargo install debug-here-gdb-wrapper`\n            ",
                ),
            );
        }
        let command = match self.platform {
            Platform::Linux => match choose_terminal(found.alacritty, found.xterm) {
                Ok(terminal) => linux_launch_term(&terminal, self.debugger.as_str(), self.pid),
                Err(message) => {
                    return self.fail(prefix(message.as_str()));
                },
            },
            Platform::MacOs => macos_launch_term(self.debugger.as_str(), self.pid),
        };
        match command {
            Ok(command) => {
                let next = Attach { phase: Phase::BinariesResolved, command: Some(command), ..self };
                next.proceed()
            },
            Err(message) => self.fail(prefix(message.as_str())),
        }
    }

    /// Takes what came of the last action into account: gives the next state
    /// of the request and the next action. An event that the request does
    /// not wait for changes nothing, and the action that is due is asked for
    /// again.
    pub fn step(self, event: Event) -> (r: (Attach, Action))
        ensures
            (r.0@, r.1@) == stepped(self@, event@),
            r.0@.inv(),
    {
        proof {
            use_type_invariant(&self);
        }
        match self.phase {
            Phase::GuardChecked => match event {
                Event::PtraceScope(scope) => {
                    if self.platform == Platform::Linux {
                        let checked = match &scope {
                            Some(bytes) => linux_check(Some(bytes.as_slice())),
                            None => linux_check(None),
                        };
                        match checked {
                            Ok(()) => self.proceed_at(Phase::EnvironmentSane),
                            Err(advice) => self.fail(prefix(advice.as_str())),
                        }
                    } else {
                        self.proceed()
                    }
                },
                Event::Osascript(found) => {
                    if self.platform == Platform::MacOs {
                        match macos_check(found) {
                            Ok(()) => self.proceed_at(Phase::EnvironmentSane),
                            Err(message) => self.fail(prefix(message.as_str())),
                        }
                    } else {
                        self.proceed()
                    }
                },
                _ => self.proceed(),
            },
            Phase::EnvironmentSane => match event {
                Event::Binaries(found) => self.resolve(found),
                _ => self.proceed(),
            },
            Phase::BinariesResolved => match event {
                Event::Done => self.proceed_at(Phase::MessageEncoded),
                _ => self.proceed(),
            },
            Phase::MessageEncoded => match event {
                Event::Done => {
                    let next = Attach { phase: Phase::FlagArmed, flag: true, ..self };
                    next.proceed()
                },
                _ => self.proceed(),
            },
            Phase::FlagArmed => match event {
                Event::Spawned(failure) => {
                    let next = Attach { phase: Phase::TerminalSpawned, failure, ..self };
                    next.proceed()
                },
                _ => self.proceed(),
            },
            Phase::TerminalSpawned => match event {
                Event::Done => {
                    let message = match &self.failure {
                        None => None,
                        Some(error) => Some(
                            match self.platform {
                                Platform::Linux => {
                                    let path = match &self.command {
                                        Some(command) => command.program.as_str(),
                                        None => "",
                                    };
                                    linux_launch_failure(path, error.as_str())
                                },
                                Platform::MacOs => macos_launch_failure(
                                    self.debugger.as_str(),
                                    error.as_str(),
                                ),
                            },
                        ),
                    };
                    match message {
                        None => self.proceed_at(Phase::Blocked),
                        Some(message) => self.fail(prefix(message.as_str())),
                    }
                },
                _ => self.proceed(),
            },
            Phase::Blocked => match event {
                Event::Flag(value) => {
                    if value {
                        self.proceed()
                    } else {
                        let next = Attach { phase: Phase::Released, flag: false, ..self };
                        next.proceed()
                    }
                },
                _ => self.proceed(),
            },
            Phase::Idle | Phase::Released | Phase::Declined | Phase::Failed => self.proceed(),
        }
    }
}

} // verus!

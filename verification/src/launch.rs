//! How each platform opens a terminal with the debugger in it.
//!
//! On Linux a terminal emulator is started: `alacritty` runs the debugger
//! itself, and is preferred for it; `xterm` runs the wrapper, which finds
//! its orders in the environment. On macOS a script tells Terminal.app to run
//! the debugger. Looking for the programs and starting them is left to the
//! caller; what is looked at and what is started is decided here.

use crate::backend::{debugger_args, debugger_arguments, Backend, GDB};
use crate::protocol::{encode, encoded};
use crate::text::{has_char, same_text, texts};
use vstd::prelude::*;
use vstd::string::*;

verus! {

/// The command name of the wrapper.
pub const WRAPPER: &'static str = "debug-here-gdb-wrapper";

/// The terminal emulator that runs the debugger itself.
pub const ALACRITTY: &'static str = "alacritty";

/// The terminal emulator that runs the wrapper.
pub const XTERM: &'static str = "xterm";

/// The program that runs a script for Terminal.app.
pub const OSASCRIPT: &'static str = "osascript";

/// The file that holds the ptrace policy of a Linux kernel.
pub const PTRACE_SCOPE: &'static str = "/proc/sys/kernel/yama/ptrace_scope";

/// A platform with a way of its own to open the terminal.
#[derive(Clone, Copy, Debug, PartialEq, Eq, Structural)]
pub enum Platform {
    Linux,
    MacOs,
}

impl Platform {
    /// The backend that is used where the program asks for none.
    pub open spec fn default_backend(self) -> Backend {
        match self {
            Platform::Linux => Backend::Gdb,
            Platform::MacOs => Backend::Lldb,
        }
    }

    /// The command name of the debugger that is used where the program asks
    /// for none.
    pub fn default_debugger(self) -> (name: &'static str)
        ensures
            name@ == self.default_backend().name_text(),
    {
        match self {
            Platform::Linux => Backend::Gdb.name(),
            Platform::MacOs => Backend::Lldb.name(),
        }
    }
}

/// Whether the ptrace policy lets a debugger attach to a process that it did
/// not start: the policy file could be read, and begins with the digit zero.
pub open spec fn ptrace_allows(scope: Option<Seq<u8>>) -> bool {
    scope matches Some(bytes) && bytes.len() >= 1 && bytes[0] == 0x30
}

/// The advice for a policy that does not let the debugger attach.
pub open spec fn ptrace_advice_text() -> Seq<char> {
    "\n            ptrace_scope must be set to 0 for debug-here to work.\n            This will allow any process with a given uid to rummage around\n            in the memory of any other process with the same uid, so there\n            are some security risks. To set ptrace_scope for just this\n            session you can do:\n\n            echo 0 | sudo tee /proc/sys/kernel/yama/ptrace_scope\n\n            Giving up on debugging for now.\n            "@
}

/// The diagnostic for a macOS without `osascript`.
pub open spec fn no_osascript_text() -> Seq<char> {
    "debug-here: can't find osascript. Bailing."@
}

/// The diagnostic for a Linux without a terminal emulator that is known.
pub open spec fn no_terminal_text() -> Seq<char> {
    "\n                can't find alacritty or xterm on your path. Those are the\n                only terminal emulators currently supported on linux.\n                "@
}

/// Checks that a debugger can attach on this Linux. `scope` is what the
/// policy file holds, or `None` if it could not be read.
pub fn linux_check(scope: Option<&[u8]>) -> (r: Result<(), String>)
    ensures
        r is Ok <==> ptrace_allows(
            match scope {
                Some(bytes) => Some(bytes@),
                None => None,
            },
        ),
        r matches Err(advice) ==> advice@ == ptrace_advice_text(),
{
    let the_kids_are_ok = match scope {
        Some(bytes) => bytes.len() >= 1 && bytes[0] == 0x30,
        None => false,
    };
    if !the_kids_are_ok {
        return Err(
            String::from_str(
                "\n            ptrace_scope must be set to 0 for debug-here to work.\n            This will allow any process with a given uid to rummage around\n            in the memory of any other process with the same uid, so there\n            are some security risks. To set ptrace_scope for just this\n            session you can do:\n\n            echo 0 | sudo tee /proc/sys/kernel/yama/ptrace_scope\n\n            Giving up on debugging for now.\n            ",
            ),
        );
    }
    Ok(())
}

/// Checks that a terminal can be opened on this macOS. `osascript_found`
/// says whether `osascript` is on the search path.
pub fn macos_check(osascript_found: bool) -> (r: Result<(), String>)
    ensures
        r is Ok <==> osascript_found,
        r matches Err(message) ==> message@ == no_osascript_text(),
{
    if !osascript_found {
        return Err(String::from_str("debug-here: can't find osascript. Bailing."));
    }
    Ok(())
}

/// The message for the wrapper that asks for `debugger` to attach to `pid`.
/// For `rust-gdb` the first version of the format is enough, and it is
/// used, so that an older wrapper understands; any other debugger takes
/// version 2.
pub open spec fn lifeline_text(debugger: Seq<char>, pid: nat) -> Seq<char> {
    if debugger == GDB@ {
        encoded(1, pid, None).unwrap()
    } else {
        encoded(2, pid, Some(debugger)).unwrap()
    }
}

/// Writes the message for the wrapper that asks for `debugger` to attach to
/// the process `pid`.
pub fn lifeline_message(debugger: &str, pid: u32) -> (text: String)
    ensures
        text@ == lifeline_text(debugger@, pid as nat),
{
    if same_text(debugger, GDB) {
        encode(1, pid, None).unwrap()
    } else {
        encode(2, pid, Some(debugger)).unwrap()
    }
}

/// The terminal emulators that are known on Linux.
#[derive(Clone, Copy, Debug, PartialEq, Eq, Structural)]
pub enum TerminalKind {
    /// Runs the debugger itself.
    Alacritty,
    /// Runs the wrapper.
    Xterm,
}

/// A terminal emulator that was found.
#[derive(Clone, Debug, PartialEq, Eq)]
pub struct Terminal {
    pub kind: TerminalKind,
    /// Where it was found.
    pub path: String,
}

/// A terminal emulator that was found, as plain values.
pub struct TerminalView {
    pub kind: TerminalKind,
    pub path: Seq<char>,
}

impl View for Terminal {
    type V = TerminalView;

    open spec fn view(&self) -> TerminalView {
        TerminalView { kind: self.kind, path: self.path@ }
    }
}

/// The characters of a text that may be absent.
pub open spec fn optional_text(text: Option<String>) -> Option<Seq<char>> {
    match text {
        Some(text) => Some(text@),
        None => None,
    }
}

/// The terminal emulator to use, given where `alacritty` and `xterm` were
/// found: `alacritty` if it is there, else `xterm`, else none.
pub open spec fn chosen_terminal(alacritty: Option<Seq<char>>, xterm: Option<Seq<char>>) -> Option<
    TerminalView,
> {
    match alacritty {
        Some(path) => Some(TerminalView { kind: TerminalKind::Alacritty, path }),
        None => match xterm {
            Some(path) => Some(TerminalView { kind: TerminalKind::Xterm, path }),
            None => None,
        },
    }
}

/// Picks the terminal emulator, given where `alacritty` and `xterm` were
/// found on the search path.
pub fn choose_terminal(alacritty: Option<String>, xterm: Option<String>) -> (r: Result<
    Terminal,
    String,
>)
    ensures
        match r {
            Ok(terminal) => chosen_terminal(optional_text(alacritty), optional_text(xterm)) == Some(
                terminal@,
            ),
            Err(message) => chosen_terminal(optional_text(alacritty), optional_text(xterm)) is None
                && message@ == no_terminal_text(),
        },
{
    match alacritty {
        Some(path) => Ok(Terminal { kind: TerminalKind::Alacritty, path }),
        None => match xterm {
            Some(path) => Ok(Terminal { kind: TerminalKind::Xterm, path }),
            None => Err(
                String::from_str(
                    "\n                can't find alacritty or xterm on your path. Those are the\n                only terminal emulators currently supported on linux.\n                ",
                ),
            ),
        },
    }
}

/// A program to start, with its arguments.
#[derive(Clone, Debug, PartialEq, Eq)]
pub struct LaunchCommand {
    pub program: String,
    pub args: Vec<String>,
}

/// A program to start, as plain values.
pub struct LaunchCommandView {
    pub program: Seq<char>,
    pub args: Seq<Seq<char>>,
}

impl View for LaunchCommand {
    type V = LaunchCommandView;

    open spec fn view(&self) -> LaunchCommandView {
        LaunchCommandView { program: self.program@, args: texts(self.args@) }
    }
}

/// What is started on Linux. `alacritty` is told to run the debugger with
/// the arguments of its backend, which there are none of for a debugger
/// that is no known backend; `xterm` is told to run the wrapper.
pub open spec fn linux_launch(terminal: TerminalView, debugger: Seq<char>, pid: nat) -> Result<
    LaunchCommandView,
    Seq<char>,
> {
    match terminal.kind {
        TerminalKind::Alacritty => match debugger_arguments(debugger, pid) {
            Ok(args) => Ok(
                LaunchCommandView { program: terminal.path, args: seq!["-e"@, debugger] + args },
            ),
            Err(message) => Err(message),
        },
        TerminalKind::Xterm => Ok(
            LaunchCommandView { program: terminal.path, args: seq![WRAPPER@] },
        ),
    }
}

/// The command that opens `terminal` on Linux for `debugger` to attach to
/// the process `pid`, or the diagnostic if `terminal` is to run a debugger
/// that is no known backend.
pub fn linux_launch_term(terminal: &Terminal, debugger: &str, pid: u32) -> (r: Result<
    LaunchCommand,
    String,
>)
    ensures
        match r {
            Ok(command) => linux_launch(terminal@, debugger@, pid as nat) == Ok::<
                LaunchCommandView,
                Seq<char>,
            >(command@),
            Err(message) => linux_launch(terminal@, debugger@, pid as nat) == Err::<
                LaunchCommandView,
                Seq<char>,
            >(message@),
        },
{
    let mut args: Vec<String> = Vec::new();
    match terminal.kind {
        TerminalKind::Alacritty => {
            let mut rest = match debugger_args(debugger, pid) {
                Ok(rest) => rest,
                Err(message) => {
                    return Err(message);
                },
            };
            args.push(String::from_str("-e"));
            args.push(String::from_str(debugger));
            let ghost head = args@;
            let ghost tail = rest@;
            args.append(&mut rest);
            assert(texts(args@) =~= texts(head) + texts(tail));
            assert(texts(head) =~= seq!["-e"@, debugger@]);
        },
        TerminalKind::Xterm => {
            args.push(String::from_str(WRAPPER));
            assert(texts(args@) =~= seq![WRAPPER@]);
        },
    }
    Ok(LaunchCommand { program: terminal.path.clone(), args })
}

/// An argument as it is written in a command line for a shell: between
/// single quotes if it holds a space, and as it is otherwise.
pub open spec fn shell_word(arg: Seq<char>) -> Seq<char> {
    if arg.contains(' ') {
        "'"@ + arg + "'"@
    } else {
        arg
    }
}

/// The arguments as they are written in a command line for a shell, with a
/// space between one and the next.
pub open spec fn shell_words(args: Seq<Seq<char>>) -> Seq<char>
    decreases args.len(),
{
    if args.len() == 0 {
        Seq::empty()
    } else if args.len() == 1 {
        shell_word(args[0])
    } else {
        shell_words(args.drop_last()) + " "@ + shell_word(args.last())
    }
}

/// The script that tells Terminal.app to run `debugger` with `args`.
pub open spec fn terminal_script(debugger: Seq<char>, args: Seq<Seq<char>>) -> Seq<char> {
    "tell app \"Terminal\"\n               do script \"exec "@ + debugger + " "@ + shell_words(args)
        + "\"\n           end tell"@
}

/// What is started on macOS: `osascript`, with the script that tells
/// Terminal.app to run the debugger with the arguments of its backend. There
/// is nothing to start for a debugger that is no known backend.
pub open spec fn macos_launch(debugger: Seq<char>, pid: nat) -> Result<LaunchCommandView, Seq<char>> {
    match debugger_arguments(debugger, pid) {
        Ok(args) => Ok(
            LaunchCommandView {
                program: OSASCRIPT@,
                args: seq!["-e"@, terminal_script(debugger, args)],
            },
        ),
        Err(message) => Err(message),
    }
}

/// Writes the arguments as a command line for a shell.
pub fn shell_command_line(args: &Vec<String>) -> (line: String)
    ensures
        line@ == shell_words(texts(args@)),
{
    let mut line = String::new();
    let mut i: usize = 0;
    while i < args.len()
        invariant
            i <= args.len(),
            line@ == shell_words(texts(args@).take(i as int)),
        decreases args.len() - i,
    {
        let ghost before = texts(args@).take(i as int);
        let ghost after = texts(args@).take(i + 1);
        proof {
            assert(after.drop_last() =~= before);
            assert(after.last() == args@[i as int]@);
            if i == 0 {
                assert(before =~= Seq::<Seq<char>>::empty());
            }
        }
        if i > 0 {
            line.append(" ");
        }
        let arg = args[i].as_str();
        if has_char(arg, ' ') {
            line.append("'");
            line.append(arg);
            line.append("'");
        } else {
            line.append(arg);
        }
        assert(line@ =~= shell_words(after));
        i = i + 1;
    }
    assert(texts(args@).take(args.len() as int) =~= texts(args@));
    line
}

/// The command that opens Terminal.app on macOS for `debugger` to attach to
/// the process `pid`, or the diagnostic if `debugger` is no known backend.
pub fn macos_launch_term(debugger: &str, pid: u32) -> (r: Result<LaunchCommand, String>)
    ensures
        match r {
            Ok(command) => macos_launch(debugger@, pid as nat) == Ok::<LaunchCommandView, Seq<char>>(
                command@,
            ),
            Err(message) => macos_launch(debugger@, pid as nat) == Err::<
                LaunchCommandView,
                Seq<char>,
            >(message@),
        },
{
    let debugger_args = match debugger_args(debugger, pid) {
        Ok(args) => args,
        Err(message) => {
            return Err(message);
        },
    };
    let words = shell_command_line(&debugger_args);
    let mut script = String::from_str(
        "tell app \"Terminal\"\n               do script \"exec ",
    );
    script.append(debugger);
    script.append(" ");
    script.append(words.as_str());
    script.append("\"\n           end tell");
    let mut args: Vec<String> = Vec::new();
    args.push(String::from_str("-e"));
    args.push(script);
    assert(texts(args@) =~= seq!["-e"@, terminal_script(debugger@, texts(debugger_args@))]);
    Ok(LaunchCommand { program: String::from_str(OSASCRIPT), args })
}

/// The diagnostic for a terminal emulator that could not be started on
/// Linux: where it was found, between double quotes, and what went wrong.
pub open spec fn linux_launch_failure_text(path: Seq<char>, error: Seq<char>) -> Seq<char> {
    "failed to launch rust-gdb in \""@ + path + "\": "@ + error
}

/// The diagnostic for a script that could not be started on macOS.
pub open spec fn macos_launch_failure_text(debugger: Seq<char>, error: Seq<char>) -> Seq<char> {
    "failed to launch "@ + debugger + " in Terminal.app: "@ + error
}

/// Writes the diagnostic for a terminal emulator that could not be started
/// on Linux.
pub fn linux_launch_failure(path: &str, error: &str) -> (message: String)
    ensures
        message@ == linux_launch_failure_text(path@, error@),
{
    let mut message = String::from_str("failed to launch rust-gdb in \"");
    message.append(path);
    message.append("\": ");
    message.append(error);
    message
}

/// Writes the diagnostic for a script that could not be started on macOS.
pub fn macos_launch_failure(debugger: &str, error: &str) -> (message: String)
    ensures
        message@ == macos_launch_failure_text(debugger@, error@),
{
    let mut message = String::from_str("failed to launch ");
    message.append(debugger);
    message.append(" in Terminal.app: ");
    message.append(error);
    message
}

} // verus!

//! The debuggers that can be told to attach, and the exact words to tell
//! them with.
//!
//! Each backend is started with a fixed argument vector: attach to a process
//! by its identifier, evaluate one expression that sets the spin variable of
//! the waiting program to zero, and let the program run on. The spin variable
//! is called `looping`; the waiting program declares it under that name.

use crate::decimal::{decimal, decimal_string};
use crate::text::{same_text, texts};
use vstd::prelude::*;
use vstd::string::*;

verus! {

/// The command name of the gdb backend.
pub const GDB: &'static str = "rust-gdb";

/// The command name of the lldb backend.
pub const LLDB: &'static str = "rust-lldb";

/// A debugger whose command line is known.
#[derive(Clone, Copy, Debug, PartialEq, Eq, Structural)]
pub enum Backend {
    /// `rust-gdb`
    Gdb,
    /// `rust-lldb`
    Lldb,
}

/// The backend that goes by the command name `name`, if there is one.
pub open spec fn backend_named(name: Seq<char>) -> Option<Backend> {
    if name == GDB@ {
        Some(Backend::Gdb)
    } else if name == LLDB@ {
        Some(Backend::Lldb)
    } else {
        None
    }
}

impl Backend {
    /// The command name of the backend.
    pub open spec fn name_text(self) -> Seq<char> {
        match self {
            Backend::Gdb => GDB@,
            Backend::Lldb => LLDB@,
        }
    }

    /// The option that is followed by the identifier of the process to
    /// attach to.
    pub open spec fn attach_flag(self) -> Seq<char> {
        match self {
            Backend::Gdb => "-pid"@,
            Backend::Lldb => "-p"@,
        }
    }

    /// The option that is followed by one command for the debugger to run
    /// once it is attached.
    pub open spec fn command_flag(self) -> Seq<char> {
        match self {
            Backend::Gdb => "-ex"@,
            Backend::Lldb => "-o"@,
        }
    }

    /// The command that sets the spin variable to zero.
    pub open spec fn release_command(self) -> Seq<char> {
        match self {
            Backend::Gdb => "set variable looping = 0"@,
            Backend::Lldb => "expression looping = 0"@,
        }
    }

    /// The command that lets the program run on.
    pub open spec fn resume_command(self) -> Seq<char> {
        "finish"@
    }

    /// The whole argument vector for attaching to the process whose
    /// identifier is written `pid`: attach, release, resume, in that order.
    pub open spec fn arguments(self, pid: Seq<char>) -> Seq<Seq<char>> {
        seq![
            self.attach_flag(),
            pid,
            self.command_flag(),
            self.release_command(),
            self.command_flag(),
            self.resume_command(),
        ]
    }

    /// The command name of the backend.
    pub fn name(self) -> (r: &'static str)
        ensures
            r@ == self.name_text(),
    {
        match self {
            Backend::Gdb => GDB,
            Backend::Lldb => LLDB,
        }
    }

    /// The argument vector that makes this backend attach to the process
    /// whose identifier is written `pid`, release it and let it run on.
    pub fn attach_arguments(self, pid: &str) -> (args: Vec<String>)
        ensures
            texts(args@) == self.arguments(pid@),
    {
        let mut args: Vec<String> = Vec::new();
        match self {
            Backend::Gdb => {
                args.push(String::from_str("-pid"));
                args.push(String::from_str(pid));
                args.push(String::from_str("-ex"));
                args.push(String::from_str("set variable looping = 0"));
                args.push(String::from_str("-ex"));
                args.push(String::from_str("finish"));
            },
            Backend::Lldb => {
                args.push(String::from_str("-p"));
                args.push(String::from_str(pid));
                args.push(String::from_str("-o"));
                args.push(String::from_str("expression looping = 0"));
                args.push(String::from_str("-o"));
                args.push(String::from_str("finish"));
            },
        }
        assert(texts(args@) =~= self.arguments(pid@));
        args
    }
}

/// The backend that goes by the command name `name`, if there is one.
pub fn backend_of(name: &str) -> (r: Option<Backend>)
    ensures
        r == backend_named(name@),
{
    if same_text(name, GDB) {
        Some(Backend::Gdb)
    } else if same_text(name, LLDB) {
        Some(Backend::Lldb)
    } else {
        None
    }
}

/// The diagnostic for a debugger that is no known backend.
pub open spec fn unknown_debugger_text(name: Seq<char>) -> Seq<char> {
    "unknown debugger: "@ + name
}

/// Writes the diagnostic for a debugger that is no known backend.
pub fn unknown_debugger(name: &str) -> (message: String)
    ensures
        message@ == unknown_debugger_text(name@),
{
    let mut message = String::from_str("unknown debugger: ");
    message.append(name);
    message
}

/// The arguments for the debugger named `debugger` and the process `pid`,
/// or the diagnostic if there is no backend of that name.
pub open spec fn debugger_arguments(debugger: Seq<char>, pid: nat) -> Result<Seq<Seq<char>>, Seq<char>> {
    match backend_named(debugger) {
        Some(backend) => Ok(backend.arguments(decimal(pid))),
        None => Err(unknown_debugger_text(debugger)),
    }
}

/// The arguments with which the debugger named `debugger` attaches to the
/// process `pid`, releases it and lets it run on. A debugger that is no
/// known backend is turned down by name.
pub fn debugger_args(debugger: &str, pid: u32) -> (r: Result<Vec<String>, String>)
    ensures
        match r {
            Ok(args) => debugger_arguments(debugger@, pid as nat) == Ok::<Seq<Seq<char>>, Seq<char>>(
                texts(args@),
            ),
            Err(message) => debugger_arguments(debugger@, pid as nat) == Err::<
                Seq<Seq<char>>,
                Seq<char>,
            >(message@),
        },
{
    match backend_of(debugger) {
        Some(backend) => {
            let pid_text = decimal_string(pid as u64);
            Ok(backend.attach_arguments(pid_text.as_str()))
        },
        None => Err(unknown_debugger(debugger)),
    }
}

/// The two backends go by different names.
pub proof fn lemma_backend_names_differ()
    ensures
        GDB@ != LLDB@,
        forall|b: Backend| backend_named(b.name_text()) == Some(b),
{
    reveal_strlit("rust-gdb");
    reveal_strlit("rust-lldb");
    assert(GDB@.len() != LLDB@.len());
}

} // verus!

//! What the wrapper process does with the message it finds.
//!
//! The wrapper runs inside the terminal that the waiting program opened. It
//! reads the message, and either replaces itself by the debugger that the
//! message asks for, or shows what is wrong and keeps the terminal open. It
//! starts no program but a debugger whose command line is known.

use crate::backend::{backend_named, backend_of, unknown_debugger, unknown_debugger_text};
use crate::protocol::{decode, decoded, MessageView, ProtocolMessage};
use crate::text::texts;
use vstd::prelude::*;
use vstd::string::*;

verus! {

/// What the wrapper is to do.
#[derive(Clone, Debug, PartialEq, Eq)]
pub enum WrapperPlan {
    /// Replace the wrapper's own process by `program`, started with `args`.
    Exec { program: String, args: Vec<String> },
    /// Show `message` and stay, so that it can be read.
    Fail { message: String },
}

/// A plan as plain values.
pub enum WrapperPlanView {
    Exec { program: Seq<char>, args: Seq<Seq<char>> },
    Fail { message: Seq<char> },
}

impl View for WrapperPlan {
    type V = WrapperPlanView;

    open spec fn view(&self) -> WrapperPlanView {
        match self {
            WrapperPlan::Exec { program, args } => WrapperPlanView::Exec {
                program: program@,
                args: texts(args@),
            },
            WrapperPlan::Fail { message } => WrapperPlanView::Fail { message: message@ },
        }
    }
}

/// The diagnostic for a wrapper that was started without a message.
pub open spec fn missing_lifeline_text() -> Seq<char> {
    "Expected RUST_DEBUG_HERE_LIFELINE to be defined.\n               This is a bug with debug-here. Please report it\n               at `https://github.com/ethanpailes/debug-here/issues`.\n               "@
}

/// What is done with a message: the debugger that it asks for is started
/// with the arguments of its backend, if it is a known backend.
pub open spec fn dispatched(message: MessageView) -> WrapperPlanView {
    match backend_named(message.debugger_name()) {
        Some(backend) => WrapperPlanView::Exec {
            program: message.debugger_name(),
            args: backend.arguments(message.pid),
        },
        None => WrapperPlanView::Fail { message: unknown_debugger_text(message.debugger_name()) },
    }
}

/// What is done with the value of the environment variable, which is `None`
/// if the variable is not set.
pub open spec fn planned(lifeline: Option<Seq<char>>) -> WrapperPlanView {
    match lifeline {
        None => WrapperPlanView::Fail { message: missing_lifeline_text() },
        Some(text) => match decoded(text) {
            Err(e) => WrapperPlanView::Fail { message: e.text() },
            Ok(message) => dispatched(message),
        },
    }
}

/// Decides what to do with a message that was read.
pub fn dispatch(message: &ProtocolMessage) -> (plan: WrapperPlan)
    ensures
        plan@ == dispatched(message@),
        plan is Exec ==> backend_named(plan->program@) is Some,
{
    let name = message.debugger_name();
    match backend_of(name) {
        Some(backend) => WrapperPlan::Exec {
            program: String::from_str(name),
            args: backend.attach_arguments(message.pid.as_str()),
        },
        None => WrapperPlan::Fail { message: unknown_debugger(name) },
    }
}

/// Decides what the wrapper does, from the value of the environment
/// variable as it was found: `None` if the variable is not set.
pub fn plan(lifeline: Option<&str>) -> (plan: WrapperPlan)
    ensures
        plan@ == planned(
            match lifeline {
                Some(text) => Some(text@),
                None => None,
            },
        ),
        plan is Exec ==> backend_named(plan->program@) is Some,
{
    match lifeline {
        None => WrapperPlan::Fail {
            message: String::from_str(
                "Expected RUST_DEBUG_HERE_LIFELINE to be defined.\n               This is a bug with debug-here. Please report it\n               at `https://github.com/ethanpailes/debug-here/issues`.\n               ",
            ),
        },
        Some(text) => match decode(text) {
            Err(e) => WrapperPlan::Fail { message: e.message() },
            Ok(message) => dispatch(&message),
        },
    }
}

/// The wrapper starts nothing but a known debugger, and starts it with the
/// arguments of its backend for the process that the message names.
pub proof fn lemma_only_known_debuggers_start(lifeline: Option<Seq<char>>)
    ensures
        planned(lifeline) matches WrapperPlanView::Exec { program, args } ==> {
            &&& lifeline is Some
            &&& decoded(lifeline.unwrap()) matches Ok(message)
            &&& backend_named(program) matches Some(backend)
            &&& program == message.debugger_name()
            &&& args == backend.arguments(message.pid)
        },
{
}

} // verus!

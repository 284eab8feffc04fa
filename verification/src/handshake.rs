//! The two sides of the handshake, taken together.
//!
//! The waiting program writes the message; the wrapper reads it in another
//! process. What the one means is what the other understands: the debugger
//! that the wrapper starts is the debugger that was asked for, and it is
//! told to attach to the process that asked.

use crate::backend::{
    backend_named, lemma_backend_names_differ, unknown_debugger_text, Backend, GDB,
};
use crate::decimal::decimal;
use crate::launch::{lifeline_text, Platform};
use crate::protocol::{decoded, encoded, lemma_decode_encode};
use crate::wrapper::{planned, WrapperPlanView};
use vstd::prelude::*;

verus! {

/// The command names of the two backends hold no comma, so each is one
/// field of a message.
pub proof fn lemma_backend_names_are_one_field(backend: Backend)
    ensures
        !backend.name_text().contains(','),
{
    reveal_strlit("rust-gdb");
    reveal_strlit("rust-lldb");
    let name = backend.name_text();
    assert forall|i: int| 0 <= i < name.len() implies name[i] != ',' by {
        match backend {
            Backend::Gdb => {
                assert(name.len() == 8);
            },
            Backend::Lldb => {
                assert(name.len() == 9);
            },
        }
    }
}

/// The message that the waiting program writes for `debugger` is read by
/// the wrapper as a request for that debugger and that process: a known
/// backend is started, by the name that was asked for and with its
/// arguments for the process `pid`; anything else is turned down by name.
/// This holds for every name without a comma in it.
pub proof fn lemma_wrapper_starts_what_was_asked(debugger: Seq<char>, pid: nat)
    requires
        !debugger.contains(','),
    ensures
        decoded(lifeline_text(debugger, pid)) matches Ok(message) && message.debugger_name()
            == debugger && message.pid == decimal(pid),
        planned(Some(lifeline_text(debugger, pid))) == match backend_named(debugger) {
            Some(backend) => WrapperPlanView::Exec {
                program: debugger,
                args: backend.arguments(decimal(pid)),
            },
            None => WrapperPlanView::Fail { message: unknown_debugger_text(debugger) },
        },
{
    if debugger == GDB@ {
        lemma_decode_encode(1, pid, debugger);
        assert(encoded(1, pid, Some(debugger)) == encoded(1, pid, None));
    } else {
        lemma_decode_encode(2, pid, debugger);
    }
}

/// Where the program asks for no debugger, the wrapper starts the backend
/// of the platform for the process that asked. On Linux the message is then
/// of the first version: the digit one, a comma, and the process identifier
/// in decimal digits.
pub proof fn lemma_default_debugger_is_started(platform: Platform, pid: nat)
    ensures
        ({
            let backend = platform.default_backend();
            planned(Some(lifeline_text(backend.name_text(), pid))) == WrapperPlanView::Exec {
                program: backend.name_text(),
                args: backend.arguments(decimal(pid)),
            }
        }),
        lifeline_text(Platform::Linux.default_backend().name_text(), pid) == seq!['1', ','] + decimal(
            pid,
        ),
{
    let backend = platform.default_backend();
    lemma_backend_names_are_one_field(backend);
    lemma_wrapper_starts_what_was_asked(backend.name_text(), pid);
    lemma_backend_names_differ();
    assert(decimal(1) =~= seq!['1']);
    assert(decimal(1) + seq![','] + decimal(pid) =~= seq!['1', ','] + decimal(pid));
}

} // verus!

//! Self-attach handshake for a running program that wants a debugger.
//!
//! A program asks, at some point of its own execution, for a debugger to
//! attach to it. It opens a terminal, has the debugger started there, and
//! spins on a flag until the debugger clears it. This library holds the
//! rules of that handshake, each with a contract that Verus proves:
//!
//! - `guard`: the latch that lets one request per process through;
//! - `protocol`: the message that goes to the process in the terminal;
//! - `backend`: the debuggers, and the arguments that make them attach;
//! - `launch`: what each platform checks and starts;
//! - `attach`: the request as a state machine, step by step;
//! - `wrapper`: what the process in the terminal does with the message;
//! - `trace` and `handshake`: what holds of every run of a request, and of
//!   the two processes taken together;
//! - `decimal` and `text`: numbers as digits, and texts as fields;
//! - `demo`: the routine that the demonstration program debugs.
//!
//! The library reads no file and starts no program. Whoever uses it carries
//! out the actions that it asks for and tells it what came of them.

pub mod attach;
pub mod backend;
pub mod decimal;
pub mod demo;
pub mod guard;
pub mod handshake;
pub mod launch;
pub mod protocol;
pub mod text;
pub mod trace;
pub mod wrapper;

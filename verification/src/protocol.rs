//! The handshake message and its text form.
//!
//! The waiting program hands one short message to the process that starts
//! the debugger, in an environment variable. The message is a list of fields
//! separated by commas: the version of the format, the identifier of the
//! waiting process and, from version 2 on, the command name of the debugger
//! to start. A message of a version below 2 names no debugger; `rust-gdb` is
//! meant.

use crate::backend::GDB;
use crate::decimal::{
    decimal, decimal_string, is_digit, lemma_decimal_digits, lemma_parse_decimal,
    parse_number, parse_usize, NumberError,
};
use crate::text::{
    lemma_split_field, lemma_split_fields_are_plain, lemma_split_plain, split, split_fields, texts,
};
use vstd::prelude::*;
use vstd::string::*;

verus! {

/// The environment variable that carries the message.
pub const LIFELINE_VAR: &'static str = "RUST_DEBUG_HERE_LIFELINE";

/// The newest version of the format that is understood here.
pub const MAX_VERSION: usize = 2;

/// The first version of the format that names the debugger.
pub const FIRST_VERSION_WITH_DEBUGGER: usize = 2;

/// A handshake message.
#[derive(Clone, Debug, PartialEq, Eq)]
pub struct ProtocolMessage {
    /// The version of the format that the message was written in.
    pub version: usize,
    /// The identifier of the waiting process, as it is written in the
    /// message. It is handed to the debugger as it stands.
    pub pid: String,
    /// The command name of the debugger to start. It is there exactly when
    /// the version is 2 or above.
    pub debugger: Option<String>,
}

/// A handshake message as plain values.
pub struct MessageView {
    pub version: nat,
    pub pid: Seq<char>,
    pub debugger: Option<Seq<char>>,
}

impl MessageView {
    /// A message holds exactly the fields that its version calls for, and
    /// its version is one that is understood.
    pub open spec fn well_formed(self) -> bool {
        &&& self.version <= MAX_VERSION
        &&& (self.version >= FIRST_VERSION_WITH_DEBUGGER <==> self.debugger is Some)
    }

    /// The command name of the debugger that the message asks for: the one
    /// it names, or `rust-gdb` if it names none.
    pub open spec fn debugger_name(self) -> Seq<char> {
        match self.debugger {
            Some(name) => name,
            None => GDB@,
        }
    }
}

impl View for ProtocolMessage {
    type V = MessageView;

    open spec fn view(&self) -> MessageView {
        MessageView {
            version: self.version as nat,
            pid: self.pid@,
            debugger: match self.debugger {
                Some(name) => Some(name@),
                None => None,
            },
        }
    }
}

/// Why a text is no handshake message.
#[derive(Clone, Copy, Debug, PartialEq, Eq, Structural)]
pub enum DecodeError {
    /// There is no field for the version.
    MissingVersion,
    /// The first field is no number.
    UnparsableVersion(NumberError),
    /// The version is newer than the newest that is understood here.
    UnsupportedVersion(usize),
    /// There is no field for the process identifier.
    MissingPid,
    /// The version calls for the debugger's name, and there is no field for
    /// it.
    MissingDebugger,
}

impl DecodeError {
    /// The diagnostic for the error.
    pub open spec fn text(self) -> Seq<char> {
        match self {
            DecodeError::MissingVersion => "Failed to parse version number: "@
                + "Couldn't split out version number."@,
            DecodeError::UnparsableVersion(e) => "Failed to parse version number: "@ + e.text(),
            DecodeError::UnsupportedVersion(v) =>
                "Don't know what to do with this debug-here protocol\n                     version ("@
                + decimal(v as nat)
                + "). You might want to re-install\n                     debug-here-gdb-wrapper."@,
            DecodeError::MissingPid => "Failed to get the PID of the program to be debugged."@,
            DecodeError::MissingDebugger => "Failed to get the name of the debugger to use."@,
        }
    }

    /// The diagnostic for the error, for a person to read.
    pub fn message(&self) -> (r: String)
        ensures
            r@ == self.text(),
    {
        match self {
            DecodeError::MissingVersion => {
                let mut r = String::from_str("Failed to parse version number: ");
                r.append("Couldn't split out version number.");
                r
            },
            DecodeError::UnparsableVersion(e) => {
                let mut r = String::from_str("Failed to parse version number: ");
                r.append(e.message());
                r
            },
            DecodeError::UnsupportedVersion(v) => {
                let mut r = String::from_str(
                    "Don't know what to do with this debug-here protocol\n                     version (",
                );
                let number = decimal_string(*v as u64);
                r.append(number.as_str());
                r.append("). You might want to re-install\n                     debug-here-gdb-wrapper.");
                r
            },
            DecodeError::MissingPid => String::from_str(
                "Failed to get the PID of the program to be debugged.",
            ),
            DecodeError::MissingDebugger => String::from_str(
                "Failed to get the name of the debugger to use.",
            ),
        }
    }
}

/// The text of a message: the version and the process identifier in decimal
/// digits and, from version 2 on, the debugger's name, with a comma between
/// one field and the next. There is no text for a message of version 2 or
/// above that names no debugger. Below version 2 the name is left out.
pub open spec fn encoded(version: nat, pid: nat, debugger: Option<Seq<char>>) -> Option<Seq<char>> {
    if version < FIRST_VERSION_WITH_DEBUGGER {
        Some(decimal(version) + seq![','] + decimal(pid))
    } else {
        match debugger {
            Some(name) => Some(decimal(version) + seq![','] + decimal(pid) + seq![','] + name),
            None => None,
        }
    }
}

/// What a list of fields is read as. The checks are made in this order: the
/// version is there, it is a number, it is not too new, the process
/// identifier is there, and the debugger's name is there if the version
/// calls for it. Fields beyond those that the version calls for are ignored.
pub open spec fn decoded_fields(fields: Seq<Seq<char>>) -> Result<MessageView, DecodeError> {
    if fields.len() < 1 {
        Err(DecodeError::MissingVersion)
    } else {
        match parse_number(fields[0], usize::MAX as nat) {
            Err(e) => Err(DecodeError::UnparsableVersion(e)),
            Ok(version) => if version > MAX_VERSION {
                Err(DecodeError::UnsupportedVersion(version as usize))
            } else if fields.len() < 2 {
                Err(DecodeError::MissingPid)
            } else if version < FIRST_VERSION_WITH_DEBUGGER {
                Ok(MessageView { version, pid: fields[1], debugger: None })
            } else if fields.len() < 3 {
                Err(DecodeError::MissingDebugger)
            } else {
                Ok(MessageView { version, pid: fields[1], debugger: Some(fields[2]) })
            },
        }
    }
}

/// What a text is read as: its fields are those between the commas.
pub open spec fn decoded(s: Seq<char>) -> Result<MessageView, DecodeError> {
    decoded_fields(split(s, ','))
}

/// Writes a message. Returns `None` for a version of 2 or above without a
/// debugger's name, and the text of the message otherwise.
pub fn encode(version: usize, pid: u32, debugger: Option<&str>) -> (r: Option<String>)
    ensures
        match r {
            Some(text) => encoded(version as nat, pid as nat, debugger_view(debugger)) == Some(text@),
            None => encoded(version as nat, pid as nat, debugger_view(debugger)) is None,
        },
{
    let mut text = decimal_string(version as u64);
    text.append(",");
    let pid_text = decimal_string(pid as u64);
    text.append(pid_text.as_str());
    proof {
        reveal_strlit(",");
        assert(","@ =~= seq![',']);
    }
    if version < FIRST_VERSION_WITH_DEBUGGER {
        Some(text)
    } else {
        match debugger {
            Some(name) => {
                text.append(",");
                text.append(name);
                Some(text)
            },
            None => None,
        }
    }
}

/// The characters of a name that may be absent.
pub open spec fn debugger_view(debugger: Option<&str>) -> Option<Seq<char>> {
    match debugger {
        Some(name) => Some(name@),
        None => None,
    }
}

/// Reads a message from its fields.
pub fn decode_fields(fields: &Vec<String>) -> (r: Result<ProtocolMessage, DecodeError>)
    ensures
        match r {
            Ok(message) => decoded_fields(texts(fields@)) == Ok::<MessageView, DecodeError>(message@)
                && message@.well_formed(),
            Err(e) => decoded_fields(texts(fields@)) == Err::<MessageView, DecodeError>(e),
        },
{
    if fields.len() < 1 {
        return Err(DecodeError::MissingVersion);
    }
    let version = match parse_usize(fields[0].as_str()) {
        Ok(version) => version,
        Err(e) => {
            return Err(DecodeError::UnparsableVersion(e));
        },
    };
    if version > MAX_VERSION {
        return Err(DecodeError::UnsupportedVersion(version));
    }
    if fields.len() < 2 {
        return Err(DecodeError::MissingPid);
    }
    let pid = fields[1].clone();
    if version < FIRST_VERSION_WITH_DEBUGGER {
        return Ok(ProtocolMessage { version, pid, debugger: None });
    }
    if fields.len() < 3 {
        return Err(DecodeError::MissingDebugger);
    }
    let debugger = fields[2].clone();
    Ok(ProtocolMessage { version, pid, debugger: Some(debugger) })
}

/// Reads a message from its text.
///
/// A text always has a first field, so the version is never reported as
/// missing.
pub fn decode(s: &str) -> (r: Result<ProtocolMessage, DecodeError>)
    ensures
        match r {
            Ok(message) => decoded(s@) == Ok::<MessageView, DecodeError>(message@)
                && message@.well_formed(),
            Err(e) => decoded(s@) == Err::<MessageView, DecodeError>(e),
        },
        r != Err::<ProtocolMessage, DecodeError>(DecodeError::MissingVersion),
{
    let fields = split_fields(s, ',');
    proof {
        lemma_split_fields_are_plain(s@, ',');
    }
    decode_fields(&fields)
}

impl ProtocolMessage {
    /// The command name of the debugger that the message asks for: the one
    /// it names, or `rust-gdb` if it names none.
    pub fn debugger_name(&self) -> (r: &str)
        ensures
            r@ == self@.debugger_name(),
    {
        match &self.debugger {
            Some(name) => name.as_str(),
            None => GDB,
        }
    }
}

/// The digits of a number hold no comma.
pub proof fn lemma_decimal_is_one_field(n: nat)
    ensures
        !decimal(n).contains(','),
{
    lemma_decimal_digits(n);
    if decimal(n).contains(',') {
        let i = choose|i: int| 0 <= i < decimal(n).len() && decimal(n)[i] == ',';
        assert(is_digit(decimal(n)[i]));
    }
}

/// Writing a message and reading the text gives the message back.
///
/// For every version that is understood, every process identifier and every
/// debugger's name without a comma in it: the text that `encode` writes is
/// read by `decode` as a message of that version, whose process identifier
/// is the decimal text of the identifier, which reads back as the same
/// number. From version 2 on the message names the debugger that was given.
/// Below version 2 the name is left out of the text, and the message that is
/// read names none, which stands for `rust-gdb`.
pub proof fn lemma_decode_encode(version: nat, pid: nat, debugger: Seq<char>)
    requires
        version <= MAX_VERSION,
        !debugger.contains(','),
    ensures
        encoded(version, pid, Some(debugger)) is Some,
        decoded(encoded(version, pid, Some(debugger)).unwrap()) == Ok::<MessageView, DecodeError>(
            MessageView {
                version,
                pid: decimal(pid),
                debugger: if version < FIRST_VERSION_WITH_DEBUGGER {
                    None
                } else {
                    Some(debugger)
                },
            },
        ),
        decoded(encoded(version, pid, Some(debugger)).unwrap()).unwrap().well_formed(),
        decoded(encoded(version, pid, Some(debugger)).unwrap()).unwrap().debugger_name() == if version
            < FIRST_VERSION_WITH_DEBUGGER {
            GDB@
        } else {
            debugger
        },
        forall|max: nat| pid <= max ==> parse_number(decimal(pid), max) == Ok::<nat, NumberError>(pid),
{
    let v = decimal(version);
    let p = decimal(pid);
    let text = encoded(version, pid, Some(debugger)).unwrap();
    lemma_decimal_is_one_field(version);
    lemma_decimal_is_one_field(pid);
    lemma_parse_decimal(version, usize::MAX as nat);
    if version < FIRST_VERSION_WITH_DEBUGGER {
        lemma_split_plain(p, ',');
        lemma_split_field(v, p, ',');
        assert(split(text, ',') =~= seq![v, p]);
    } else {
        lemma_split_plain(debugger, ',');
        lemma_split_field(p, debugger, ',');
        lemma_split_field(v, p + seq![','] + debugger, ',');
        assert(text =~= v + seq![','] + (p + seq![','] + debugger));
        assert(split(text, ',') =~= seq![v, p, debugger]);
    }
    assert forall|max: nat| pid <= max implies parse_number(decimal(pid), max) == Ok::<
        nat,
        NumberError,
    >(pid) by {
        lemma_parse_decimal(pid, max);
    }
}

/// A message of a version that is too new is turned down by its version,
/// whatever else it holds.
pub proof fn lemma_newer_version_is_refused(version: nat, pid: nat, debugger: Seq<char>)
    requires
        MAX_VERSION < version <= usize::MAX,
    ensures
        encoded(version, pid, Some(debugger)) is Some,
        decoded(encoded(version, pid, Some(debugger)).unwrap()) == Err::<MessageView, DecodeError>(
            DecodeError::UnsupportedVersion(version as usize),
        ),
{
    let v = decimal(version);
    let rest = decimal(pid) + seq![','] + debugger;
    let text = encoded(version, pid, Some(debugger)).unwrap();
    lemma_decimal_is_one_field(version);
    lemma_parse_decimal(version, usize::MAX as nat);
    lemma_split_field(v, rest, ',');
    lemma_split_fields_are_plain(rest, ',');
    assert(text =~= v + seq![','] + rest);
    assert(split(text, ',')[0] == v);
}

} // verus!

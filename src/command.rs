use vstd::prelude::*;
use vstd::string::StringExecFns;
use vstd::utf8::{decode_utf8, valid_utf8};

verus! {

#[verifier::external_type_specification]
#[verifier::external_body]
pub struct ExJsonValue(serde_json::Value);

#[verifier::external_type_specification]
#[verifier::external_body]
pub struct ExJsonError(serde_json::Error);

/// Whether serde_json accepts `text` as one JSON document: well-formed, and
/// nested no deeper than its recursion limit.
pub uninterp spec fn is_json_document(text: Seq<char>) -> bool;

/// The string stored under `key` at the top level of the JSON document `text`,
/// if that member exists and holds a string.
pub uninterp spec fn json_str_member(text: Seq<char>, key: Seq<char>) -> Option<Seq<char>>;

/// The unsigned integer stored under `key` at the top level of the JSON document
/// `text`, if that member exists and holds an integer in `0..2^64`.
pub uninterp spec fn json_u64_member(text: Seq<char>, key: Seq<char>) -> Option<u64>;

/// A parsed JSON document, kept together with the text it was parsed from.
pub struct JsonDocument {
    text: String,
    value: serde_json::Value,
}

impl JsonDocument {
    /// The text this document was parsed from.
    pub closed spec fn source(&self) -> Seq<char> {
        self.text@
    }
}

/// Relies on `String::from_utf8`: it accepts exactly the well-formed UTF-8
/// byte strings and keeps the characters they encode.
#[verifier::external_body]
fn utf8_text(bytes: &[u8]) -> (r: Option<String>)
    ensures
        r is Some <==> valid_utf8(bytes@),
        r matches Some(s) ==> s@ == decode_utf8(bytes@),
{
    String::from_utf8(bytes.to_vec()).ok()
}

/// Relies on `serde_json::from_str` into a `serde_json::Value`: it succeeds
/// exactly on well-formed JSON documents.
#[verifier::external_body]
fn parse_json(text: &str) -> (r: Result<JsonDocument, serde_json::Error>)
    ensures
        r is Ok <==> is_json_document(text@),
        r matches Ok(d) ==> d.source() == text@,
{
    serde_json::from_str::<serde_json::Value>(text).map(|value| JsonDocument { text: text.to_string(), value })
}

/// Relies on indexing a `serde_json::Value` by a key and on `Value::as_str`:
/// the string member under `key`, if there is one.
#[verifier::external_body]
fn str_member(doc: &JsonDocument, key: &str) -> (r: Option<String>)
    ensures
        match r {
            Some(s) => json_str_member(doc.source(), key@) == Some(s@),
            None => json_str_member(doc.source(), key@) is None,
        },
{
    doc.value[key].as_str().map(|s| s.to_string())
}

/// Relies on indexing a `serde_json::Value` by a key and on `Value::as_u64`:
/// the unsigned integer member under `key`, if there is one.
#[verifier::external_body]
fn u64_member(doc: &JsonDocument, key: &str) -> (r: Option<u64>)
    ensures
        r == json_u64_member(doc.source(), key@),
{
    doc.value[key].as_u64()
}

/// A control message received by the node.
pub enum InboundCommand {
    /// Redirect telemetry to `target`, on a port rebased onto `port_base`.
    UpdateTarget { target: String, port_base: u16 },
    /// Send the current time to `reply_to`.
    Ping { reply_to: String },
    /// Any other message, which the node ignores.
    Unknown,
}

/// What a command means, over plain values.
pub enum CommandModel {
    UpdateTarget { target: Seq<char>, port_base: u16 },
    Ping { reply_to: Seq<char> },
    Unknown,
}

impl View for InboundCommand {
    type V = CommandModel;

    open spec fn view(&self) -> CommandModel {
        match self {
            InboundCommand::UpdateTarget { target, port_base } => CommandModel::UpdateTarget {
                target: target@,
                port_base: *port_base,
            },
            InboundCommand::Ping { reply_to } => CommandModel::Ping { reply_to: reply_to@ },
            InboundCommand::Unknown => CommandModel::Unknown,
        }
    }
}

/// Why a datagram could not be read as a command.
#[derive(Clone, Copy, Debug, PartialEq, Eq, Structural)]
pub enum CommandError {
    /// The datagram is not UTF-8 text.
    NotUtf8,
    /// The text is not a JSON document.
    NotJson,
    /// A redirect without an unsigned integer `target_port_base`.
    MissingPortBase,
    /// A redirect whose `target_port_base` does not fit in 16 bits.
    PortBaseOutOfRange,
    /// A redirect without a string `target`.
    MissingTarget,
    /// A ping without a string `replyTo`.
    MissingReplyTo,
}

pub open spec fn decoded(r: Result<InboundCommand, CommandError>) -> Result<CommandModel, CommandError> {
    match r {
        Ok(c) => Ok(c@),
        Err(e) => Err(e),
    }
}

/// The command that the JSON text `text` carries, by its `type` member.
pub open spec fn command_of_text(text: Seq<char>) -> Result<CommandModel, CommandError> {
    if !is_json_document(text) {
        Err(CommandError::NotJson)
    } else {
        match json_str_member(text, "type"@) {
            Some(kind) => if kind == "updateTarget"@ {
                match json_u64_member(text, "target_port_base"@) {
                    None => Err(CommandError::MissingPortBase),
                    Some(base) => if base > u16::MAX {
                        Err(CommandError::PortBaseOutOfRange)
                    } else {
                        match json_str_member(text, "target"@) {
                            None => Err(CommandError::MissingTarget),
                            Some(target) => Ok(
                                CommandModel::UpdateTarget { target, port_base: base as u16 },
                            ),
                        }
                    },
                }
            } else if kind == "udpPing"@ {
                match json_str_member(text, "replyTo"@) {
                    None => Err(CommandError::MissingReplyTo),
                    Some(reply_to) => Ok(CommandModel::Ping { reply_to }),
                }
            } else {
                Ok(CommandModel::Unknown)
            },
            None => Ok(CommandModel::Unknown),
        }
    }
}

/// The command that the datagram `bytes` carries.
pub open spec fn command_of_datagram(bytes: Seq<u8>) -> Result<CommandModel, CommandError> {
    if !valid_utf8(bytes) {
        Err(CommandError::NotUtf8)
    } else {
        command_of_text(decode_utf8(bytes))
    }
}

/// Reads a command from JSON text.
pub fn decode_command(text: &str) -> (r: Result<InboundCommand, CommandError>)
    ensures
        decoded(r) == command_of_text(text@),
{
    let doc = match parse_json(text) {
        Ok(d) => d,
        Err(_) => return Err(CommandError::NotJson),
    };
    let kind = match str_member(&doc, "type") {
        Some(k) => k,
        None => return Ok(InboundCommand::Unknown),
    };
    if kind == String::from_str("updateTarget") {
        let base = match u64_member(&doc, "target_port_base") {
            Some(b) => b,
            None => return Err(CommandError::MissingPortBase),
        };
        if base > u16::MAX as u64 {
            return Err(CommandError::PortBaseOutOfRange);
        }
        match str_member(&doc, "target") {
            Some(target) => Ok(InboundCommand::UpdateTarget { target, port_base: base as u16 }),
            None => Err(CommandError::MissingTarget),
        }
    } else if kind == String::from_str("udpPing") {
        match str_member(&doc, "replyTo") {
            Some(reply_to) => Ok(InboundCommand::Ping { reply_to }),
            None => Err(CommandError::MissingReplyTo),
        }
    } else {
        Ok(InboundCommand::Unknown)
    }
}

/// Reads a command from a received datagram.
pub fn decode_datagram(bytes: &[u8]) -> (r: Result<InboundCommand, CommandError>)
    ensures
        decoded(r) == command_of_datagram(bytes@),
{
    match utf8_text(bytes) {
        Some(text) => decode_command(text.as_str()),
        None => Err(CommandError::NotUtf8),
    }
}

} // verus!

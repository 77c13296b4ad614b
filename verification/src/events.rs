//! Spin lifecycle events and their server-sent-event frames.

use vstd::prelude::*;
use crate::ids::QueueEntryId;
use crate::random::hex_char;
use crate::text::decimal_text;

verus! {

/// What the roulette announces to widgets while a spin runs.
#[derive(Debug)]
pub enum SpinEvent {
    Started { entry_id: QueueEntryId, slot_name: String, slot_rarity: String, user_name: String },
    Completed { entry_id: QueueEntryId },
    Error { entry_id: QueueEntryId },
}

/// One server-sent event: its name and its JSON payload.
#[derive(Debug)]
pub struct SseFrame {
    pub event: String,
    pub data: String,
}

/// The compact JSON object `{"entry_id":<id>}`.
pub open spec fn entry_payload(entry_id: u32) -> Seq<char> {
    "{\"entry_id\":"@ + decimal_text(entry_id as int) + "}"@
}

/// How `serde_json` writes one character inside a string: quote and
/// backslash behind a backslash, the usual short escapes for backspace,
/// tab, line feed, form feed and carriage return, other control
/// characters as `\u00` and two lowercase hex digits, everything else as
/// it is.
pub open spec fn json_escape_char(c: char) -> Seq<char> {
    if c == '"' {
        seq!['\\', '"']
    } else if c == '\\' {
        seq!['\\', '\\']
    } else if c == '\x08' {
        seq!['\\', 'b']
    } else if c == '\t' {
        seq!['\\', 't']
    } else if c == '\n' {
        seq!['\\', 'n']
    } else if c == '\x0c' {
        seq!['\\', 'f']
    } else if c == '\r' {
        seq!['\\', 'r']
    } else if (c as u32) < 0x20 {
        seq!['\\', 'u', '0', '0', hex_char((c as u64) / 16), hex_char((c as u64) % 16)]
    } else {
        seq![c]
    }
}

/// The characters of `s`, each written as `serde_json` writes it inside a
/// string.
pub open spec fn json_escaped(s: Seq<char>) -> Seq<char>
    decreases s.len(),
{
    if s.len() == 0 {
        Seq::empty()
    } else {
        json_escaped(s.drop_last()) + json_escape_char(s.last())
    }
}

/// `s` as a JSON string: quoted and escaped.
pub open spec fn json_string(s: Seq<char>) -> Seq<char> {
    seq!['"'] + json_escaped(s) + seq!['"']
}

/// The compact JSON object of a started spin, its keys in order.
pub open spec fn started_payload_text(
    entry_id: u32,
    slot_name: Seq<char>,
    slot_rarity: Seq<char>,
    user_name: Seq<char>,
) -> Seq<char> {
    "{\"entry_id\":"@ + decimal_text(entry_id as int) + ",\"slot_name\":"@ + json_string(slot_name)
        + ",\"slot_rarity\":"@ + json_string(slot_rarity) + ",\"user_name\":"@ + json_string(
        user_name,
    ) + "}"@
}

/// Builds a `serde_json::Value` object holding only the number `entry_id`
/// and prints it with `Display`, which serde_json documents as the compact
/// form `{"key":value}`; a number is printed in decimal.
#[verifier::external_body]
fn entry_payload_json(entry_id: u32) -> (r: String)
    ensures
        r@ == entry_payload(entry_id),
{
    let mut fields = serde_json::Map::new();
    fields.insert(String::from("entry_id"), serde_json::Value::from(entry_id));
    serde_json::Value::Object(fields).to_string()
}

/// Builds the `serde_json::Value` object of a started spin and prints it
/// with `Display`: compact, the keys in order (the object is a sorted map),
/// the number in decimal and the strings escaped as `json_escape_char`
/// says.
#[verifier::external_body]
fn started_payload_json(entry_id: u32, slot_name: &str, slot_rarity: &str, user_name: &str) -> (r:
    String)
    ensures
        r@ == started_payload_text(entry_id, slot_name@, slot_rarity@, user_name@),
{
    let mut fields = serde_json::Map::new();
    fields.insert(String::from("entry_id"), serde_json::Value::from(entry_id));
    fields.insert(String::from("slot_name"), serde_json::Value::from(slot_name));
    fields.insert(String::from("slot_rarity"), serde_json::Value::from(slot_rarity));
    fields.insert(String::from("user_name"), serde_json::Value::from(user_name));
    serde_json::Value::Object(fields).to_string()
}

/// The frame a spin event is sent as: `spin_started`, `spin_completed` or
/// `spin_error`, with the event's fields as JSON.
pub open spec fn frame_of(event: SpinEvent) -> (Seq<char>, Seq<char>) {
    match event {
        SpinEvent::Started { entry_id, slot_name, slot_rarity, user_name } => (
            "spin_started"@,
            started_payload_text(entry_id.0, slot_name@, slot_rarity@, user_name@),
        ),
        SpinEvent::Completed { entry_id } => ("spin_completed"@, entry_payload(entry_id.0)),
        SpinEvent::Error { entry_id } => ("spin_error"@, entry_payload(entry_id.0)),
    }
}

/// Turns a spin event into the server-sent event that announces it.
pub fn spin_event_to_sse(event: &SpinEvent) -> (r: SseFrame)
    ensures
        (r.event@, r.data@) == frame_of(*event),
{
    match event {
        SpinEvent::Started { entry_id, slot_name, slot_rarity, user_name } => SseFrame {
            event: String::from_str("spin_started"),
            data: started_payload_json(
                entry_id.value(),
                slot_name.as_str(),
                slot_rarity.as_str(),
                user_name.as_str(),
            ),
        },
        SpinEvent::Completed { entry_id } => SseFrame {
            event: String::from_str("spin_completed"),
            data: entry_payload_json(entry_id.value()),
        },
        SpinEvent::Error { entry_id } => SseFrame {
            event: String::from_str("spin_error"),
            data: entry_payload_json(entry_id.value()),
        },
    }
}

} // verus!

use vstd::prelude::*;
use vstd::string::StringExecFns;

use crate::destination::{decimal, decimal_text, Destination, DestinationCell};

verus! {

/// The JSON string literal that stands for `s`, quotes and escapes included.
pub uninterp spec fn json_quoted(s: Seq<char>) -> Seq<char>;

/// Relies on `serde_json::to_string` of a `str`: the JSON string literal for it.
/// Writing a string into serde_json's in-memory buffer never fails.
#[verifier::external_body]
fn quote_json(s: &str) -> (r: Result<String, serde_json::Error>)
    ensures
        r is Ok,
        r matches Ok(q) ==> q@ == json_quoted(s@),
{
    serde_json::to_string(s)
}

pub assume_specification<T>[ rand::random::<T> ]() -> (r: T)
    where
        rand::distributions::Standard: rand::distributions::Distribution<T>,
;

/// Draws a fresh synthetic reading.
pub fn generate_input_data() -> (r: u16) {
    rand::random::<u16>()
}

/// The labels that every reading of a node carries.
pub struct NodeIdentity {
    pub area: String,
    pub flow_name: String,
}

/// The telemetry envelope of `reading`, given its labels already written as
/// JSON string literals: compact JSON with sorted keys.
pub open spec fn envelope_spec(reading: u16, quoted_area: Seq<char>, quoted_flow: Seq<char>) -> Seq<
    char,
> {
    "{\"message\":\""@ + decimal(reading as nat) + "\",\"meta\":{\"execution_area\":"@
        + quoted_area + ",\"flow_name\":"@ + quoted_flow + "}}"@
}

/// The telemetry envelope of `reading` for a node labelled `identity`.
pub open spec fn telemetry_spec(reading: u16, identity: &NodeIdentity) -> Seq<char> {
    envelope_spec(reading, json_quoted(identity.area@), json_quoted(identity.flow_name@))
}

/// Frames `reading` with labels already written as JSON string literals.
pub fn frame_reading(reading: u16, quoted_area: &str, quoted_flow: &str) -> (r: String)
    ensures
        r@ == envelope_spec(reading, quoted_area@, quoted_flow@),
{
    let numeral = decimal_text(reading);
    let head = String::from_str("{\"message\":\"").concat(numeral.as_str());
    let meta = head.concat("\",\"meta\":{\"execution_area\":").concat(quoted_area);
    let body = meta.concat(",\"flow_name\":").concat(quoted_flow);
    body.concat("}}")
}

/// Frames `reading` for a node labelled `identity`.
pub fn telemetry_message(reading: u16, identity: &NodeIdentity) -> (r: String)
    ensures
        r@ == telemetry_spec(reading, identity),
{
    let area = quote_json(identity.area.as_str()).unwrap();
    let flow = quote_json(identity.flow_name.as_str()).unwrap();
    frame_reading(reading, area.as_str(), flow.as_str())
}

/// One telemetry datagram and where it goes.
pub struct Outbound {
    pub to: Destination,
    pub reading: u16,
    pub payload: String,
}

/// The datagram of one publishing tick: a fresh reading, framed for `identity`,
/// addressed to the destination that `cell` holds now.
pub fn publish_tick(identity: &NodeIdentity, cell: &DestinationCell) -> (r: Outbound)
    ensures
        r.to@ == cell@,
        r.payload@ == telemetry_spec(r.reading, identity),
{
    let reading = generate_input_data();
    let payload = telemetry_message(reading, identity);
    Outbound { to: cell.read(), reading, payload }
}

} // verus!

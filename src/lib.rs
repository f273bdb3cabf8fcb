//! An emulated field device: it publishes synthetic readings to a destination
//! that inbound commands may redirect, and answers latency probes.
//!
//! The library holds the node's decisions and wire formats; sockets, timers and
//! the shared lock around the destination belong to the program that runs it.
mod command;
mod config;
mod destination;
mod node;
mod port;
mod reply;
mod telemetry;

pub use command::{
    command_of_datagram, command_of_text, decode_command, decode_datagram, decoded,
    is_json_document, json_str_member, json_u64_member, CommandError, CommandModel,
    InboundCommand, JsonDocument,
};
pub use config::{
    config_of_arguments, filled_from, first_missing, Config, ConfigArguments, MissingArgument,
    DEFAULT_INTERVAL_MS,
};
pub use destination::{
    after_writes, decimal, digit_char, endpoint_spec, endpoint_text, lemma_cell_never_mixes_writes,
    replaced, Destination, DestinationCell,
};
pub use node::{
    is_reaction, is_update_plan, lemma_redirect_acks_identical, plan_update, react, Reaction,
    UpdatePlan,
};
pub use port::{port_suffix, rebase_port, rebased_port_spec, PORT_SUFFIX_MODULUS};
pub use reply::{
    ack_burst, ack_message, ack_message_spec, be_bytes, be_value, lemma_ping_reply_round_trip,
    ping_reply, ACK_REPEATS,
};
pub use telemetry::{
    envelope_spec, frame_reading, generate_input_data, json_quoted, publish_tick,
    telemetry_message, telemetry_spec, NodeIdentity, Outbound,
};

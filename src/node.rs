use vstd::prelude::*;

use crate::command::{command_of_datagram, decode_datagram, CommandError, CommandModel, InboundCommand};
use crate::destination::{endpoint_spec, endpoint_text, Destination};
use crate::port::{rebase_port, rebased_port_spec};
use crate::reply::{ack_burst, ack_message_spec, ACK_REPEATS};

verus! {

/// What a validated redirect does: the endpoint text to check, the new
/// destination, and the acknowledgments to send back to its sender.
pub struct UpdatePlan {
    /// `host:port`, which must name a well-formed network endpoint.
    pub address: String,
    pub destination: Destination,
    pub acks: Vec<String>,
}

/// Whether `plan` is the plan for a redirect to `target` with `port_base`, on a
/// node whose configured port is `original_port`.
pub open spec fn is_update_plan(plan: UpdatePlan, target: Seq<char>, port_base: u16, original_port: u16) -> bool {
    let port = rebased_port_spec(port_base, original_port);
    &&& plan.destination@ == (target, port)
    &&& plan.address@ == endpoint_spec(target, port)
    &&& plan.acks.len() == ACK_REPEATS
    &&& forall|i: int| 0 <= i < plan.acks.len() ==> (#[trigger] plan.acks[i])@ == ack_message_spec()
}

/// Plans a redirect to `target`, on the port rebased from `port_base`.
pub fn plan_update(target: String, port_base: u16, original_port: u16) -> (r: UpdatePlan)
    ensures
        is_update_plan(r, target@, port_base, original_port),
{
    let port = rebase_port(port_base, original_port);
    let address = endpoint_text(target.as_str(), port);
    UpdatePlan { address, destination: Destination { host: target, port }, acks: ack_burst() }
}

/// What the node does about one received datagram.
pub enum Reaction {
    /// Check the plan's address, install its destination, send its acknowledgments.
    Redirect(UpdatePlan),
    /// Send the current time to `reply_to`.
    Ping { reply_to: String },
    /// Nothing.
    Ignore,
}

/// Whether `r` is the reaction to the datagram `bytes` on a node whose
/// configured port is `original_port`.
pub open spec fn is_reaction(r: Result<Reaction, CommandError>, bytes: Seq<u8>, original_port: u16) -> bool {
    match command_of_datagram(bytes) {
        Err(e) => r == Err::<Reaction, CommandError>(e),
        Ok(CommandModel::UpdateTarget { target, port_base }) => match r {
            Ok(Reaction::Redirect(plan)) => is_update_plan(plan, target, port_base, original_port),
            _ => false,
        },
        Ok(CommandModel::Ping { reply_to }) => match r {
            Ok(Reaction::Ping { reply_to: to }) => to@ == reply_to,
            _ => false,
        },
        Ok(CommandModel::Unknown) => r matches Ok(Reaction::Ignore),
    }
}

/// Decides what to do about the datagram `bytes`.
pub fn react(bytes: &[u8], original_port: u16) -> (r: Result<Reaction, CommandError>)
    ensures
        is_reaction(r, bytes@, original_port),
{
    match decode_datagram(bytes) {
        Err(e) => Err(e),
        Ok(InboundCommand::UpdateTarget { target, port_base }) => Ok(
            Reaction::Redirect(plan_update(target, port_base, original_port)),
        ),
        Ok(InboundCommand::Ping { reply_to }) => Ok(Reaction::Ping { reply_to }),
        Ok(InboundCommand::Unknown) => Ok(Reaction::Ignore),
    }
}

/// Every redirect that validates is acknowledged by exactly `ACK_REPEATS`
/// datagrams, each holding the same text, and so the same bytes.
pub proof fn lemma_redirect_acks_identical(
    bytes: Seq<u8>,
    original_port: u16,
    r: Result<Reaction, CommandError>,
)
    requires
        is_reaction(r, bytes, original_port),
        command_of_datagram(bytes) matches Ok(CommandModel::UpdateTarget { .. }),
    ensures
        r matches Ok(Reaction::Redirect(plan)) && plan.acks.len() == 10 && forall|i: int, j: int|
            0 <= i < plan.acks.len() && 0 <= j < plan.acks.len() ==> (#[trigger] plan.acks[i])@
                == (#[trigger] plan.acks[j])@,
{
    if let Ok(Reaction::Redirect(plan)) = r {
        assert forall|i: int, j: int|
            0 <= i < plan.acks.len() && 0 <= j < plan.acks.len() implies (#[trigger] plan.acks[i])@
                == (#[trigger] plan.acks[j])@ by {
            assert(plan.acks[i]@ == ack_message_spec());
            assert(plan.acks[j]@ == ack_message_spec());
        }
    }
}

} // verus!

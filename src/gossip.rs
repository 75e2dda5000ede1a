use crate::state::{GameState, Status};
use vstd::prelude::*;

verus! {

/// The gossip wire envelope. `A` is the attestation type of the proving
/// backend.
#[derive(Debug)]
pub enum P2PMessage<A> {
    /// A batch's attestation, with the program identity it was made for.
    Proof { player_id: String, receipt: A, image_id: [u32; 8] },
    PlayerJoined { player_id: String, name: String },
    PlayerLeft { player_id: String },
    /// A node's one-time announcement of itself.
    NodeInfo { node_id: String, name: String, custom_url: String },
}

/// The origin label that a node named `name` puts on its attestations.
pub open spec fn label_of(name: Seq<char>) -> Seq<char> {
    name + "-player"@
}

/// The origin label of the node named `node_name`.
pub fn origin_label(node_name: &String) -> (r: String)
    ensures
        r@ == label_of(node_name@),
{
    node_name.clone().concat("-player")
}


/// What the network loop does with a received envelope.
#[derive(Clone, Copy, Debug, PartialEq, Eq, Structural)]
pub enum Inbound {
    /// Nothing: the attestation is the node's own, already applied.
    Ignore,
    /// Verify the attestation and settle the outcome.
    Verify,
    /// A player joined; note it.
    Joined,
    /// A player left; note it.
    Left,
    /// A node announced itself; pass it on to the user interface.
    Announced,
}

/// What receiving `msg` at the node named `node_name` calls for.
pub open spec fn inbound_of<A>(node_name: Seq<char>, msg: P2PMessage<A>) -> Inbound {
    match msg {
        P2PMessage::Proof { player_id, .. } => if player_id@ == label_of(node_name) {
            Inbound::Ignore
        } else {
            Inbound::Verify
        },
        P2PMessage::PlayerJoined { .. } => Inbound::Joined,
        P2PMessage::PlayerLeft { .. } => Inbound::Left,
        P2PMessage::NodeInfo { .. } => Inbound::Announced,
    }
}

impl GameState {
    /// Dispatches a received envelope. A remote attestation marks the node
    /// as verifying; nothing else changes the state.
    pub fn receive<A>(&mut self, node_name: &String, msg: &P2PMessage<A>) -> (r: Inbound)
        ensures
            r == inbound_of(node_name@, *msg),
            r == Inbound::Verify ==> *final(self) == (GameState {
                status: Status::Verifying,
                ..*old(self)
            }),
            r != Inbound::Verify ==> *final(self) == *old(self),
    {
        match msg {
            P2PMessage::Proof { player_id, .. } => {
                let own = origin_label(node_name);
                if *player_id == own {
                    Inbound::Ignore
                } else {
                    self.begin_remote_check();
                    Inbound::Verify
                }
            },
            P2PMessage::PlayerJoined { .. } => Inbound::Joined,
            P2PMessage::PlayerLeft { .. } => Inbound::Left,
            P2PMessage::NodeInfo { .. } => Inbound::Announced,
        }
    }
}

/// The envelope that publishes an attestation of the node named `node_name`.
pub fn proof_message<A>(node_name: &String, receipt: A, image_id: [u32; 8]) -> (r: P2PMessage<A>)
    ensures
        r matches P2PMessage::Proof { player_id, receipt: rc, image_id: id } && player_id@
            == label_of(node_name@) && rc == receipt && id == image_id,
{
    P2PMessage::Proof { player_id: origin_label(node_name), receipt, image_id }
}

/// The one-time node announcement: attempted on each retry tick until one
/// publish does not fail.
#[derive(Clone, Copy, Debug, PartialEq, Eq, Structural)]
pub struct NodeAnnouncer {
    pub pending: bool,
}

impl NodeAnnouncer {
    pub fn new() -> (r: Self)
        ensures
            r.pending,
    {
        NodeAnnouncer { pending: true }
    }

    /// A retry tick calls for an attempt.
    pub fn should_attempt(&self) -> (r: bool)
        ensures
            r == self.pending,
    {
        self.pending
    }

    /// Records the result of one publish attempt.
    pub fn record_attempt(&mut self, published: bool)
        ensures
            final(self).pending == (old(self).pending && !published),
    {
        if published {
            self.pending = false;
        }
    }
}

} // verus!

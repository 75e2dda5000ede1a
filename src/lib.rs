//! Proof-gated movement trails shared between peers.
//!
//! - `movement`: the deterministic replay of a batch of directional inputs,
//!   the movement rule that a proof attests, and the disclosure policy.
//! - `state`: the node's shared record and the batch state machine that
//!   starts a batch, commits or reverts on the proving outcome, and settles
//!   remote attestations.
//! - `gossip`: the wire envelope and what the node does with each one.
//! - `input`: key names from the user interface.
//! - `config`: the seed peer list given at startup.
pub mod config;
pub mod gossip;
pub mod input;
pub mod movement;
pub mod state;

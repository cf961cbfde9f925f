use vstd::prelude::*;

use crate::messages::Packet;
use crate::registry::PublicKey;

verus! {

/// An error from an external collaborator call; the run loop absorbs it and
/// carries on with the tick.
#[derive(Clone, Copy, Debug, PartialEq, Eq, Structural)]
pub struct ClientError;

/// The node's window onto its external collaborators: the transport that
/// accepts outbound messages for broadcast, and the ledger that records the
/// group public key and the per-node votes for it. Every call is performed
/// by the host process, may block or fail, and promises nothing about its
/// outcome; the run loop states what holds whatever comes back.
pub trait StacksClient {
    /// The group public key the ledger currently records, if any.
    fn get_aggregate_public_key(&mut self) -> Result<Option<PublicKey>, ClientError>;

    /// This node's recorded vote for a group public key, if any.
    fn get_aggregate_public_key_vote(&mut self) -> Result<Option<PublicKey>, ClientError>;

    /// Cast this node's vote for `key`.
    fn cast_aggregate_public_key_vote(&mut self, key: PublicKey) -> Result<(), ClientError>;

    /// Hand one outbound message from `id` to the transport.
    fn send_message(&mut self, id: u32, message: Packet) -> Result<(), ClientError>;
}

} // verus!

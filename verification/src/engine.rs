use vstd::prelude::*;

use crate::messages::{OperationResult, Packet};
use crate::registry::PublicKey;

verus! {

/// An error inside a protocol engine; the run loop reads no more of it than
/// that it happened.
#[derive(Clone, Copy, Debug, PartialEq, Eq, Structural)]
pub struct EngineError;

/// The coordinator engine: the protocol state machine, active only on the
/// elected coordinator, that opens rounds, drives them forward and produces
/// the finalized results. The run loop consumes it as an opaque state
/// machine; the one thing the interface promises is that an engine fed no
/// messages answers with no messages and no results.
pub trait CoordinatorEngine {
    /// Open a DKG round; on success the packet is the round-opening message
    /// to broadcast.
    fn start_distributed_key_generation(&mut self) -> Result<Packet, EngineError>;

    /// Open a signing round over `message`, optionally as a taproot
    /// signature with the given merkle root.
    fn start_signing_message(
        &mut self,
        message: &Vec<u8>,
        is_taproot: bool,
        merkle_root: &Option<Vec<u8>>,
    ) -> Result<Packet, EngineError>;

    /// Throw away any half-started round, so a failed start cannot poison
    /// the next attempt.
    fn reset(&mut self);

    /// The group public key in this engine's view, if one was agreed.
    fn get_aggregate_public_key(&self) -> Option<&PublicKey>;

    /// Install (or clear) the group public key in this engine's view.
    fn set_aggregate_public_key(&mut self, key: Option<PublicKey>);

    /// Drive the round forward with an authenticated inbound batch; the
    /// answer is the outbound messages and any finalized results.
    fn process_inbound_messages(&mut self, messages: &Vec<Packet>) -> (r: Result<
        (Vec<Packet>, Vec<OperationResult>),
        EngineError,
    >)
        ensures
            messages@.len() == 0 ==> match r {
                Ok(v) => v.0@.len() == 0 && v.1@.len() == 0,
                Err(_) => true,
            },
    ;
}

/// The participant engine: the protocol state machine that runs this node's
/// own share of every DKG and signing round, coordinator or not. As for the
/// coordinator engine, an engine fed no messages answers with none.
pub trait ParticipantEngine {
    /// Run this node's share of the round over an authenticated inbound
    /// batch; the answer is the outbound messages to broadcast.
    fn process_inbound_messages(&mut self, messages: &Vec<Packet>) -> (r: Result<
        Vec<Packet>,
        EngineError,
    >)
        ensures
            messages@.len() == 0 ==> match r {
                Ok(v) => v@.len() == 0,
                Err(_) => true,
            },
    ;
}

/// A coordinator engine with no cryptography attached: it cannot open a
/// round, produces nothing, and keeps only the group key it is handed. It
/// grounds the interface contract and stands in for a real engine in tests.
pub struct NullCoordinatorEngine {
    /// The group public key in this engine's view
    pub aggregate_public_key: Option<PublicKey>,
}

impl CoordinatorEngine for NullCoordinatorEngine {
    fn start_distributed_key_generation(&mut self) -> Result<Packet, EngineError> {
        Err(EngineError)
    }

    fn start_signing_message(
        &mut self,
        message: &Vec<u8>,
        is_taproot: bool,
        merkle_root: &Option<Vec<u8>>,
    ) -> Result<Packet, EngineError> {
        Err(EngineError)
    }

    fn reset(&mut self) {
    }

    fn get_aggregate_public_key(&self) -> Option<&PublicKey> {
        self.aggregate_public_key.as_ref()
    }

    fn set_aggregate_public_key(&mut self, key: Option<PublicKey>) {
        self.aggregate_public_key = key;
    }

    fn process_inbound_messages(&mut self, messages: &Vec<Packet>) -> Result<
        (Vec<Packet>, Vec<OperationResult>),
        EngineError,
    > {
        Ok((Vec::new(), Vec::new()))
    }
}

/// A participant engine with no cryptography attached; it produces nothing.
pub struct NullParticipantEngine {
}

impl ParticipantEngine for NullParticipantEngine {
    fn process_inbound_messages(&mut self, messages: &Vec<Packet>) -> Result<
        Vec<Packet>,
        EngineError,
    > {
        Ok(Vec::new())
    }
}

} // verus!

use vstd::prelude::*;

verus! {

/// The protocol message kinds carried on the message board.
///
/// Coordinator-issued kinds (round-begin messages, nonce requests and
/// signature-share requests) carry no sender id: the coordinator is implicit.
/// Participant-issued kinds self-identify the claimed sender by `signer_id`.
#[derive(Clone, Copy, Debug, PartialEq, Eq, Structural)]
pub enum Message {
    /// Coordinator opens a DKG round
    DkgBegin,
    /// Coordinator opens the private-share phase of a DKG round
    DkgPrivateBegin,
    /// A participant acknowledges the end of a DKG round
    DkgEnd { signer_id: u32 },
    /// A participant broadcasts its public shares
    DkgPublicShares { signer_id: u32 },
    /// A participant broadcasts its encrypted private shares
    DkgPrivateShares { signer_id: u32 },
    /// Coordinator requests signing nonces
    NonceRequest,
    /// A participant answers a nonce request
    NonceResponse { signer_id: u32 },
    /// Coordinator requests signature shares
    SignatureShareRequest,
    /// A participant answers a signature-share request
    SignatureShareResponse { signer_id: u32 },
}

/// Which key a message of a given kind must verify against.
#[derive(Clone, Copy, Debug, PartialEq, Eq, Structural)]
pub enum KeySource {
    /// The message is only ever coordinator-issued: verify against the
    /// elected coordinator's key.
    Coordinator,
    /// The message is participant-issued: verify against the registry entry
    /// for the claimed sender id.
    Signer { signer_id: u32 },
}

impl Message {
    /// The verification-key source for this message kind.
    pub open spec fn spec_key_source(self) -> KeySource {
        match self {
            Message::DkgBegin => KeySource::Coordinator,
            Message::DkgPrivateBegin => KeySource::Coordinator,
            Message::NonceRequest => KeySource::Coordinator,
            Message::SignatureShareRequest => KeySource::Coordinator,
            Message::DkgEnd { signer_id } => KeySource::Signer { signer_id },
            Message::DkgPublicShares { signer_id } => KeySource::Signer { signer_id },
            Message::DkgPrivateShares { signer_id } => KeySource::Signer { signer_id },
            Message::NonceResponse { signer_id } => KeySource::Signer { signer_id },
            Message::SignatureShareResponse { signer_id } => KeySource::Signer { signer_id },
        }
    }

    /// Exhaustive dispatch from message kind to verification-key source, so
    /// that authentication stays total over the closed set of kinds.
    pub fn key_source(&self) -> (r: KeySource)
        ensures
            r == self.spec_key_source(),
    {
        match self {
            Message::DkgBegin => KeySource::Coordinator,
            Message::DkgPrivateBegin => KeySource::Coordinator,
            Message::NonceRequest => KeySource::Coordinator,
            Message::SignatureShareRequest => KeySource::Coordinator,
            Message::DkgEnd { signer_id } => KeySource::Signer { signer_id: *signer_id },
            Message::DkgPublicShares { signer_id } => KeySource::Signer { signer_id: *signer_id },
            Message::DkgPrivateShares { signer_id } => KeySource::Signer { signer_id: *signer_id },
            Message::NonceResponse { signer_id } => KeySource::Signer { signer_id: *signer_id },
            Message::SignatureShareResponse { signer_id } => KeySource::Signer { signer_id: *signer_id },
        }
    }
}

/// A message as read from (or written to) the board: the payload tag, the
/// digest of the payload, and the signature bytes.
///
/// The full cryptographic payload is interpreted only by the protocol
/// engines; the run loop reads the kind, the claimed sender and the payload
/// digest, so the packet holds exactly those. The signature covers the hash
/// of the signable form — kind tag, claimed sender id and payload digest —
/// so it binds the whole typed message, not the digest alone.
#[derive(Clone, Debug, PartialEq, Eq)]
pub struct Packet {
    /// The tagged protocol message
    pub msg: Message,
    /// The 32-byte digest of the payload
    pub payload_digest: Vec<u8>,
    /// The signature over the signable form, in 64-byte compact form
    pub sig: Vec<u8>,
}

/// The mathematical value of a packet.
pub ghost struct PacketView {
    /// The tagged protocol message
    pub msg: Message,
    /// The digest the signature covers
    pub payload_digest: Seq<u8>,
    /// The signature bytes
    pub sig: Seq<u8>,
}

impl View for Packet {
    type V = PacketView;

    open spec fn view(&self) -> PacketView {
        PacketView {
            msg: self.msg,
            payload_digest: self.payload_digest@,
            sig: self.sig@,
        }
    }
}

/// The result of one completed DKG or signing round, produced by the
/// coordinator engine and forwarded once to the result channel.
#[derive(Clone, Debug, PartialEq, Eq)]
pub enum OperationResult {
    /// A DKG round finished and agreed on a group public key
    Dkg(crate::registry::PublicKey),
    /// A signing round finished with a signature
    Sign(Vec<u8>),
    /// A taproot signing round finished with a signature
    SignTaproot(Vec<u8>),
    /// The round failed; the bytes describe the failure
    Failure(Vec<u8>),
}

} // verus!

use vstd::prelude::*;

use sha2::Digest;

use crate::codec::{push_le4, spec_le4, spec_tag, spec_wire_sender, tag_of, wire_sender_of};
use crate::messages::{KeySource, Message, Packet, PacketView};
use crate::registry::{copy_bytes, PublicKey, PublicKeys};

verus! {

/// Whether `sig` is a valid compact ECDSA signature by the compressed key
/// `key` over the 32-byte digest `hash`. The outcome is decided by the
/// underlying curve arithmetic, a function of the three byte strings alone.
pub uninterp spec fn ecdsa_valid(hash: Seq<u8>, sig: Seq<u8>, key: Seq<u8>) -> bool;

/// The SHA-256 digest of a byte string: a function of the bytes alone.
pub uninterp spec fn sha256_of(bytes: Seq<u8>) -> Seq<u8>;

/// Relies on p256k1's ECDSA: `PublicKey::try_from` and `Signature::try_from`
/// parse the key and compact-signature byte forms (malformed bytes are
/// reported as errors, here a rejection), and `Signature::verify` checks the
/// signature over a 32-byte digest. `verify` reads exactly 32 bytes of the
/// digest, so shorter digests are kept out by `requires`.
#[verifier::external_body]
fn ecdsa_verify(hash: &Vec<u8>, sig: &Vec<u8>, key: &Vec<u8>) -> (r: bool)
    requires
        hash@.len() == 32,
    ensures
        r == ecdsa_valid(hash@, sig@, key@),
{
    let Ok(key) = p256k1::ecdsa::PublicKey::try_from(key.as_slice()) else {
        return false;
    };
    let Ok(sig) = p256k1::ecdsa::Signature::try_from(sig.as_slice()) else {
        return false;
    };
    sig.verify(hash.as_slice(), &key)
}

/// Relies on sha2's `Sha256`: the digest is a function of the input bytes
/// alone and is always 32 bytes long.
#[verifier::external_body]
fn sha256(bytes: &Vec<u8>) -> (r: Vec<u8>)
    ensures
        r@ == sha256_of(bytes@),
        r@.len() == 32,
{
    let mut hasher = sha2::Sha256::new();
    hasher.update(bytes.as_slice());
    hasher.finalize().to_vec()
}

/// The bytes a packet's signature covers: the message kind tag and the
/// claimed sender id, exactly as the wire encodes them, followed by the
/// payload digest. Signing this form binds the signature to the kind and
/// the sender, so a signed digest cannot be replayed under another kind or
/// another claimed sender.
pub open spec fn spec_signable(msg: Message, payload_digest: Seq<u8>) -> Seq<u8> {
    seq![spec_tag(msg)] + spec_le4(spec_wire_sender(msg)) + payload_digest
}

/// Assemble the bytes a packet's signature covers.
pub fn signable_bytes(msg: &Message, payload_digest: &Vec<u8>) -> (r: Vec<u8>)
    ensures
        r@ == spec_signable(*msg, payload_digest@),
{
    let mut out: Vec<u8> = Vec::new();
    out.push(tag_of(msg));
    push_le4(&mut out, wire_sender_of(msg));
    let mut digest = copy_bytes(payload_digest);
    out.append(&mut digest);
    proof {
        assert(out@ =~= spec_signable(*msg, payload_digest@));
    }
    out
}

/// Whether a packet authenticates against the registry and the coordinator
/// key: coordinator-issued kinds must carry a valid signature under the
/// coordinator key; participant-issued kinds must name a registered sender
/// and carry a valid signature under that sender's key. The signature is
/// checked over the hash of the signable form, which binds the message kind
/// and claimed sender together with the payload digest. A payload digest
/// that is not 32 bytes long is no digest and is rejected.
pub open spec fn spec_verify_msg(
    p: PacketView,
    public_keys: PublicKeys,
    coordinator_key: Seq<u8>,
) -> bool {
    match p.msg.spec_key_source() {
        KeySource::Coordinator => p.payload_digest.len() == 32 && ecdsa_valid(
            sha256_of(spec_signable(p.msg, p.payload_digest)),
            p.sig,
            coordinator_key,
        ),
        KeySource::Signer { signer_id } => match public_keys.spec_key_of(signer_id) {
            Some(k) => p.payload_digest.len() == 32 && ecdsa_valid(
                sha256_of(spec_signable(p.msg, p.payload_digest)),
                p.sig,
                k,
            ),
            None => false,
        },
    }
}

/// Authenticate one inbound message before it is ever shown to a protocol
/// engine: dispatch by message kind to the verification key (the coordinator
/// key for coordinator-issued kinds, the registry entry for the claimed
/// sender otherwise), rejecting unknown senders and invalid signatures.
pub fn verify_msg(
    m: &Packet,
    public_keys: &PublicKeys,
    coordinator_public_key: &PublicKey,
) -> (r: bool)
    ensures
        r == spec_verify_msg(m@, *public_keys, coordinator_public_key@),
{
    if m.payload_digest.len() != 32 {
        return false;
    }
    let signable = signable_bytes(&m.msg, &m.payload_digest);
    let hash = sha256(&signable);
    match m.msg.key_source() {
        KeySource::Coordinator => ecdsa_verify(&hash, &m.sig, &coordinator_public_key.bytes),
        KeySource::Signer { signer_id } => match public_keys.key_of(signer_id) {
            Some(public_key) => ecdsa_verify(&hash, &m.sig, &public_key.bytes),
            None => false,
        },
    }
}

} // verus!

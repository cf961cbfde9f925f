use vstd::prelude::*;

use crate::messages::{Message, Packet, PacketView};
use crate::registry::copy_bytes;

verus! {

/// The wire tag of each message kind.
pub open spec fn spec_tag(m: Message) -> u8 {
    match m {
        Message::DkgBegin => 0u8,
        Message::DkgPrivateBegin => 1u8,
        Message::DkgEnd { .. } => 2u8,
        Message::DkgPublicShares { .. } => 3u8,
        Message::DkgPrivateShares { .. } => 4u8,
        Message::NonceRequest => 5u8,
        Message::NonceResponse { .. } => 6u8,
        Message::SignatureShareRequest => 7u8,
        Message::SignatureShareResponse { .. } => 8u8,
    }
}

/// The sender id a message carries on the wire: the claimed signer id for
/// participant-issued kinds, zero for coordinator-issued kinds.
pub open spec fn spec_wire_sender(m: Message) -> u32 {
    match m {
        Message::DkgBegin => 0u32,
        Message::DkgPrivateBegin => 0u32,
        Message::NonceRequest => 0u32,
        Message::SignatureShareRequest => 0u32,
        Message::DkgEnd { signer_id } => signer_id,
        Message::DkgPublicShares { signer_id } => signer_id,
        Message::DkgPrivateShares { signer_id } => signer_id,
        Message::NonceResponse { signer_id } => signer_id,
        Message::SignatureShareResponse { signer_id } => signer_id,
    }
}

/// The message a wire tag and sender id decode to; coordinator-issued kinds
/// ignore the sender id field. Tags outside the closed set decode to nothing.
pub open spec fn spec_msg_of(tag: u8, sender: u32) -> Option<Message> {
    if tag == 0 {
        Some(Message::DkgBegin)
    } else if tag == 1 {
        Some(Message::DkgPrivateBegin)
    } else if tag == 2 {
        Some(Message::DkgEnd { signer_id: sender })
    } else if tag == 3 {
        Some(Message::DkgPublicShares { signer_id: sender })
    } else if tag == 4 {
        Some(Message::DkgPrivateShares { signer_id: sender })
    } else if tag == 5 {
        Some(Message::NonceRequest)
    } else if tag == 6 {
        Some(Message::NonceResponse { signer_id: sender })
    } else if tag == 7 {
        Some(Message::SignatureShareRequest)
    } else if tag == 8 {
        Some(Message::SignatureShareResponse { signer_id: sender })
    } else {
        None
    }
}

/// A 32-bit value in little-endian byte order.
pub open spec fn spec_le4(n: u32) -> Seq<u8> {
    seq![
        (n % 0x100) as u8,
        ((n / 0x100) % 0x100) as u8,
        ((n / 0x10000) % 0x100) as u8,
        ((n / 0x1000000) % 0x100) as u8,
    ]
}

/// The 32-bit value of four little-endian bytes.
pub open spec fn spec_u32_of(b: Seq<u8>) -> u32
    recommends
        b.len() == 4,
{
    (b[0] + 0x100 * (b[1] as nat) + 0x10000 * (b[2] as nat) + 0x1000000 * (b[3] as nat)) as u32
}

/// Reading back the little-endian bytes of a value gives the value.
pub proof fn lemma_le4_round_trip(n: u32)
    ensures
        spec_u32_of(spec_le4(n)) == n,
{
    assert(n % 0x100 + 0x100 * ((n / 0x100) % 0x100) + 0x10000 * ((n / 0x10000) % 0x100)
        + 0x1000000 * ((n / 0x1000000) % 0x100) == n) by (bit_vector);
}

/// The fixed binary serialization of a packet: one tag byte, the four
/// sender-id bytes, then the length-prefixed digest and signature, with
/// nothing after them.
pub open spec fn spec_encode(p: PacketView) -> Seq<u8> {
    seq![spec_tag(p.msg)] + spec_le4(spec_wire_sender(p.msg)) + spec_le4(
        p.payload_digest.len() as u32,
    ) + p.payload_digest + spec_le4(p.sig.len() as u32) + p.sig
}

/// What a byte string decodes to: the unique packet it is the serialization
/// of, or nothing for malformed bytes.
pub open spec fn spec_decode(b: Seq<u8>) -> Option<PacketView> {
    if b.len() < 13 {
        None
    } else {
        let tag = b[0];
        let sender = spec_u32_of(b.subrange(1, 5));
        let dlen = spec_u32_of(b.subrange(5, 9)) as int;
        if b.len() < 13 + dlen {
            None
        } else {
            let digest = b.subrange(9, 9 + dlen);
            let slen = spec_u32_of(b.subrange(9 + dlen, 13 + dlen)) as int;
            if b.len() != 13 + dlen + slen {
                None
            } else {
                let sig = b.subrange(13 + dlen, b.len() as int);
                match spec_msg_of(tag, sender) {
                    Some(m) => Some(PacketView { msg: m, payload_digest: digest, sig }),
                    None => None,
                }
            }
        }
    }
}

/// Decoding inverts encoding: every packet comes back from its own bytes.
pub proof fn lemma_decode_encode(p: PacketView)
    requires
        p.payload_digest.len() < 0x100000000,
        p.sig.len() < 0x100000000,
    ensures
        spec_decode(spec_encode(p)) == Some(p),
{
    let b = spec_encode(p);
    let dlen = p.payload_digest.len() as int;
    let slen = p.sig.len() as int;
    assert(b.len() == 13 + dlen + slen);
    assert(b.subrange(1, 5) =~= spec_le4(spec_wire_sender(p.msg)));
    assert(b.subrange(5, 9) =~= spec_le4(p.payload_digest.len() as u32));
    lemma_le4_round_trip(spec_wire_sender(p.msg));
    lemma_le4_round_trip(p.payload_digest.len() as u32);
    lemma_le4_round_trip(p.sig.len() as u32);
    assert(b.subrange(9, 9 + dlen) =~= p.payload_digest);
    assert(b.subrange(9 + dlen, 13 + dlen) =~= spec_le4(p.sig.len() as u32));
    assert(b.subrange(13 + dlen, b.len() as int) =~= p.sig);
    assert(b[0] == spec_tag(p.msg));
    assert(spec_msg_of(spec_tag(p.msg), spec_wire_sender(p.msg)) == Some(p.msg));
}

/// The wire tag of a message, as `spec_tag` gives it.
pub fn tag_of(msg: &Message) -> (r: u8)
    ensures
        r == spec_tag(*msg),
{
    match msg {
        Message::DkgBegin => 0,
        Message::DkgPrivateBegin => 1,
        Message::DkgEnd { .. } => 2,
        Message::DkgPublicShares { .. } => 3,
        Message::DkgPrivateShares { .. } => 4,
        Message::NonceRequest => 5,
        Message::NonceResponse { .. } => 6,
        Message::SignatureShareRequest => 7,
        Message::SignatureShareResponse { .. } => 8,
    }
}

/// The wire sender id of a message, as `spec_wire_sender` gives it.
pub fn wire_sender_of(msg: &Message) -> (r: u32)
    ensures
        r == spec_wire_sender(*msg),
{
    match msg {
        Message::DkgEnd { signer_id } => *signer_id,
        Message::DkgPublicShares { signer_id } => *signer_id,
        Message::DkgPrivateShares { signer_id } => *signer_id,
        Message::NonceResponse { signer_id } => *signer_id,
        Message::SignatureShareResponse { signer_id } => *signer_id,
        _ => 0,
    }
}

/// Append the little-endian bytes of `n` to `out`.
pub(crate) fn push_le4(out: &mut Vec<u8>, n: u32)
    ensures
        final(out)@ == old(out)@ + spec_le4(n),
{
    out.push((n % 0x100) as u8);
    out.push(((n / 0x100) % 0x100) as u8);
    out.push(((n / 0x10000) % 0x100) as u8);
    out.push(((n / 0x1000000) % 0x100) as u8);
    proof {
        assert(out@ =~= old(out)@ + spec_le4(n));
    }
}

/// Read the 32-bit value at `at`; the caller has checked the bounds.
fn read_u32(bytes: &Vec<u8>, at: usize) -> (n: u32)
    requires
        at + 4 <= bytes@.len(),
    ensures
        n == spec_u32_of(bytes@.subrange(at as int, at + 4)),
{
    // Fixing the length as a usize keeps the index sums below within bounds.
    let _len: usize = bytes.len();
    let b0 = bytes[at] as u32;
    let b1 = bytes[at + 1] as u32;
    let b2 = bytes[at + 2] as u32;
    let b3 = bytes[at + 3] as u32;
    let n = b0 + 0x100 * b1 + 0x10000 * b2 + 0x1000000 * b3;
    proof {
        let s = bytes@.subrange(at as int, at + 4);
        assert(s[0] == bytes@[at as int] && s[1] == bytes@[at + 1] && s[2] == bytes@[at + 2]
            && s[3] == bytes@[at + 3]);
    }
    n
}

/// Copy `bytes[from..to]`; the caller has checked the bounds.
fn copy_range(bytes: &Vec<u8>, from: usize, to: usize) -> (r: Vec<u8>)
    requires
        from <= to <= bytes@.len(),
    ensures
        r@ == bytes@.subrange(from as int, to as int),
{
    let mut r: Vec<u8> = Vec::new();
    let mut i: usize = from;
    proof {
        assert(bytes@.subrange(from as int, from as int) =~= Seq::<u8>::empty());
    }
    while i < to
        invariant
            from <= i <= to <= bytes@.len(),
            r@ == bytes@.subrange(from as int, i as int),
        decreases to - i,
    {
        r.push(bytes[i]);
        proof {
            assert(bytes@.subrange(from as int, i as int).push(bytes@[i as int]) =~= bytes@
                .subrange(from as int, i + 1));
        }
        i = i + 1;
    }
    r
}

/// Serialize a packet in the fixed binary form.
pub fn encode_packet(p: &Packet) -> (r: Vec<u8>)
    requires
        p.payload_digest@.len() < 0x100000000,
        p.sig@.len() < 0x100000000,
    ensures
        r@ == spec_encode(p@),
{
    let mut out: Vec<u8> = Vec::new();
    out.push(tag_of(&p.msg));
    push_le4(&mut out, wire_sender_of(&p.msg));
    push_le4(&mut out, p.payload_digest.len() as u32);
    let mut digest = copy_bytes(&p.payload_digest);
    out.append(&mut digest);
    push_le4(&mut out, p.sig.len() as u32);
    let mut sig = copy_bytes(&p.sig);
    out.append(&mut sig);
    proof {
        assert(out@ =~= spec_encode(p@));
    }
    out
}

/// Decode one raw board entry as a protocol message. Malformed bytes are no
/// message: the result is exactly what `spec_decode` gives.
pub fn decode_packet(bytes: &Vec<u8>) -> (r: Option<Packet>)
    ensures
        match r {
            Some(p) => spec_decode(bytes@) == Some(p@),
            None => spec_decode(bytes@) is None,
        },
{
    if bytes.len() < 13 {
        return None;
    }
    let tag = bytes[0];
    let sender = read_u32(bytes, 1);
    let dlen = read_u32(bytes, 5) as usize;
    if bytes.len() - 13 < dlen {
        return None;
    }
    let digest = copy_range(bytes, 9, 9 + dlen);
    let slen = read_u32(bytes, 9 + dlen) as usize;
    if bytes.len() - 13 - dlen != slen {
        return None;
    }
    let sig = copy_range(bytes, 13 + dlen, bytes.len());
    let msg = match tag {
        0 => Message::DkgBegin,
        1 => Message::DkgPrivateBegin,
        2 => Message::DkgEnd { signer_id: sender },
        3 => Message::DkgPublicShares { signer_id: sender },
        4 => Message::DkgPrivateShares { signer_id: sender },
        5 => Message::NonceRequest,
        6 => Message::NonceResponse { signer_id: sender },
        7 => Message::SignatureShareRequest,
        8 => Message::SignatureShareResponse { signer_id: sender },
        _ => {
            return None;
        },
    };
    Some(Packet { msg, payload_digest: digest, sig })
}

} // verus!

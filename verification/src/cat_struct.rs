//! Wire codec for the fungible-transfer payload.
//!
//! Exactly two message kinds share the channel: a 32-byte liveness
//! handshake carrying the sending program's identity, and a 225-byte
//! transfer record. The decoder discriminates by total byte length: a
//! 32-byte buffer is always the handshake, anything else is read
//! positionally as a transfer. All multi-byte fields are big-endian.

use vstd::prelude::*;

verus! {

use crate::u256::U256;
use crate::error::ErrorFactory;

/// Number of bytes of an encoded fungible transfer.
pub const TRANSFER_PAYLOAD_LEN: usize = 225;

/// Number of bytes of an encoded liveness handshake.
pub const ALIVE_PAYLOAD_LEN: usize = 32;

/// One directional fungible-transfer intent, as carried on the wire.
#[derive(Clone, Copy, Debug, PartialEq, Eq)]
pub struct CrossChainStruct {
    /// Amount at wire precision, as a 256-bit big-endian integer.
    pub amount: U256,
    /// Native decimal precision of the source token.
    pub token_decimals: u8,
    /// Token address on the source chain.
    pub source_token_address: [u8; 32],
    /// Sending user on the source chain.
    pub source_user_address: [u8; 32],
    /// Chain id of the source chain, widened to 256 bits.
    pub source_token_chain: U256,
    /// Token address on the destination chain.
    pub dest_token_address: [u8; 32],
    /// Receiving user on the destination chain.
    pub dest_user_address: [u8; 32],
    /// Chain id of the destination chain, widened to 256 bits.
    pub dest_token_chain: U256,
}

/// A message as exchanged with remote chains: either the one-shot liveness
/// handshake or a fungible transfer.
#[derive(Clone, Copy, Debug, PartialEq, Eq)]
pub enum CATSOLStructs {
    Alive { program_id: [u8; 32] },
    CrossChainPayload { payload: CrossChainStruct },
}

/// The bytes a fungible transfer serializes to: every field in order, all
/// multi-byte fields big-endian, 225 bytes in total.
pub open spec fn spec_serialize_payload(p: CrossChainStruct) -> Seq<u8> {
    p.amount.bytes@ + seq![p.token_decimals] + p.source_token_address@ + p.source_user_address@
        + p.source_token_chain.bytes@ + p.dest_token_address@ + p.dest_user_address@
        + p.dest_token_chain.bytes@
}

/// The bytes a message serializes to.
pub open spec fn spec_serialize(s: CATSOLStructs) -> Seq<u8> {
    match s {
        CATSOLStructs::Alive { program_id } => program_id@,
        CATSOLStructs::CrossChainPayload { payload } => spec_serialize_payload(payload),
    }
}

/// The decoding relation: `s` is what the buffer `b` decodes to. A 32-byte
/// buffer is the liveness handshake; a buffer of at least 225 bytes is a
/// transfer read field by field (trailing bytes are tolerated and
/// ignored); anything else is malformed.
pub open spec fn spec_decodes_to(b: Seq<u8>, s: CATSOLStructs) -> bool {
    if b.len() == 32 {
        s matches CATSOLStructs::Alive { program_id } && program_id@ == b
    } else if b.len() >= 225 {
        &&& s matches CATSOLStructs::CrossChainPayload { payload }
        &&& payload.amount.bytes@ == b.subrange(0, 32)
        &&& payload.token_decimals == b[32]
        &&& payload.source_token_address@ == b.subrange(33, 65)
        &&& payload.source_user_address@ == b.subrange(65, 97)
        &&& payload.source_token_chain.bytes@ == b.subrange(97, 129)
        &&& payload.dest_token_address@ == b.subrange(129, 161)
        &&& payload.dest_user_address@ == b.subrange(161, 193)
        &&& payload.dest_token_chain.bytes@ == b.subrange(193, 225)
    } else {
        false
    }
}

/// True when a buffer is read as a fungible transfer rather than the
/// handshake: any length other than 32 that holds all fixed fields.
pub open spec fn spec_is_transfer(b: Seq<u8>) -> bool {
    b.len() != 32 && b.len() >= 225
}

/// The amount a transfer buffer carries, as the unbounded integer its
/// 256-bit field denotes.
pub open spec fn spec_transfer_amount(b: Seq<u8>) -> int {
    crate::u256::be_bytes_value(b.subrange(0, 32))
}

/// The destination chain id a transfer buffer carries.
pub open spec fn spec_transfer_dest_chain(b: Seq<u8>) -> int {
    crate::u256::be_bytes_value(b.subrange(193, 225))
}

/// The destination user address a transfer buffer carries.
pub open spec fn spec_transfer_dest_user(b: Seq<u8>) -> Seq<u8> {
    b.subrange(161, 193)
}

/// Appends a 32-byte field to the output buffer.
pub fn push_bytes32(out: &mut Vec<u8>, b: &[u8; 32])
    ensures
        final(out)@ == old(out)@ + b@,
{
    let mut k: usize = 0;
    while k < 32
        invariant
            k <= 32,
            out@ == old(out)@ + b@.take(k as int),
        decreases 32 - k,
    {
        out.push(b[k]);
        proof {
            assert(old(out)@ + b@.take(k as int) + seq![b@[k as int]] =~= old(out)@ + b@.take(
                k + 1,
            ));
        }
        k = k + 1;
    }
    proof {
        assert(b@.take(32) =~= b@);
    }
}

/// Reads a 32-byte field at `off` from the input buffer.
pub fn read_bytes32(buf: &Vec<u8>, off: usize) -> (r: [u8; 32])
    requires
        off + 32 <= buf@.len(),
    ensures
        r@ == buf@.subrange(off as int, off as int + 32),
{
    let mut r = [0u8; 32];
    let n = buf.len();
    let mut k: usize = 0;
    while k < 32
        invariant
            k <= 32,
            n == buf@.len(),
            off + 32 <= n,
            r@.len() == 32,
            forall|i: int| 0 <= i < k ==> r@[i] == buf@[off + i],
        decreases 32 - k,
    {
        r[k] = buf[off + k];
        k = k + 1;
    }
    proof {
        assert(r@ =~= buf@.subrange(off as int, off as int + 32));
    }
    r
}

impl CATSOLStructs {
    /// Serializes the message deterministically: the same value always
    /// yields the same bytes, so relayed messages have a stable identity.
    pub fn serialize(&self) -> (out: Vec<u8>)
        ensures
            out@ == spec_serialize(*self),
    {
        let mut out: Vec<u8> = Vec::new();
        match self {
            CATSOLStructs::Alive { program_id } => {
                push_bytes32(&mut out, program_id);
            },
            CATSOLStructs::CrossChainPayload { payload } => {
                push_bytes32(&mut out, &payload.amount.bytes);
                out.push(payload.token_decimals);
                push_bytes32(&mut out, &payload.source_token_address);
                push_bytes32(&mut out, &payload.source_user_address);
                push_bytes32(&mut out, &payload.source_token_chain.bytes);
                push_bytes32(&mut out, &payload.dest_token_address);
                push_bytes32(&mut out, &payload.dest_user_address);
                push_bytes32(&mut out, &payload.dest_token_chain.bytes);
                proof {
                    assert(out@ =~= spec_serialize_payload(*payload));
                }
            },
        }
        out
    }

    /// Decodes a received buffer. Succeeds exactly on a 32-byte handshake
    /// or a transfer of at least 225 bytes; truncated input is refused
    /// cleanly. A 32-byte buffer is always the handshake and never a
    /// transfer, and vice versa.
    pub fn deserialize(buf: &Vec<u8>) -> (r: Result<CATSOLStructs, ErrorFactory>)
        ensures
            r matches Ok(s) ==> spec_decodes_to(buf@, s),
            r is Ok <==> (buf@.len() == 32 || buf@.len() >= 225),
            (r matches Ok(s) && s is Alive) <==> buf@.len() == 32,
            r matches Err(e) ==> e == ErrorFactory::InvalidMessage,
    {
        if buf.len() == 32 {
            let program_id = read_bytes32(buf, 0);
            proof {
                assert(buf@.subrange(0, 32) =~= buf@);
            }
            Ok(CATSOLStructs::Alive { program_id })
        } else if buf.len() >= 225 {
            let amount = U256 { bytes: read_bytes32(buf, 0) };
            let token_decimals = buf[32];
            let source_token_address = read_bytes32(buf, 33);
            let source_user_address = read_bytes32(buf, 65);
            let source_token_chain = U256 { bytes: read_bytes32(buf, 97) };
            let dest_token_address = read_bytes32(buf, 129);
            let dest_user_address = read_bytes32(buf, 161);
            let dest_token_chain = U256 { bytes: read_bytes32(buf, 193) };
            let payload = CrossChainStruct {
                amount,
                token_decimals,
                source_token_address,
                source_user_address,
                source_token_chain,
                dest_token_address,
                dest_user_address,
                dest_token_chain,
            };
            Ok(CATSOLStructs::CrossChainPayload { payload })
        } else {
            Err(ErrorFactory::InvalidMessage)
        }
    }
}

/// Law: serialization round-trips. What a message serializes to decodes
/// back to that very message, for the handshake and for every transfer.
pub proof fn lemma_serialize_round_trip(s: CATSOLStructs)
    ensures
        spec_decodes_to(spec_serialize(s), s),
{
    match s {
        CATSOLStructs::Alive { program_id } => {
        },
        CATSOLStructs::CrossChainPayload { payload } => {
            let b = spec_serialize_payload(payload);
            assert(b.len() == 225);
            assert(payload.amount.bytes@ =~= b.subrange(0, 32));
            assert(payload.token_decimals == b[32]);
            assert(payload.source_token_address@ =~= b.subrange(33, 65));
            assert(payload.source_user_address@ =~= b.subrange(65, 97));
            assert(payload.source_token_chain.bytes@ =~= b.subrange(97, 129));
            assert(payload.dest_token_address@ =~= b.subrange(129, 161));
            assert(payload.dest_user_address@ =~= b.subrange(161, 193));
            assert(payload.dest_token_chain.bytes@ =~= b.subrange(193, 225));
        },
    }
}

/// Law: what a message serializes to decodes back to that very message
/// and to nothing else.
pub proof fn lemma_round_trip_exact(s: CATSOLStructs, t: CATSOLStructs)
    requires
        spec_decodes_to(spec_serialize(s), t),
    ensures
        t == s,
{
    lemma_serialize_round_trip(s);
    lemma_decodes_to_unique(spec_serialize(s), s, t);
}

/// Law: a buffer decodes to at most one message, so together with the
/// round trip, deserializing a serialized message yields it exactly.
pub proof fn lemma_decodes_to_unique(b: Seq<u8>, s1: CATSOLStructs, s2: CATSOLStructs)
    requires
        spec_decodes_to(b, s1),
        spec_decodes_to(b, s2),
    ensures
        s1 == s2,
{
    broadcast use vstd::array::group_array_axioms;

    if b.len() == 32 {
        let id1 = s1->Alive_program_id;
        let id2 = s2->Alive_program_id;
        assert(id1@ =~= id2@);
        assert(id1 == id2);
    } else {
        let p1 = s1->CrossChainPayload_payload;
        let p2 = s2->CrossChainPayload_payload;
        assert(p1.amount.bytes@ =~= p2.amount.bytes@);
        assert(p1.amount.bytes == p2.amount.bytes);
        assert(p1.source_token_address@ =~= p2.source_token_address@);
        assert(p1.source_token_address == p2.source_token_address);
        assert(p1.source_user_address@ =~= p2.source_user_address@);
        assert(p1.source_user_address == p2.source_user_address);
        assert(p1.source_token_chain.bytes@ =~= p2.source_token_chain.bytes@);
        assert(p1.source_token_chain.bytes == p2.source_token_chain.bytes);
        assert(p1.dest_token_address@ =~= p2.dest_token_address@);
        assert(p1.dest_token_address == p2.dest_token_address);
        assert(p1.dest_user_address@ =~= p2.dest_user_address@);
        assert(p1.dest_user_address == p2.dest_user_address);
        assert(p1.dest_token_chain.bytes@ =~= p2.dest_token_chain.bytes@);
        assert(p1.dest_token_chain.bytes == p2.dest_token_chain.bytes);
        assert(p1 == p2);
    }
}

} // verus!

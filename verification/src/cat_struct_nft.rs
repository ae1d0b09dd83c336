//! Wire codec for the non-fungible-transfer payload.
//!
//! The same channel again carries a 32-byte liveness handshake, told apart
//! from transfers purely by length. A transfer holds the token, its chain,
//! a 256-bit token id, the asset's URI as a trailing variable-length byte
//! string, and the destination; it is at least 100 bytes long, so it can
//! never be mistaken for the handshake. Multi-byte fields are big-endian.

use vstd::prelude::*;

verus! {

use crate::u256::U256;
use crate::error::ErrorFactory;
use crate::cat_struct::push_bytes32;
use crate::cat_struct::read_bytes32;

/// Number of bytes of an encoded non-fungible transfer besides its URI.
pub const NFT_FIXED_LEN: usize = 100;

/// The two big-endian bytes of a 16-bit chain id.
pub open spec fn spec_u16_be(v: u16) -> Seq<u8> {
    seq![(v / 256) as u8, (v % 256) as u8]
}

/// One directional non-fungible-transfer intent, as carried on the wire.
/// The URI is kept as the raw bytes that travel in the payload.
#[derive(Clone, Debug, PartialEq, Eq)]
pub struct CrossChainStruct {
    /// Token address on the source chain.
    pub token_address: [u8; 32],
    /// Chain id of the source chain.
    pub token_chain: u16,
    /// Identity of the asset within its collection.
    pub token_id: U256,
    /// Metadata URI of the asset, consuming all bytes between the fixed
    /// fields.
    pub uri: Vec<u8>,
    /// Receiving user on the destination chain.
    pub to_address: [u8; 32],
    /// Chain id of the destination chain.
    pub to_chain: u16,
}

/// A message of the non-fungible channel: the one-shot liveness handshake
/// or an asset transfer.
#[derive(Clone, Debug, PartialEq, Eq)]
pub enum CATSOLStructs {
    Alive { program_id: [u8; 32] },
    CrossChainPayload { payload: CrossChainStruct },
}

/// The bytes a non-fungible transfer serializes to.
pub open spec fn spec_serialize_payload(p: CrossChainStruct) -> Seq<u8> {
    p.token_address@ + spec_u16_be(p.token_chain) + p.token_id.bytes@ + p.uri@ + p.to_address@
        + spec_u16_be(p.to_chain)
}

/// The bytes a message of this channel serializes to.
pub open spec fn spec_serialize(s: CATSOLStructs) -> Seq<u8> {
    match s {
        CATSOLStructs::Alive { program_id } => program_id@,
        CATSOLStructs::CrossChainPayload { payload } => spec_serialize_payload(payload),
    }
}

/// The decoding relation: a 32-byte buffer is the handshake; a buffer of
/// at least 100 bytes is a transfer whose URI takes every byte between the
/// token id and the destination address; anything else is malformed.
pub open spec fn spec_decodes_to(b: Seq<u8>, s: CATSOLStructs) -> bool {
    if b.len() == 32 {
        s matches CATSOLStructs::Alive { program_id } && program_id@ == b
    } else if b.len() >= 100 {
        &&& s matches CATSOLStructs::CrossChainPayload { payload }
        &&& payload.token_address@ == b.subrange(0, 32)
        &&& payload.token_chain == b[32] * 256 + b[33]
        &&& payload.token_id.bytes@ == b.subrange(34, 66)
        &&& payload.uri@ == b.subrange(66, b.len() - 34)
        &&& payload.to_address@ == b.subrange(b.len() - 34, b.len() - 2)
        &&& payload.to_chain == b[b.len() - 2] * 256 + b[b.len() - 1]
    } else {
        false
    }
}

/// Appends a 16-bit chain id in big-endian order.
pub fn push_u16_be(out: &mut Vec<u8>, v: u16)
    ensures
        final(out)@ == old(out)@ + spec_u16_be(v),
{
    out.push((v / 256) as u8);
    out.push((v % 256) as u8);
    proof {
        assert(final(out)@ =~= old(out)@ + spec_u16_be(v));
    }
}

/// Reads a big-endian 16-bit chain id at `off`.
pub fn read_u16_be(buf: &Vec<u8>, off: usize) -> (r: u16)
    requires
        off + 2 <= buf@.len(),
    ensures
        r == buf@[off as int] * 256 + buf@[off as int + 1],
{
    let n = buf.len();
    (buf[off] as u16) * 256 + (buf[off + 1] as u16)
}

/// Appends a whole byte string.
pub fn push_bytes(out: &mut Vec<u8>, b: &Vec<u8>)
    ensures
        final(out)@ == old(out)@ + b@,
{
    let n = b.len();
    let mut k: usize = 0;
    while k < n
        invariant
            k <= n,
            n == b@.len(),
            out@ == old(out)@ + b@.take(k as int),
        decreases n - k,
    {
        out.push(b[k]);
        proof {
            assert(old(out)@ + b@.take(k as int) + seq![b@[k as int]] =~= old(out)@ + b@.take(
                k + 1,
            ));
        }
        k = k + 1;
    }
    proof {
        assert(b@.take(n as int) =~= b@);
    }
}

/// Copies `buf[from..to]` out as a fresh byte string.
pub fn read_bytes_range(buf: &Vec<u8>, from: usize, to: usize) -> (r: Vec<u8>)
    requires
        from <= to <= buf@.len(),
    ensures
        r@ == buf@.subrange(from as int, to as int),
{
    let mut r: Vec<u8> = Vec::new();
    let mut k: usize = from;
    while k < to
        invariant
            from <= k <= to,
            to <= buf@.len(),
            r@ == buf@.subrange(from as int, k as int),
        decreases to - k,
    {
        r.push(buf[k]);
        proof {
            assert(buf@.subrange(from as int, k as int) + seq![buf@[k as int]] =~= buf@.subrange(
                from as int,
                k + 1,
            ));
        }
        k = k + 1;
    }
    r
}

impl CrossChainStruct {
    /// Serializes one asset transfer deterministically.
    pub fn serialize_payload(&self) -> (out: Vec<u8>)
        ensures
            out@ == spec_serialize_payload(*self),
    {
        let mut out: Vec<u8> = Vec::new();
        push_bytes32(&mut out, &self.token_address);
        push_u16_be(&mut out, self.token_chain);
        push_bytes32(&mut out, &self.token_id.bytes);
        push_bytes(&mut out, &self.uri);
        push_bytes32(&mut out, &self.to_address);
        push_u16_be(&mut out, self.to_chain);
        proof {
            assert(out@ =~= spec_serialize_payload(*self));
        }
        out
    }
}

impl CATSOLStructs {
    /// Serializes the message deterministically.
    pub fn serialize(&self) -> (out: Vec<u8>)
        ensures
            out@ == spec_serialize(*self),
    {
        match self {
            CATSOLStructs::Alive { program_id } => {
                let mut out: Vec<u8> = Vec::new();
                push_bytes32(&mut out, program_id);
                out
            },
            CATSOLStructs::CrossChainPayload { payload } => payload.serialize_payload(),
        }
    }

    /// Decodes a received buffer. Succeeds exactly on a 32-byte handshake
    /// or a transfer of at least 100 bytes; truncated input is refused
    /// cleanly, and no buffer of another length ever reads as the
    /// handshake.
    pub fn deserialize(buf: &Vec<u8>) -> (r: Result<CATSOLStructs, ErrorFactory>)
        ensures
            r matches Ok(s) ==> spec_decodes_to(buf@, s),
            r is Ok <==> (buf@.len() == 32 || buf@.len() >= 100),
            (r matches Ok(s) && s is Alive) <==> buf@.len() == 32,
            r matches Err(e) ==> e == ErrorFactory::InvalidMessage,
    {
        let n = buf.len();
        if n == 32 {
            let program_id = read_bytes32(buf, 0);
            proof {
                assert(buf@.subrange(0, 32) =~= buf@);
            }
            Ok(CATSOLStructs::Alive { program_id })
        } else if n >= 100 {
            let token_address = read_bytes32(buf, 0);
            let token_chain = read_u16_be(buf, 32);
            let token_id = U256 { bytes: read_bytes32(buf, 34) };
            let uri = read_bytes_range(buf, 66, n - 34);
            let to_address = read_bytes32(buf, n - 34);
            let to_chain = read_u16_be(buf, n - 2);
            let payload = CrossChainStruct {
                token_address,
                token_chain,
                token_id,
                uri,
                to_address,
                to_chain,
            };
            Ok(CATSOLStructs::CrossChainPayload { payload })
        } else {
            Err(ErrorFactory::InvalidMessage)
        }
    }
}

/// Law: the chain-id codec round-trips.
pub proof fn lemma_u16_be_round_trip(v: u16)
    ensures
        spec_u16_be(v)[0] * 256 + spec_u16_be(v)[1] == v,
{
    vstd::arithmetic::div_mod::lemma_fundamental_div_mod(v as int, 256);
}

/// Law: serialization round-trips, for the handshake and for every
/// transfer, whatever the length of its URI.
pub proof fn lemma_serialize_round_trip(s: CATSOLStructs)
    ensures
        spec_decodes_to(spec_serialize(s), s),
{
    match s {
        CATSOLStructs::Alive { program_id } => {
        },
        CATSOLStructs::CrossChainPayload { payload } => {
            let b = spec_serialize_payload(payload);
            let u = payload.uri@.len() as int;
            assert(b.len() == 100 + u);
            lemma_u16_be_round_trip(payload.token_chain);
            lemma_u16_be_round_trip(payload.to_chain);
            assert(payload.token_address@ =~= b.subrange(0, 32));
            assert(b[32] == spec_u16_be(payload.token_chain)[0]);
            assert(b[33] == spec_u16_be(payload.token_chain)[1]);
            assert(payload.token_id.bytes@ =~= b.subrange(34, 66));
            assert(payload.uri@ =~= b.subrange(66, b.len() - 34));
            assert(payload.to_address@ =~= b.subrange(b.len() - 34, b.len() - 2));
            assert(b[b.len() - 2] == spec_u16_be(payload.to_chain)[0]);
            assert(b[b.len() - 1] == spec_u16_be(payload.to_chain)[1]);
        },
    }
}

/// Law: a buffer decodes to at most one message of this channel: two
/// decodings agree on the kind and on every field, with the URI compared
/// as the byte string it denotes.
pub proof fn lemma_decodes_to_unique(b: Seq<u8>, s1: CATSOLStructs, s2: CATSOLStructs)
    requires
        spec_decodes_to(b, s1),
        spec_decodes_to(b, s2),
    ensures
        s1 is Alive <==> s2 is Alive,
        s1 matches CATSOLStructs::Alive { program_id } ==> program_id
            == s2->Alive_program_id,
        s1 matches CATSOLStructs::CrossChainPayload { payload } ==> {
            let q = s2->CrossChainPayload_payload;
            &&& payload.token_address == q.token_address
            &&& payload.token_chain == q.token_chain
            &&& payload.token_id == q.token_id
            &&& payload.uri@ == q.uri@
            &&& payload.to_address == q.to_address
            &&& payload.to_chain == q.to_chain
        },
{
    broadcast use vstd::array::group_array_axioms;

    if b.len() == 32 {
        let id1 = s1->Alive_program_id;
        let id2 = s2->Alive_program_id;
        assert(id1@ =~= id2@);
        assert(id1 == id2);
    } else {
        let p1 = s1->CrossChainPayload_payload;
        let p2 = s2->CrossChainPayload_payload;
        assert(p1.token_address@ =~= p2.token_address@);
        assert(p1.token_address == p2.token_address);
        assert(p1.token_id.bytes@ =~= p2.token_id.bytes@);
        assert(p1.token_id.bytes == p2.token_id.bytes);
        assert(p1.to_address@ =~= p2.to_address@);
        assert(p1.to_address == p2.to_address);
    }
}

} // verus!

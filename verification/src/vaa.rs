//! Signed messages of the guardians.
//!
//! On the wire a message is: one byte with the message's whole length, the
//! index of the guardian set that signed (4 bytes), the signature (64 bytes),
//! then the payload, which starts with a tag. What is signed is the digest of
//! the payload, tag included.

use crate::codec::{
    array_of, flag_at, flag_byte, lemma_array_at, lemma_flag_at, lemma_u32_at, lemma_u64_at,
    push_bytes, push_flag, push_u32, push_u64, push_u8, read_flag, read_key, read_u32, read_u64,
    u32_at, u32_le, u64_at, u64_le,
};
use crate::error::Error;
use crate::hash::{keccak256, message_hash};
use crate::keys::{ForeignAddress, RawKey, Signature};
use crate::state::AssetMeta;
use vstd::prelude::*;
use vstd::slice::slice_subrange;

verus! {

/// Where the payload starts in a message.
pub const PAYLOAD_OFFSET: usize = 69;

/// Tag of a guardian set update.
pub const TAG_UPDATE_GUARDIAN_SET: u8 = 1;

/// Tag of a transfer.
pub const TAG_TRANSFER: u8 = 2;

/// Length of a message that holds a guardian set update.
pub const UPDATE_GUARDIAN_SET_LEN: usize = 107;

/// Length of a message that holds a transfer.
pub const TRANSFER_LEN: usize = 144;

/// Payload that replaces the active guardian set.
#[derive(Clone, Copy, Debug, PartialEq, Eq)]
pub struct BodyUpdateGuardianSet {
    /// Index of the new set.
    pub new_index: u32,
    /// Verification key of the new set.
    pub new_key: RawKey,
}

/// Payload that credits tokens that were locked or burnt on another chain.
#[derive(Clone, Copy, Debug, PartialEq, Eq)]
pub struct BodyTransfer {
    /// Amount to credit.
    pub amount: u64,
    /// Chain on which the recipient lives.
    pub chain_id: u8,
    /// The recipient.
    pub target_address: ForeignAddress,
    /// The asset that is transferred.
    pub asset: AssetMeta,
}

/// What a message asks for.
#[derive(Clone, Copy, Debug, PartialEq, Eq)]
pub enum VAABody {
    UpdateGuardianSet(BodyUpdateGuardianSet),
    Transfer(BodyTransfer),
}

/// A message attested by a guardian set.
#[derive(Clone, Copy, Debug, PartialEq, Eq)]
pub struct VAA {
    /// Index of the guardian set that signed.
    pub guardian_set_index: u32,
    /// The set's signature over `payload_digest`.
    pub signature: Signature,
    /// Digest of the payload's bytes.
    pub payload_digest: [u8; 32],
    /// The payload, where its tag is one that the bridge knows.
    pub payload: Option<VAABody>,
}

/// The payload that a message's bytes hold.
pub open spec fn payload_spec(data: Seq<u8>) -> Result<Option<VAABody>, Error> {
    if data[PAYLOAD_OFFSET as int] == TAG_UPDATE_GUARDIAN_SET {
        if data.len() != UPDATE_GUARDIAN_SET_LEN {
            Err(Error::ParseFailed)
        } else {
            Ok(
                Some(
                    VAABody::UpdateGuardianSet(
                        BodyUpdateGuardianSet {
                            new_index: u32_at(data, 70),
                            new_key: RawKey {
                                x: array_of::<32>(data.subrange(74, 106)),
                                y_parity: flag_at(data, 106),
                            },
                        },
                    ),
                ),
            )
        }
    } else if data[PAYLOAD_OFFSET as int] == TAG_TRANSFER {
        if data.len() != TRANSFER_LEN {
            Err(Error::ParseFailed)
        } else {
            Ok(
                Some(
                    VAABody::Transfer(
                        BodyTransfer {
                            amount: u64_at(data, 70),
                            chain_id: data[78],
                            target_address: array_of::<32>(data.subrange(79, 111)),
                            asset: AssetMeta {
                                address: array_of::<32>(data.subrange(112, 144)),
                                chain: data[111],
                            },
                        },
                    ),
                ),
            )
        }
    } else {
        Ok(None)
    }
}

/// The message that `data` holds, given the digest of its payload.
pub open spec fn parse_spec(data: Seq<u8>, payload_digest: [u8; 32]) -> Result<VAA, Error> {
    if data.len() <= PAYLOAD_OFFSET || data.len() > 255 || data[0] != data.len() {
        Err(Error::ParseFailed)
    } else {
        match payload_spec(data) {
            Err(e) => Err(e),
            Ok(payload) => Ok(
                VAA {
                    guardian_set_index: u32_at(data, 1),
                    signature: Signature { bytes: array_of::<64>(data.subrange(5, 69)) },
                    payload_digest,
                    payload,
                },
            ),
        }
    }
}

/// The bytes of a message that are signed.
pub open spec fn signed_bytes(data: Seq<u8>) -> Seq<u8> {
    data.subrange(PAYLOAD_OFFSET as int, data.len() as int)
}

/// The message that `data` holds.
pub open spec fn deserialize_spec(data: Seq<u8>) -> Result<VAA, Error> {
    parse_spec(data, message_hash(signed_bytes(data)))
}

/// The bytes of a payload, tag first.
pub open spec fn payload_bytes(body: VAABody) -> Seq<u8> {
    match body {
        VAABody::UpdateGuardianSet(b) => seq![TAG_UPDATE_GUARDIAN_SET] + u32_le(
            b.new_index,
        ) + b.new_key.x@ + seq![flag_byte(b.new_key.y_parity)],
        VAABody::Transfer(b) => seq![TAG_TRANSFER] + u64_le(b.amount)
            + seq![b.chain_id] + b.target_address@ + seq![b.asset.chain] + b.asset.address@,
    }
}

/// The length of a message with a payload.
pub open spec fn message_len(body: VAABody) -> u8 {
    match body {
        VAABody::UpdateGuardianSet(_) => 107,
        VAABody::Transfer(_) => 144,
    }
}

/// The bytes of a message.
pub open spec fn serialize_spec(guardian_set_index: u32, signature: Signature, body: VAABody) -> Seq<
    u8,
> {
    seq![message_len(body)] + u32_le(guardian_set_index) + signature.bytes@
        + payload_bytes(body)
}

/// What was written as a message is read back unchanged, with the digest of
/// the payload's bytes.
pub proof fn lemma_message_round_trip(guardian_set_index: u32, signature: Signature, body: VAABody)
    ensures
        signed_bytes(serialize_spec(guardian_set_index, signature, body)) == payload_bytes(body),
        deserialize_spec(serialize_spec(guardian_set_index, signature, body)) == Ok::<VAA, Error>(
            VAA {
                guardian_set_index,
                signature,
                payload_digest: message_hash(payload_bytes(body)),
                payload: Some(body),
            },
        ),
{
    let e: Seq<u8> = serialize_spec(guardian_set_index, signature, body);
    let end: Seq<u8> = Seq::empty();
    let h0: Seq<u8> = seq![message_len(body)];
    let h1: Seq<u8> = u32_le(guardian_set_index);
    let h2: Seq<u8> = signature.bytes@;
    let payload: Seq<u8> = payload_bytes(body);
    lemma_u32_at(h0, guardian_set_index, h2 + payload);
    assert(e =~= h0 + h1 + (h2 + payload));
    lemma_array_at::<64>(h0 + h1, signature.bytes, payload);
    let head: Seq<u8> = h0 + h1 + h2;
    assert(head.len() == 69);
    match body {
        VAABody::UpdateGuardianSet(b) => {
            let f0: Seq<u8> = seq![TAG_UPDATE_GUARDIAN_SET];
            let f1: Seq<u8> = u32_le(b.new_index);
            let f2: Seq<u8> = b.new_key.x@;
            let f3: Seq<u8> = seq![flag_byte(b.new_key.y_parity)];
            lemma_u32_at(head + f0, b.new_index, f2 + f3);
            assert(e =~= head + f0 + f1 + (f2 + f3));
            lemma_array_at::<32>(head + f0 + f1, b.new_key.x, f3);
            assert(e =~= head + f0 + f1 + f2 + f3);
            lemma_flag_at(head + f0 + f1 + f2, b.new_key.y_parity, end);
            assert(e =~= head + f0 + f1 + f2 + f3 + end);
            assert(e[69] == TAG_UPDATE_GUARDIAN_SET);
        },
        VAABody::Transfer(b) => {
            let f0: Seq<u8> = seq![TAG_TRANSFER];
            let f1: Seq<u8> = u64_le(b.amount);
            let f2: Seq<u8> = seq![b.chain_id];
            let f3: Seq<u8> = b.target_address@;
            let f4: Seq<u8> = seq![b.asset.chain];
            let f5: Seq<u8> = b.asset.address@;
            lemma_u64_at(head + f0, b.amount, f2 + f3 + f4 + f5);
            assert(e =~= head + f0 + f1 + (f2 + f3 + f4 + f5));
            lemma_array_at::<32>(head + f0 + f1 + f2, b.target_address, f4 + f5);
            assert(e =~= head + f0 + f1 + f2 + f3 + (f4 + f5));
            lemma_array_at::<32>(head + f0 + f1 + f2 + f3 + f4, b.asset.address, end);
            assert(e =~= head + f0 + f1 + f2 + f3 + f4 + f5 + end);
            assert(e[69] == TAG_TRANSFER);
            assert(e[78] == b.chain_id);
            assert(e[111] == b.asset.chain);
        },
    }
    assert(e.len() == message_len(body));
    assert(e[0] == message_len(body));
    assert(signed_bytes(e) =~= payload);
}

impl VAA {
    /// Writes a message with a payload.
    pub fn serialize(guardian_set_index: u32, signature: &Signature, body: &VAABody) -> (r: Vec<
        u8,
    >)
        ensures
            r@ == serialize_spec(guardian_set_index, *signature, *body),
    {
        let mut out: Vec<u8> = Vec::new();
        match body {
            VAABody::UpdateGuardianSet(b) => {
                push_u8(&mut out, 107);
                push_u32(&mut out, guardian_set_index);
                push_bytes(&mut out, signature.bytes.as_slice());
                push_u8(&mut out, TAG_UPDATE_GUARDIAN_SET);
                push_u32(&mut out, b.new_index);
                push_bytes(&mut out, b.new_key.x.as_slice());
                push_flag(&mut out, b.new_key.y_parity);
            },
            VAABody::Transfer(b) => {
                push_u8(&mut out, 144);
                push_u32(&mut out, guardian_set_index);
                push_bytes(&mut out, signature.bytes.as_slice());
                push_u8(&mut out, TAG_TRANSFER);
                push_u64(&mut out, b.amount);
                push_u8(&mut out, b.chain_id);
                push_bytes(&mut out, b.target_address.as_slice());
                push_u8(&mut out, b.asset.chain);
                push_bytes(&mut out, b.asset.address.as_slice());
            },
        }
        assert(out@ =~= serialize_spec(guardian_set_index, *signature, *body));
        out
    }

    /// Asks the signature primitive whether the guardian set with the key
    /// `guardian_key` signed this message: whether the signature fits the key
    /// and the payload's digest. The answer is the primitive's.
    pub fn verify<F: Fn(RawKey, [u8; 32], Signature) -> bool>(
        &self,
        guardian_key: &RawKey,
        primitive: &F,
    ) -> (r: bool)
        requires
            call_requires(*primitive, (*guardian_key, self.payload_digest, self.signature)),
        ensures
            call_ensures(*primitive, (*guardian_key, self.payload_digest, self.signature), r),
    {
        primitive(*guardian_key, self.payload_digest, self.signature)
    }

    /// Reads the payload of a message. The bytes must reach beyond the tag.
    fn parse_payload(data: &[u8]) -> (r: Result<Option<VAABody>, Error>)
        requires
            data@.len() > PAYLOAD_OFFSET,
        ensures
            r == payload_spec(data@),
    {
        let tag: u8 = data[PAYLOAD_OFFSET];
        if tag == TAG_UPDATE_GUARDIAN_SET {
            if data.len() != UPDATE_GUARDIAN_SET_LEN {
                return Err(Error::ParseFailed);
            }
            Ok(
                Some(
                    VAABody::UpdateGuardianSet(
                        BodyUpdateGuardianSet {
                            new_index: read_u32(data, 70),
                            new_key: RawKey {
                                x: read_key::<32>(data, 74),
                                y_parity: read_flag(data, 106),
                            },
                        },
                    ),
                ),
            )
        } else if tag == TAG_TRANSFER {
            if data.len() != TRANSFER_LEN {
                return Err(Error::ParseFailed);
            }
            Ok(
                Some(
                    VAABody::Transfer(
                        BodyTransfer {
                            amount: read_u64(data, 70),
                            chain_id: data[78],
                            target_address: read_key::<32>(data, 79),
                            asset: AssetMeta {
                                address: read_key::<32>(data, 112),
                                chain: data[111],
                            },
                        },
                    ),
                ),
            )
        } else {
            Ok(None)
        }
    }

    /// Reads a message from its bytes, given the digest of its payload.
    pub fn parse(data: &[u8], payload_digest: [u8; 32]) -> (r: Result<VAA, Error>)
        ensures
            r == parse_spec(data@, payload_digest),
    {
        if data.len() <= PAYLOAD_OFFSET || data.len() > 255 {
            return Err(Error::ParseFailed);
        }
        let declared: u8 = data[0];
        if declared as usize != data.len() {
            return Err(Error::ParseFailed);
        }
        match Self::parse_payload(data) {
            Err(e) => Err(e),
            Ok(payload) => Ok(
                VAA {
                    guardian_set_index: read_u32(data, 1),
                    signature: Signature { bytes: read_key::<64>(data, 5) },
                    payload_digest,
                    payload,
                },
            ),
        }
    }

    /// Reads a message from its bytes and hashes its payload.
    pub fn deserialize(data: &[u8]) -> (r: Result<VAA, Error>)
        ensures
            r == deserialize_spec(data@),
    {
        if data.len() <= PAYLOAD_OFFSET {
            return Err(Error::ParseFailed);
        }
        let digest: [u8; 32] = keccak256(slice_subrange(data, PAYLOAD_OFFSET, data.len()));
        Self::parse(data, digest)
    }
}

} // verus!

//! The instructions of the bridge and their encoding.
//!
//! An instruction is one tag byte, then its arguments in a fixed layout:
//! integers little-endian, keys as their bytes, flags as one byte.

use crate::codec::{
    array_of, flag_at, flag_byte, lemma_array_at, lemma_flag_at, lemma_u32_at, lemma_u64_at,
    push_bytes, push_flag, push_u32, push_u64, push_u8, read_flag, read_key, read_u32, read_u64,
    u32_at, u32_le, u64_at, u64_le,
};
use crate::error::Error;
use crate::keys::{ForeignAddress, Pubkey, RawKey};
use crate::state::{AssetMeta, BridgeConfig, VaaBody};
use vstd::prelude::*;

verus! {

/// Tag of `Initialize`.
pub const TAG_INITIALIZE: u8 = 0;

/// Tag of `TransferOut`.
pub const TAG_TRANSFER_OUT: u8 = 1;

/// Tag of `PostVAA`.
pub const TAG_POST_VAA: u8 = 2;

/// Length of an encoded `Initialize`.
pub const INITIALIZE_LEN: usize = 70;

/// Length of an encoded `TransferOut`.
pub const TRANSFER_OUT_LEN: usize = 75;

/// Length of an encoded `PostVAA`.
pub const POST_VAA_LEN: usize = 201;

/// Arguments of `Initialize`.
#[derive(Clone, Copy, Debug, PartialEq, Eq)]
pub struct InitializePayload {
    /// Verification key of the first guardian set.
    pub initial_guardian: RawKey,
    /// Parameters of the bridge.
    pub config: BridgeConfig,
}

/// Arguments of `TransferOut`.
#[derive(Clone, Copy, Debug, PartialEq, Eq)]
pub struct TransferOutPayload {
    /// Amount to transfer.
    pub amount: u64,
    /// Chain to transfer to.
    pub chain_id: u8,
    /// Address on the foreign chain to transfer to.
    pub target: ForeignAddress,
    /// The asset to transfer.
    pub asset: AssetMeta,
}

/// One instruction of the bridge.
#[derive(Clone, Copy, Debug, PartialEq, Eq)]
pub enum BridgeInstruction {
    /// Creates the bridge and its first guardian set.
    Initialize(InitializePayload),
    /// Sends tokens to a foreign chain.
    TransferOut(TransferOutPayload),
    /// Submits a message signed by the guardians: its length, then its bytes.
    PostVAA(VaaBody),
}

/// The instruction that `input` encodes.
pub open spec fn deserialize_spec(input: Seq<u8>) -> Result<BridgeInstruction, Error> {
    if input.len() == 0 {
        Err(Error::ParseFailed)
    } else if input[0] == TAG_INITIALIZE && input.len() == INITIALIZE_LEN {
        Ok(
            BridgeInstruction::Initialize(
                InitializePayload {
                    initial_guardian: RawKey {
                        x: array_of::<32>(input.subrange(1, 33)),
                        y_parity: flag_at(input, 33),
                    },
                    config: BridgeConfig {
                        vaa_expiration_time: u32_at(input, 34),
                        token_program: Pubkey { bytes: array_of::<32>(input.subrange(38, 70)) },
                    },
                },
            ),
        )
    } else if input[0] == TAG_TRANSFER_OUT && input.len() == TRANSFER_OUT_LEN {
        Ok(
            BridgeInstruction::TransferOut(
                TransferOutPayload {
                    amount: u64_at(input, 1),
                    chain_id: input[9],
                    asset: AssetMeta {
                        address: array_of::<32>(input.subrange(43, 75)),
                        chain: input[42],
                    },
                    target: array_of::<32>(input.subrange(10, 42)),
                },
            ),
        )
    } else if input[0] == TAG_POST_VAA && input.len() == POST_VAA_LEN {
        Ok(BridgeInstruction::PostVAA(array_of::<200>(input.subrange(1, 201))))
    } else {
        Err(Error::ParseFailed)
    }
}

/// The bytes that encode an instruction.
pub open spec fn serialize_spec(instruction: BridgeInstruction) -> Seq<u8> {
    match instruction {
        BridgeInstruction::Initialize(p) => seq![TAG_INITIALIZE] + p.initial_guardian.x@
            + seq![flag_byte(p.initial_guardian.y_parity)] + u32_le(
            p.config.vaa_expiration_time,
        ) + p.config.token_program.bytes@,
        BridgeInstruction::TransferOut(t) => seq![TAG_TRANSFER_OUT] + u64_le(
            t.amount,
        ) + seq![t.chain_id] + t.target@ + seq![t.asset.chain] + t.asset.address@,
        BridgeInstruction::PostVAA(body) => seq![TAG_POST_VAA] + body@,
    }
}

/// What was encoded is decoded unchanged.
pub proof fn lemma_instruction_round_trip(instruction: BridgeInstruction)
    ensures
        deserialize_spec(serialize_spec(instruction)) == Ok::<BridgeInstruction, Error>(
            instruction,
        ),
{
    let e: Seq<u8> = serialize_spec(instruction);
    let end: Seq<u8> = Seq::empty();
    match instruction {
        BridgeInstruction::Initialize(p) => {
            let f0: Seq<u8> = seq![TAG_INITIALIZE];
            let f1: Seq<u8> = p.initial_guardian.x@;
            let f2: Seq<u8> = seq![flag_byte(p.initial_guardian.y_parity)];
            let f3: Seq<u8> = u32_le(p.config.vaa_expiration_time);
            let f4: Seq<u8> = p.config.token_program.bytes@;
            lemma_array_at::<32>(f0, p.initial_guardian.x, f2 + f3 + f4);
            assert(e =~= f0 + f1 + (f2 + f3 + f4));
            lemma_flag_at(f0 + f1, p.initial_guardian.y_parity, f3 + f4);
            assert(e =~= f0 + f1 + f2 + (f3 + f4));
            lemma_u32_at(f0 + f1 + f2, p.config.vaa_expiration_time, f4);
            lemma_array_at::<32>(f0 + f1 + f2 + f3, p.config.token_program.bytes, end);
            assert(e =~= f0 + f1 + f2 + f3 + f4 + end);
            assert(e[0] == TAG_INITIALIZE);
        },
        BridgeInstruction::TransferOut(t) => {
            let f0: Seq<u8> = seq![TAG_TRANSFER_OUT];
            let f1: Seq<u8> = u64_le(t.amount);
            let f2: Seq<u8> = seq![t.chain_id];
            let f3: Seq<u8> = t.target@;
            let f4: Seq<u8> = seq![t.asset.chain];
            let f5: Seq<u8> = t.asset.address@;
            lemma_u64_at(f0, t.amount, f2 + f3 + f4 + f5);
            assert(e =~= f0 + f1 + (f2 + f3 + f4 + f5));
            lemma_array_at::<32>(f0 + f1 + f2, t.target, f4 + f5);
            assert(e =~= f0 + f1 + f2 + f3 + (f4 + f5));
            lemma_array_at::<32>(f0 + f1 + f2 + f3 + f4, t.asset.address, end);
            assert(e =~= f0 + f1 + f2 + f3 + f4 + f5 + end);
            assert(e[0] == TAG_TRANSFER_OUT);
            assert(e[9] == t.chain_id);
            assert(e[42] == t.asset.chain);
        },
        BridgeInstruction::PostVAA(body) => {
            lemma_array_at::<200>(seq![TAG_POST_VAA], body, end);
            assert(e =~= seq![TAG_POST_VAA] + body@ + end);
            assert(e[0] == TAG_POST_VAA);
        },
    }
}

impl BridgeInstruction {
    /// Encodes an instruction.
    pub fn serialize(&self) -> (r: Vec<u8>)
        ensures
            r@ == serialize_spec(*self),
    {
        let mut out: Vec<u8> = Vec::new();
        match self {
            BridgeInstruction::Initialize(p) => {
                push_u8(&mut out, TAG_INITIALIZE);
                push_bytes(&mut out, p.initial_guardian.x.as_slice());
                push_flag(&mut out, p.initial_guardian.y_parity);
                push_u32(&mut out, p.config.vaa_expiration_time);
                push_bytes(&mut out, p.config.token_program.bytes.as_slice());
            },
            BridgeInstruction::TransferOut(t) => {
                push_u8(&mut out, TAG_TRANSFER_OUT);
                push_u64(&mut out, t.amount);
                push_u8(&mut out, t.chain_id);
                push_bytes(&mut out, t.target.as_slice());
                push_u8(&mut out, t.asset.chain);
                push_bytes(&mut out, t.asset.address.as_slice());
            },
            BridgeInstruction::PostVAA(body) => {
                push_u8(&mut out, TAG_POST_VAA);
                push_bytes(&mut out, body.as_slice());
            },
        }
        assert(out@ =~= serialize_spec(*self));
        out
    }

    /// Decodes an instruction.
    pub fn deserialize(input: &[u8]) -> (r: Result<BridgeInstruction, Error>)
        ensures
            r == deserialize_spec(input@),
    {
        if input.len() == 0 {
            return Err(Error::ParseFailed);
        }
        let tag: u8 = input[0];
        if tag == TAG_INITIALIZE && input.len() == INITIALIZE_LEN {
            Ok(
                BridgeInstruction::Initialize(
                    InitializePayload {
                        initial_guardian: RawKey {
                            x: read_key::<32>(input, 1),
                            y_parity: read_flag(input, 33),
                        },
                        config: BridgeConfig {
                            vaa_expiration_time: read_u32(input, 34),
                            token_program: Pubkey { bytes: read_key::<32>(input, 38) },
                        },
                    },
                ),
            )
        } else if tag == TAG_TRANSFER_OUT && input.len() == TRANSFER_OUT_LEN {
            Ok(
                BridgeInstruction::TransferOut(
                    TransferOutPayload {
                        amount: read_u64(input, 1),
                        chain_id: input[9],
                        asset: AssetMeta { address: read_key::<32>(input, 43), chain: input[42] },
                        target: read_key::<32>(input, 10),
                    },
                ),
            )
        } else if tag == TAG_POST_VAA && input.len() == POST_VAA_LEN {
            Ok(BridgeInstruction::PostVAA(read_key::<200>(input, 1)))
        } else {
            Err(Error::ParseFailed)
        }
    }
}

} // verus!

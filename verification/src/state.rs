//! The bridge's storage records and their fixed layouts.
//!
//! A record lives in an account's data. Its layout is the fields in the order
//! of declaration, without padding: integers little-endian, keys as their
//! bytes, flags as one byte.

use crate::codec::{
    array_of, flag_at, flag_byte, lemma_array_at, lemma_flag_at, lemma_u32_at, lemma_u64_at,
    push_bytes, push_flag, push_u32, push_u64, push_u8, read_flag, read_key, read_u32, read_u64,
    u32_at, u32_le, u64_at, u64_le,
};
use crate::error::Error;
use crate::keys::{all_zero, ForeignAddress, Pubkey, RawKey};
use vstd::prelude::*;

verus! {

/// A signed message as a proposal stores it: its length, then its bytes.
pub type VaaBody = [u8; 200];

/// A record that knows whether it has been written.
pub trait IsInitialized {
    /// Whether the record's initialization flag is set.
    spec fn initialized(&self) -> bool;

    /// Whether the record's initialization flag is set.
    fn is_initialized(&self) -> (r: bool)
        ensures
            r == self.initialized(),
    ;
}

/// A record with a fixed layout.
pub trait Record: IsInitialized + Sized {
    /// The number of bytes of the layout.
    spec fn layout_len() -> nat;

    /// The record's bytes.
    spec fn encode(&self) -> Seq<u8>;

    /// The record that `bytes` hold, where they have the layout's length.
    spec fn decode(bytes: Seq<u8>) -> Self;

    /// The number of bytes of the layout.
    fn size() -> (r: usize)
        ensures
            r == Self::layout_len(),
    ;

    /// Writes the record out.
    fn pack(&self) -> (r: Vec<u8>)
        ensures
            r@ == self.encode(),
    ;

    /// Reads a record from a slot of exactly the layout's size.
    fn unpack_from_slice(input: &[u8]) -> (r: Self)
        requires
            input@.len() == Self::layout_len(),
        ensures
            r == Self::decode(input@),
    ;

    /// What was written is read back unchanged.
    proof fn lemma_round_trip(&self)
        ensures
            self.encode().len() == Self::layout_len(),
            Self::decode(self.encode()) == *self,
    ;
}

/// Fee rate as a ratio.
#[derive(Clone, Copy, Debug, PartialEq, Eq)]
pub struct Fee {
    /// Denominator of the fee ratio.
    pub denominator: u64,
    /// Numerator of the fee ratio.
    pub numerator: u64,
}

/// One generation of the trusted signer set.
#[derive(Clone, Copy, Debug, PartialEq, Eq)]
pub struct GuardianSet {
    /// Index of the set.
    pub index: u32,
    /// Verification key of the set.
    pub pubkey: RawKey,
    /// Time at which the set was created.
    pub creation_time: u32,
    /// Time up to which messages of this set are accepted; 0 while the set is
    /// not superseded.
    pub expiration_time: u32,
    /// Whether the record has been written.
    pub is_initialized: bool,
}

/// Record of a message that has been applied.
#[derive(Clone, Copy, Debug, PartialEq, Eq)]
pub struct ClaimedVAA {
    /// Hash of the message.
    pub hash: [u8; 32],
    /// Time at which the message was applied.
    pub vaa_time: u32,
    /// Whether the record has been written.
    pub is_initialized: bool,
}

/// Identity of an asset across chains.
#[derive(Clone, Copy, Debug, PartialEq, Eq)]
pub struct AssetMeta {
    /// Chain of the token.
    pub chain: u8,
    /// Address of the token on its chain.
    pub address: ForeignAddress,
}

/// Parameters of a bridge, set once.
#[derive(Clone, Copy, Debug, PartialEq, Eq)]
pub struct BridgeConfig {
    /// For how long a superseded guardian set's messages stay valid.
    pub vaa_expiration_time: u32,
    /// Token program that this bridge uses.
    pub token_program: Pubkey,
}

/// The bridge itself.
#[derive(Clone, Copy, Debug, PartialEq, Eq)]
pub struct Bridge {
    /// Index of the active guardian set.
    pub guardian_set_index: u32,
    /// Parameters of this bridge.
    pub config: BridgeConfig,
    /// Whether the record has been written.
    pub is_initialized: bool,
}

/// A transfer to a foreign chain that awaits the guardians' attestation.
#[derive(Clone, Copy, Debug, PartialEq, Eq)]
pub struct TransferOutProposal {
    /// Amount to transfer.
    pub amount: u64,
    /// Chain to transfer to.
    pub to_chain_id: u8,
    /// Address on the foreign chain to transfer to.
    pub foreign_address: ForeignAddress,
    /// Asset that is transferred.
    pub asset: AssetMeta,
    /// Message that unlocks the tokens on the foreign chain.
    pub vaa: VaaBody,
    /// Time at which that message was submitted.
    pub vaa_time: u32,
    /// Whether the record has been written.
    pub is_initialized: bool,
}

impl Default for ClaimedVAA {
    /// The claim record that is not written: no hash, no time, flag unset.
    fn default() -> (r: ClaimedVAA)
        ensures
            all_zero(r.hash),
            r.vaa_time == 0,
            !r.is_initialized,
    {
        ClaimedVAA { hash: [0u8; 32], vaa_time: 0, is_initialized: false }
    }
}

impl Default for AssetMeta {
    /// Chain 0 and the address of 32 zero bytes.
    fn default() -> (r: AssetMeta)
        ensures
            r.chain == 0,
            all_zero(r.address),
    {
        AssetMeta { chain: 0, address: [0u8; 32] }
    }
}

impl Default for BridgeConfig {
    /// No window and the token program of 32 zero bytes.
    fn default() -> (r: BridgeConfig)
        ensures
            r.vaa_expiration_time == 0,
            all_zero(r.token_program.bytes),
    {
        BridgeConfig { vaa_expiration_time: 0, token_program: Pubkey { bytes: [0u8; 32] } }
    }
}

impl IsInitialized for GuardianSet {
    open spec fn initialized(&self) -> bool {
        self.is_initialized
    }

    fn is_initialized(&self) -> (r: bool) {
        self.is_initialized
    }
}

impl IsInitialized for TransferOutProposal {
    open spec fn initialized(&self) -> bool {
        self.is_initialized
    }

    fn is_initialized(&self) -> (r: bool) {
        self.is_initialized
    }
}

impl IsInitialized for ClaimedVAA {
    open spec fn initialized(&self) -> bool {
        self.is_initialized
    }

    fn is_initialized(&self) -> (r: bool) {
        self.is_initialized
    }
}

impl IsInitialized for Bridge {
    open spec fn initialized(&self) -> bool {
        self.is_initialized
    }

    fn is_initialized(&self) -> (r: bool) {
        self.is_initialized
    }
}

impl Record for GuardianSet {
    open spec fn layout_len() -> nat {
        46
    }

    open spec fn encode(&self) -> Seq<u8> {
        u32_le(self.index) + self.pubkey.x@ + seq![flag_byte(self.pubkey.y_parity)]
            + u32_le(self.creation_time) + u32_le(
            self.expiration_time,
        ) + seq![flag_byte(self.is_initialized)]
    }

    open spec fn decode(bytes: Seq<u8>) -> Self {
        GuardianSet {
            index: u32_at(bytes, 0),
            pubkey: RawKey { x: array_of::<32>(bytes.subrange(4, 36)), y_parity: flag_at(bytes, 36) },
            creation_time: u32_at(bytes, 37),
            expiration_time: u32_at(bytes, 41),
            is_initialized: flag_at(bytes, 45),
        }
    }

    fn size() -> (r: usize) {
        46
    }

    fn pack(&self) -> (r: Vec<u8>) {
        let mut out: Vec<u8> = Vec::new();
        push_u32(&mut out, self.index);
        push_bytes(&mut out, self.pubkey.x.as_slice());
        push_flag(&mut out, self.pubkey.y_parity);
        push_u32(&mut out, self.creation_time);
        push_u32(&mut out, self.expiration_time);
        push_flag(&mut out, self.is_initialized);
        assert(out@ =~= self.encode());
        out
    }

    fn unpack_from_slice(input: &[u8]) -> (r: Self) {
        GuardianSet {
            index: read_u32(input, 0),
            pubkey: RawKey { x: read_key::<32>(input, 4), y_parity: read_flag(input, 36) },
            creation_time: read_u32(input, 37),
            expiration_time: read_u32(input, 41),
            is_initialized: read_flag(input, 45),
        }
    }

    proof fn lemma_round_trip(&self) {
        let e: Seq<u8> = self.encode();
        let p0: Seq<u8> = Seq::empty();
        let f0: Seq<u8> = u32_le(self.index);
        let f1: Seq<u8> = self.pubkey.x@;
        let f2: Seq<u8> = seq![flag_byte(self.pubkey.y_parity)];
        let f3: Seq<u8> = u32_le(self.creation_time);
        let f4: Seq<u8> = u32_le(self.expiration_time);
        let f5: Seq<u8> = seq![flag_byte(self.is_initialized)];
        lemma_u32_at(p0, self.index, f1 + f2 + f3 + f4 + f5);
        assert(e =~= p0 + f0 + (f1 + f2 + f3 + f4 + f5));
        lemma_array_at::<32>(f0, self.pubkey.x, f2 + f3 + f4 + f5);
        assert(e =~= f0 + f1 + (f2 + f3 + f4 + f5));
        lemma_flag_at(f0 + f1, self.pubkey.y_parity, f3 + f4 + f5);
        assert(e =~= f0 + f1 + f2 + (f3 + f4 + f5));
        lemma_u32_at(f0 + f1 + f2, self.creation_time, f4 + f5);
        assert(e =~= f0 + f1 + f2 + f3 + (f4 + f5));
        lemma_u32_at(f0 + f1 + f2 + f3, self.expiration_time, f5);
        lemma_flag_at(f0 + f1 + f2 + f3 + f4, self.is_initialized, Seq::empty());
        assert(e =~= f0 + f1 + f2 + f3 + f4 + f5 + Seq::<u8>::empty());
    }
}

impl Record for ClaimedVAA {
    open spec fn layout_len() -> nat {
        37
    }

    open spec fn encode(&self) -> Seq<u8> {
        self.hash@ + u32_le(self.vaa_time) + seq![flag_byte(self.is_initialized)]
    }

    open spec fn decode(bytes: Seq<u8>) -> Self {
        ClaimedVAA {
            hash: array_of::<32>(bytes.subrange(0, 32)),
            vaa_time: u32_at(bytes, 32),
            is_initialized: flag_at(bytes, 36),
        }
    }

    fn size() -> (r: usize) {
        37
    }

    fn pack(&self) -> (r: Vec<u8>) {
        let mut out: Vec<u8> = Vec::new();
        push_bytes(&mut out, self.hash.as_slice());
        push_u32(&mut out, self.vaa_time);
        push_flag(&mut out, self.is_initialized);
        assert(out@ =~= self.encode());
        out
    }

    fn unpack_from_slice(input: &[u8]) -> (r: Self) {
        ClaimedVAA {
            hash: read_key::<32>(input, 0),
            vaa_time: read_u32(input, 32),
            is_initialized: read_flag(input, 36),
        }
    }

    proof fn lemma_round_trip(&self) {
        let e: Seq<u8> = self.encode();
        let p0: Seq<u8> = Seq::empty();
        let f0: Seq<u8> = self.hash@;
        let f1: Seq<u8> = u32_le(self.vaa_time);
        let f2: Seq<u8> = seq![flag_byte(self.is_initialized)];
        lemma_array_at::<32>(p0, self.hash, f1 + f2);
        assert(e =~= p0 + f0 + (f1 + f2));
        lemma_u32_at(f0, self.vaa_time, f2);
        lemma_flag_at(f0 + f1, self.is_initialized, p0);
        assert(e =~= f0 + f1 + f2 + p0);
    }
}

impl Record for Bridge {
    open spec fn layout_len() -> nat {
        41
    }

    open spec fn encode(&self) -> Seq<u8> {
        u32_le(self.guardian_set_index) + u32_le(
            self.config.vaa_expiration_time,
        ) + self.config.token_program.bytes@ + seq![flag_byte(self.is_initialized)]
    }

    open spec fn decode(bytes: Seq<u8>) -> Self {
        Bridge {
            guardian_set_index: u32_at(bytes, 0),
            config: BridgeConfig {
                vaa_expiration_time: u32_at(bytes, 4),
                token_program: Pubkey { bytes: array_of::<32>(bytes.subrange(8, 40)) },
            },
            is_initialized: flag_at(bytes, 40),
        }
    }

    fn size() -> (r: usize) {
        41
    }

    fn pack(&self) -> (r: Vec<u8>) {
        let mut out: Vec<u8> = Vec::new();
        push_u32(&mut out, self.guardian_set_index);
        push_u32(&mut out, self.config.vaa_expiration_time);
        push_bytes(&mut out, self.config.token_program.bytes.as_slice());
        push_flag(&mut out, self.is_initialized);
        assert(out@ =~= self.encode());
        out
    }

    fn unpack_from_slice(input: &[u8]) -> (r: Self) {
        Bridge {
            guardian_set_index: read_u32(input, 0),
            config: BridgeConfig {
                vaa_expiration_time: read_u32(input, 4),
                token_program: Pubkey { bytes: read_key::<32>(input, 8) },
            },
            is_initialized: read_flag(input, 40),
        }
    }

    proof fn lemma_round_trip(&self) {
        let e: Seq<u8> = self.encode();
        let p0: Seq<u8> = Seq::empty();
        let f0: Seq<u8> = u32_le(self.guardian_set_index);
        let f1: Seq<u8> = u32_le(self.config.vaa_expiration_time);
        let f2: Seq<u8> = self.config.token_program.bytes@;
        let f3: Seq<u8> = seq![flag_byte(self.is_initialized)];
        lemma_u32_at(p0, self.guardian_set_index, f1 + f2 + f3);
        assert(e =~= p0 + f0 + (f1 + f2 + f3));
        lemma_u32_at(f0, self.config.vaa_expiration_time, f2 + f3);
        assert(e =~= f0 + f1 + (f2 + f3));
        lemma_array_at::<32>(f0 + f1, self.config.token_program.bytes, f3);
        lemma_flag_at(f0 + f1 + f2, self.is_initialized, p0);
        assert(e =~= f0 + f1 + f2 + f3 + p0);
    }
}

impl Record for TransferOutProposal {
    open spec fn layout_len() -> nat {
        279
    }

    open spec fn encode(&self) -> Seq<u8> {
        u64_le(self.amount) + seq![self.to_chain_id] + self.foreign_address@
            + seq![self.asset.chain] + self.asset.address@ + self.vaa@ + u32_le(
            self.vaa_time,
        ) + seq![flag_byte(self.is_initialized)]
    }

    open spec fn decode(bytes: Seq<u8>) -> Self {
        TransferOutProposal {
            amount: u64_at(bytes, 0),
            to_chain_id: bytes[8],
            foreign_address: array_of::<32>(bytes.subrange(9, 41)),
            asset: AssetMeta { address: array_of::<32>(bytes.subrange(42, 74)), chain: bytes[41] },
            vaa: array_of::<200>(bytes.subrange(74, 274)),
            vaa_time: u32_at(bytes, 274),
            is_initialized: flag_at(bytes, 278),
        }
    }

    fn size() -> (r: usize) {
        279
    }

    fn pack(&self) -> (r: Vec<u8>) {
        let mut out: Vec<u8> = Vec::new();
        push_u64(&mut out, self.amount);
        push_u8(&mut out, self.to_chain_id);
        push_bytes(&mut out, self.foreign_address.as_slice());
        push_u8(&mut out, self.asset.chain);
        push_bytes(&mut out, self.asset.address.as_slice());
        push_bytes(&mut out, self.vaa.as_slice());
        push_u32(&mut out, self.vaa_time);
        push_flag(&mut out, self.is_initialized);
        assert(out@ =~= self.encode());
        out
    }

    fn unpack_from_slice(input: &[u8]) -> (r: Self) {
        TransferOutProposal {
            amount: read_u64(input, 0),
            to_chain_id: input[8],
            foreign_address: read_key::<32>(input, 9),
            asset: AssetMeta { address: read_key::<32>(input, 42), chain: input[41] },
            vaa: read_key::<200>(input, 74),
            vaa_time: read_u32(input, 274),
            is_initialized: read_flag(input, 278),
        }
    }

    proof fn lemma_round_trip(&self) {
        let e: Seq<u8> = self.encode();
        let p0: Seq<u8> = Seq::empty();
        let f0: Seq<u8> = u64_le(self.amount);
        let f1: Seq<u8> = seq![self.to_chain_id];
        let f2: Seq<u8> = self.foreign_address@;
        let f3: Seq<u8> = seq![self.asset.chain];
        let f4: Seq<u8> = self.asset.address@;
        let f5: Seq<u8> = self.vaa@;
        let f6: Seq<u8> = u32_le(self.vaa_time);
        let f7: Seq<u8> = seq![flag_byte(self.is_initialized)];
        lemma_u64_at(p0, self.amount, f1 + f2 + f3 + f4 + f5 + f6 + f7);
        assert(e =~= p0 + f0 + (f1 + f2 + f3 + f4 + f5 + f6 + f7));
        lemma_array_at::<32>(f0 + f1, self.foreign_address, f3 + f4 + f5 + f6 + f7);
        assert(e =~= f0 + f1 + f2 + (f3 + f4 + f5 + f6 + f7));
        lemma_array_at::<32>(f0 + f1 + f2 + f3, self.asset.address, f5 + f6 + f7);
        assert(e =~= f0 + f1 + f2 + f3 + f4 + (f5 + f6 + f7));
        lemma_array_at::<200>(f0 + f1 + f2 + f3 + f4, self.vaa, f6 + f7);
        assert(e =~= f0 + f1 + f2 + f3 + f4 + f5 + (f6 + f7));
        lemma_u32_at(f0 + f1 + f2 + f3 + f4 + f5, self.vaa_time, f7);
        lemma_flag_at(f0 + f1 + f2 + f3 + f4 + f5 + f6, self.is_initialized, p0);
        assert(e =~= f0 + f1 + f2 + f3 + f4 + f5 + f6 + f7 + p0);
        assert(e[8] == self.to_chain_id);
        assert(e[41] == self.asset.chain);
    }
}

/// The record in a storage slot, whether written or not.
pub open spec fn unpack_unchecked_spec<T: Record>(input: Seq<u8>) -> Result<T, Error> {
    if input.len() != T::layout_len() {
        Err(Error::InvalidAccountData)
    } else {
        Ok(T::decode(input))
    }
}

/// The written record in a storage slot.
pub open spec fn unpack_spec<T: Record>(input: Seq<u8>) -> Result<T, Error> {
    match unpack_unchecked_spec::<T>(input) {
        Ok(t) => if t.initialized() {
            Ok(t)
        } else {
            Err(Error::UninitializedState)
        },
        Err(e) => Err(e),
    }
}

impl Bridge {
    /// Reads the record in a storage slot and requires that it has been
    /// written.
    pub fn unpack<T: Record>(input: &[u8]) -> (r: Result<T, Error>)
        ensures
            r == unpack_spec::<T>(input@),
    {
        match Self::unpack_unchecked::<T>(input) {
            Ok(t) => {
                if !t.is_initialized() {
                    return Err(Error::UninitializedState);
                }
                Ok(t)
            },
            Err(e) => Err(e),
        }
    }

    /// Reads the record in a storage slot, written or not. The slot must have
    /// exactly the size of the record's layout.
    pub fn unpack_unchecked<T: Record>(input: &[u8]) -> (r: Result<T, Error>)
        ensures
            r == unpack_unchecked_spec::<T>(input@),
    {
        if input.len() != T::size() {
            return Err(Error::InvalidAccountData);
        }
        Ok(T::unpack_from_slice(input))
    }
}

} // verus!

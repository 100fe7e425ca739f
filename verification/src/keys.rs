//! Fixed-size keys and the byte-level helpers to compare and copy them.

use vstd::prelude::*;

verus! {

/// Identifier of the local chain in asset metadata.
pub const CHAIN_ID_SOLANA: u8 = 1;

/// Address on a foreign chain.
pub type ForeignAddress = [u8; 32];

/// Address of an account or a program.
#[derive(Clone, Copy, Debug, PartialEq, Eq, Hash)]
pub struct Pubkey {
    pub bytes: [u8; 32],
}

impl View for Pubkey {
    type V = Seq<u8>;

    open spec fn view(&self) -> Seq<u8> {
        self.bytes@
    }
}

/// Verification key of a guardian set's threshold signature scheme.
#[derive(Clone, Copy, Debug, PartialEq, Eq)]
pub struct RawKey {
    pub x: [u8; 32],
    pub y_parity: bool,
}

/// Threshold signature over a message's payload digest.
#[derive(Clone, Copy, Debug, PartialEq, Eq)]
pub struct Signature {
    pub bytes: [u8; 64],
}

/// Wall-clock time and slot counter, as the host reports them.
#[derive(Clone, Copy, Debug, PartialEq, Eq)]
pub struct Clock {
    pub slot: u64,
    pub unix_timestamp: i64,
}

/// Two keys with the same bytes are the same key.
pub proof fn lemma_pubkey_eq(a: Pubkey, b: Pubkey)
    ensures
        (a@ == b@) == (a == b),
{
    if a@ == b@ {
        assert(a.bytes =~= b.bytes);
    }
}

/// Whether two 32-byte values hold the same bytes.
pub fn bytes32_eq(a: &[u8; 32], b: &[u8; 32]) -> (r: bool)
    ensures
        r == (a@ == b@),
        r == (*a == *b),
{
    let mut i: usize = 0;
    while i < 32
        invariant
            i <= 32,
            forall|j: int| 0 <= j < i ==> a@[j] == b@[j],
        decreases 32 - i,
    {
        if a[i] != b[i] {
            return false;
        }
        i = i + 1;
    }
    assert(a@ =~= b@);
    assert(*a =~= *b);
    true
}

/// Whether every byte is zero.
pub open spec fn all_zero<const N: usize>(bytes: [u8; N]) -> bool {
    forall|i: int| 0 <= i < N ==> bytes@[i] == 0
}

impl Default for Pubkey {
    /// The address of 32 zero bytes.
    fn default() -> (r: Pubkey)
        ensures
            all_zero(r.bytes),
    {
        Pubkey { bytes: [0u8; 32] }
    }
}

impl Pubkey {
    /// Whether `self` and `other` are the same address.
    pub fn equals(&self, other: &Pubkey) -> (r: bool)
        ensures
            r == (*self == *other),
            r == (self@ == other@),
    {
        proof {
            lemma_pubkey_eq(*self, *other);
        }
        bytes32_eq(&self.bytes, &other.bytes)
    }

    /// The key's 32 bytes.
    pub fn to_bytes(&self) -> (r: [u8; 32])
        ensures
            r == self.bytes,
    {
        self.bytes
    }
}

impl Clock {
    /// The current time in seconds, where a record's 32-bit time field can
    /// hold it.
    pub fn now(&self) -> (r: Result<u32, crate::error::Error>)
        ensures
            r == clock_time(*self),
    {
        if self.unix_timestamp < 0 || self.unix_timestamp > 0xffff_ffff {
            Err(crate::error::Error::TimeOutOfRange)
        } else {
            Ok(self.unix_timestamp as u32)
        }
    }
}

/// The clock's time as a record stores it.
pub open spec fn clock_time(clock: Clock) -> Result<u32, crate::error::Error> {
    if 0 <= clock.unix_timestamp <= u32::MAX {
        Ok(clock.unix_timestamp as u32)
    } else {
        Err(crate::error::Error::TimeOutOfRange)
    }
}

} // verus!

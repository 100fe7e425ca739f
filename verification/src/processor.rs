//! The instructions of the bridge, applied to the accounts of an invocation.
//!
//! Each instruction first gathers what the address derivation and the token
//! ledger say of its accounts, then decides on those facts alone, and writes
//! only once every check has passed: when an error is returned, no account has
//! changed.

use crate::account::{
    accounts_view, invocations_view, Account, AccountView, Invocation, InvocationView,
};
use crate::address::{bridge_seeds, derive_spec, guardian_set_seeds};
use crate::error::Error;
use crate::guardian::genesis;
use crate::hash::{keccak256, message_hash};
use crate::inbound::{signing_key, vaa_checked, vaa_outcome};
use crate::instruction::BridgeInstruction;
use crate::keys::{clock_time, Clock, Pubkey, RawKey, Signature, CHAIN_ID_SOLANA};
use crate::outbound::{transfer_native_out_outcome, transfer_out_outcome};
use crate::state::{
    unpack_spec, unpack_unchecked_spec, Bridge, BridgeConfig, GuardianSet, Record, VaaBody,
};
use crate::vaa::VAA;
use vstd::prelude::*;
use vstd::slice::slice_subrange;

verus! {

/// What an instruction leaves behind: the accounts as they are afterwards and
/// the calls that the host is to perform, in their order.
pub struct Outcome {
    pub accounts: Seq<AccountView>,
    pub calls: Seq<InvocationView>,
}

/// The outcome that a result and the accounts after it stand for.
pub open spec fn outcome_of(r: Result<Vec<Invocation>, Error>, accounts: Vec<Account>) -> Result<
    Outcome,
    Error,
> {
    match r {
        Ok(calls) => Ok(
            Outcome { accounts: accounts_view(accounts@), calls: invocations_view(calls@) },
        ),
        Err(e) => Err(e),
    }
}

/// The accounts with the data of one of them replaced.
pub open spec fn with_data(accounts: Seq<AccountView>, at: int, data: Seq<u8>) -> Seq<
    AccountView,
> {
    accounts.update(at, AccountView { data, ..accounts[at] })
}

/// Writes a record into an account.
pub fn store<T: Record>(accounts: &mut Vec<Account>, at: usize, record: &T)
    requires
        at < old(accounts)@.len(),
    ensures
        final(accounts)@.len() == old(accounts)@.len(),
        accounts_view(final(accounts)@) == with_data(
            accounts_view(old(accounts)@),
            at as int,
            record.encode(),
        ),
{
    accounts[at].data = record.pack();
    assert(accounts_view(accounts@) =~= with_data(
        accounts_view(old(accounts)@),
        at as int,
        record.encode(),
    ));
}

/// What the address derivation says of the accounts of `Initialize`.
#[derive(Clone, Copy, Debug, PartialEq, Eq)]
pub struct InitializeFacts {
    /// The address derived for the bridge.
    pub bridge_key: Result<Pubkey, Error>,
    /// The address derived for the first guardian set.
    pub guardian_set_key: Result<Pubkey, Error>,
}

/// The records that `Initialize` creates in accounts 0 (the bridge) and 1 (the
/// first guardian set), given the derived addresses.
pub open spec fn initialize_spec(
    accounts: Seq<AccountView>,
    key: RawKey,
    config: BridgeConfig,
    clock: Clock,
    facts: InitializeFacts,
) -> Result<(Bridge, GuardianSet), Error> {
    if accounts.len() < 2 {
        Err(Error::NotEnoughAccountKeys)
    } else if clock_time(clock) is Err {
        Err(Error::TimeOutOfRange)
    } else if unpack_unchecked_spec::<Bridge>(accounts[0].data) is Err {
        Err(Error::InvalidAccountData)
    } else if unpack_unchecked_spec::<Bridge>(accounts[0].data)->Ok_0.is_initialized {
        Err(Error::AlreadyExists)
    } else if facts.bridge_key is Err {
        Err(facts.bridge_key->Err_0)
    } else if facts.bridge_key->Ok_0 != accounts[0].key {
        Err(Error::InvalidDerivedAccount)
    } else if facts.guardian_set_key is Err {
        Err(facts.guardian_set_key->Err_0)
    } else if facts.guardian_set_key->Ok_0 != accounts[1].key {
        Err(Error::InvalidDerivedAccount)
    } else if unpack_unchecked_spec::<GuardianSet>(accounts[1].data) is Err {
        Err(Error::InvalidAccountData)
    } else if unpack_unchecked_spec::<GuardianSet>(accounts[1].data)->Ok_0.is_initialized {
        Err(Error::AlreadyExists)
    } else {
        Ok(genesis(key, config, clock_time(clock)->Ok_0))
    }
}

/// What the address derivation says of the accounts of `Initialize`.
pub open spec fn initialize_facts(program_id: Pubkey, accounts: Seq<AccountView>) -> InitializeFacts {
    InitializeFacts {
        bridge_key: derive_spec(bridge_seeds(), program_id),
        guardian_set_key: derive_spec(guardian_set_seeds(accounts[0].key, 0), program_id),
    }
}

/// What `Initialize` leaves behind.
pub open spec fn initialize_outcome(
    program_id: Pubkey,
    accounts: Seq<AccountView>,
    key: RawKey,
    config: BridgeConfig,
    clock: Clock,
) -> Result<Outcome, Error> {
    match initialize_spec(accounts, key, config, clock, initialize_facts(program_id, accounts)) {
        Ok((bridge, set)) => Ok(
            Outcome {
                accounts: with_data(with_data(accounts, 0, bridge.encode()), 1, set.encode()),
                calls: Seq::empty(),
            },
        ),
        Err(e) => Err(e),
    }
}

/// The bridge record in `data`, or the error for bytes that hold none.
pub open spec fn bridge_deserialize_spec(data: Seq<u8>) -> Result<Bridge, Error> {
    match unpack_spec::<Bridge>(data) {
        Ok(b) => Ok(b),
        Err(_) => Err(Error::ExpectedBridge),
    }
}

/// The guardian set in `data`, or the error for bytes that hold none.
pub open spec fn guardian_set_deserialize_spec(data: Seq<u8>) -> Result<GuardianSet, Error> {
    match unpack_spec::<GuardianSet>(data) {
        Ok(g) => Ok(g),
        Err(_) => Err(Error::ExpectedGuardianSet),
    }
}

impl Bridge {
    /// Reads an initialized bridge record.
    pub fn bridge_deserialize(info: &Account) -> (r: Result<Bridge, Error>)
        ensures
            r == bridge_deserialize_spec(info@.data),
    {
        match Bridge::unpack::<Bridge>(info.data.as_slice()) {
            Ok(b) => Ok(b),
            Err(_) => Err(Error::ExpectedBridge),
        }
    }

    /// Reads an initialized guardian set.
    pub fn guardian_set_deserialize(info: &Account) -> (r: Result<GuardianSet, Error>)
        ensures
            r == guardian_set_deserialize_spec(info@.data),
    {
        match Bridge::unpack::<GuardianSet>(info.data.as_slice()) {
            Ok(g) => Ok(g),
            Err(_) => Err(Error::ExpectedGuardianSet),
        }
    }

    /// Decides `Initialize` on the derived addresses.
    pub fn initialize_with(
        accounts: &Vec<Account>,
        key: RawKey,
        config: BridgeConfig,
        clock: &Clock,
        facts: InitializeFacts,
    ) -> (r: Result<(Bridge, GuardianSet), Error>)
        ensures
            r == initialize_spec(accounts_view(accounts@), key, config, *clock, facts),
    {
        if accounts.len() < 2 {
            return Err(Error::NotEnoughAccountKeys);
        }
        let now: u32 = match clock.now() {
            Ok(t) => t,
            Err(e) => {
                return Err(e);
            },
        };
        let bridge: Bridge = match Bridge::unpack_unchecked::<Bridge>(accounts[0].data.as_slice()) {
            Ok(b) => b,
            Err(e) => {
                return Err(e);
            },
        };
        if bridge.is_initialized {
            return Err(Error::AlreadyExists);
        }
        let bridge_key: Pubkey = match facts.bridge_key {
            Ok(k) => k,
            Err(e) => {
                return Err(e);
            },
        };
        if !bridge_key.equals(&accounts[0].key) {
            return Err(Error::InvalidDerivedAccount);
        }
        let guardian_set_key: Pubkey = match facts.guardian_set_key {
            Ok(k) => k,
            Err(e) => {
                return Err(e);
            },
        };
        if !guardian_set_key.equals(&accounts[1].key) {
            return Err(Error::InvalidDerivedAccount);
        }
        let guardian_set: GuardianSet = match Bridge::unpack_unchecked::<GuardianSet>(
            accounts[1].data.as_slice(),
        ) {
            Ok(g) => g,
            Err(e) => {
                return Err(e);
            },
        };
        if guardian_set.is_initialized {
            return Err(Error::AlreadyExists);
        }
        Ok(Bridge::genesis(key, config, now))
    }

    /// Creates the bridge in account 0 and its first guardian set in account
    /// 1.
    pub fn process_initialize(
        program_id: &Pubkey,
        accounts: &mut Vec<Account>,
        initial_guardian_key: RawKey,
        config: BridgeConfig,
        clock: &Clock,
    ) -> (r: Result<Vec<Invocation>, Error>)
        ensures
            outcome_of(r, *final(accounts)) == initialize_outcome(
                *program_id,
                accounts_view(old(accounts)@),
                initial_guardian_key,
                config,
                *clock,
            ),
            r is Err ==> *final(accounts) == *old(accounts),
    {
        if accounts.len() < 2 {
            return Err(Error::NotEnoughAccountKeys);
        }
        let facts = InitializeFacts {
            bridge_key: Bridge::derive_bridge_id(program_id),
            guardian_set_key: Bridge::derive_guardian_set_id(program_id, &accounts[0].key, 0),
        };
        match Bridge::initialize_with(accounts, initial_guardian_key, config, clock, facts) {
            Ok((bridge, guardian_set)) => {
                store(accounts, 0, &bridge);
                store(accounts, 1, &guardian_set);
                let calls: Vec<Invocation> = Vec::new();
                assert(invocations_view(calls@) =~= Seq::<InvocationView>::empty());
                Ok(calls)
            },
            Err(e) => Err(e),
        }
    }
}

/// The message that a `PostVAA` instruction carries, and its hash. The body's
/// first byte is the message's length; the message is that many bytes of the
/// body, the length byte included.
pub open spec fn posted_vaa(body: VaaBody) -> Result<(VAA, [u8; 32]), Error> {
    let data = body@.subrange(0, body@[0] as int);
    if body@[0] > 200 {
        Err(Error::ParseFailed)
    } else {
        match crate::vaa::deserialize_spec(data) {
            Err(e) => Err(e),
            Ok(v) => Ok((v, message_hash(data))),
        }
    }
}

/// What an instruction leaves behind, where `accepted` is the signature
/// primitive's answer if it is asked.
pub open spec fn process_outcome(
    program_id: Pubkey,
    accounts: Seq<AccountView>,
    input: Seq<u8>,
    clock: Clock,
    accepted: bool,
) -> Result<Outcome, Error> {
    match crate::instruction::deserialize_spec(input) {
        Err(e) => Err(e),
        Ok(BridgeInstruction::Initialize(p)) => initialize_outcome(
            program_id,
            accounts,
            p.initial_guardian,
            p.config,
            clock,
        ),
        Ok(BridgeInstruction::TransferOut(p)) => if p.asset.chain == CHAIN_ID_SOLANA {
            transfer_native_out_outcome(program_id, accounts, p, clock)
        } else {
            transfer_out_outcome(program_id, accounts, p, clock)
        },
        Ok(BridgeInstruction::PostVAA(body)) => match posted_vaa(body) {
            Err(e) => Err(e),
            Ok((v, hash)) => vaa_outcome(program_id, accounts, v, hash, clock, accepted),
        },
    }
}

/// What the signature primitive is asked while an instruction is processed:
/// nothing, unless the instruction posts a message that passes every check
/// that comes before the signature's.
pub open spec fn process_asks(
    program_id: Pubkey,
    accounts: Seq<AccountView>,
    input: Seq<u8>,
    clock: Clock,
) -> Option<(RawKey, [u8; 32], Signature)> {
    match crate::instruction::deserialize_spec(input) {
        Ok(BridgeInstruction::PostVAA(body)) => match posted_vaa(body) {
            Ok((v, hash)) => if vaa_checked(program_id, accounts, v, hash, clock) is Ok {
                Some((signing_key(accounts), v.payload_digest, v.signature))
            } else {
                None
            },
            Err(_) => None,
        },
        _ => None,
    }
}

impl Bridge {
    /// Processes one instruction. `verify` is the signature primitive.
    pub fn process<F: Fn(RawKey, [u8; 32], Signature) -> bool>(
        program_id: &Pubkey,
        accounts: &mut Vec<Account>,
        input: &[u8],
        clock: &Clock,
        verify: F,
    ) -> (r: Result<Vec<Invocation>, Error>)
        requires
            forall|k: RawKey, d: [u8; 32], s: Signature| call_requires(verify, (k, d, s)),
        ensures
            process_asks(*program_id, accounts_view(old(accounts)@), input@, *clock) is None
                ==> outcome_of(r, *final(accounts)) == process_outcome(
                *program_id,
                accounts_view(old(accounts)@),
                input@,
                *clock,
                true,
            ),
            process_asks(*program_id, accounts_view(old(accounts)@), input@, *clock) is Some
                ==> exists|accepted: bool|
                #[trigger] call_ensures(
                    verify,
                    process_asks(
                        *program_id,
                        accounts_view(old(accounts)@),
                        input@,
                        *clock,
                    )->Some_0,
                    accepted,
                ) && outcome_of(r, *final(accounts)) == process_outcome(
                    *program_id,
                    accounts_view(old(accounts)@),
                    input@,
                    *clock,
                    accepted,
                ),
            r is Err ==> *final(accounts) == *old(accounts),
    {
        let instruction: BridgeInstruction = match BridgeInstruction::deserialize(input) {
            Ok(i) => i,
            Err(e) => {
                return Err(e);
            },
        };
        match instruction {
            BridgeInstruction::Initialize(payload) => Bridge::process_initialize(
                program_id,
                accounts,
                payload.initial_guardian,
                payload.config,
                clock,
            ),
            BridgeInstruction::TransferOut(p) => {
                if p.asset.chain == CHAIN_ID_SOLANA {
                    Bridge::process_transfer_native_out(program_id, accounts, &p, clock)
                } else {
                    Bridge::process_transfer_out(program_id, accounts, &p, clock)
                }
            },
            BridgeInstruction::PostVAA(vaa_body) => {
                let len: usize = vaa_body[0] as usize;
                if len > 200 {
                    return Err(Error::ParseFailed);
                }
                let vaa_data: &[u8] = slice_subrange(vaa_body.as_slice(), 0, len);
                let vaa: VAA = match VAA::deserialize(vaa_data) {
                    Ok(v) => v,
                    Err(e) => {
                        return Err(e);
                    },
                };
                let hash: [u8; 32] = keccak256(vaa_data);
                let ghost before = accounts_view(accounts@);
                let r = Bridge::process_vaa(program_id, accounts, &vaa, &hash, clock, verify);
                proof {
                    assert(posted_vaa(vaa_body) == Ok::<(VAA, [u8; 32]), Error>((vaa, hash)));
                    if process_asks(*program_id, before, input@, *clock) is Some {
                        let asked = (signing_key(before), vaa.payload_digest, vaa.signature);
                        let accepted = choose|accepted: bool|
                            #[trigger] call_ensures(verify, asked, accepted) && outcome_of(
                                r,
                                *accounts,
                            ) == vaa_outcome(*program_id, before, vaa, hash, *clock, accepted);
                        assert(call_ensures(
                            verify,
                            process_asks(*program_id, before, input@, *clock)->Some_0,
                            accepted,
                        ));
                    }
                }
                r
            },
        }
    }
}

} // verus!

//! Messages of the guardians, checked and applied.
//!
//! A message is applied in this order: the bridge, the guardian set and the
//! claim record are located at their derived addresses; the guardian set must
//! not have expired; the signature primitive must accept the signature; the
//! payload must be valid; the message must not have been claimed. Only then
//! are the payload's effects and the claim record written.

use crate::account::{
    accounts_view, invocations_view, Account, AccountView, Invocation, InvocationView,
};
use crate::address::{
    bridge_seeds, claim_seeds, custody_seeds, derive_spec, guardian_set_seeds,
    wrapped_asset_seeds,
};
use crate::error::Error;
use crate::guardian::{expiry_spec, rotate_spec, Rotation};
use crate::invoke::result_view;
use crate::keys::{bytes32_eq, clock_time, Clock, Pubkey, RawKey, Signature, CHAIN_ID_SOLANA};
use crate::outbound::{bridge_issued, is_bridge_issued};
use crate::processor::{
    bridge_deserialize_spec, guardian_set_deserialize_spec, outcome_of, store, with_data, Outcome,
};
use crate::state::{unpack_unchecked_spec, Bridge, ClaimedVAA, GuardianSet, Record};
use crate::token::{
    mint_deserialize_spec, token_account_deserialize_spec, token_transfer_custody_spec,
    wrapped_mint_to_spec, Mint, TokenAccount,
};
use crate::vaa::{BodyTransfer, BodyUpdateGuardianSet, VAABody, VAA};
use vstd::prelude::*;

verus! {

/// What the address derivation says of the accounts of a message.
#[derive(Clone, Copy, Debug, PartialEq, Eq)]
pub struct VaaFacts {
    /// The address derived for the bridge.
    pub bridge_key: Result<Pubkey, Error>,
    /// The address derived for the guardian set that signed.
    pub guardian_set_key: Result<Pubkey, Error>,
    /// The address derived for the message's claim record.
    pub claim_key: Result<Pubkey, Error>,
}

/// The records that a message is checked against, and the time.
#[derive(Clone, Copy, Debug, PartialEq, Eq)]
pub struct CheckedVaa {
    pub bridge: Bridge,
    pub guardian_set: GuardianSet,
    pub now: u32,
}

/// What the token ledger and the address derivation say of the accounts of an
/// inbound transfer.
#[derive(Clone, Copy, Debug, PartialEq, Eq)]
pub struct InboundFacts {
    /// The mint, read from account 3.
    pub mint: Result<Mint, Error>,
    /// The custody token account, read from account 4.
    pub custody: Result<TokenAccount, Error>,
    /// The recipient's token account, read from account 5.
    pub destination: Result<TokenAccount, Error>,
    /// The address derived for the mint's custody account.
    pub custody_key: Result<Pubkey, Error>,
    /// The address derived for the wrapped asset's mint.
    pub wrapped_mint_key: Result<Pubkey, Error>,
}

/// The checks on a message that come before its signature is verified. The
/// accounts are: 0 the bridge, 1 the guardian set that signed, 2 the claim
/// record.
pub open spec fn check_vaa_spec(
    accounts: Seq<AccountView>,
    v: VAA,
    clock: Clock,
    facts: VaaFacts,
) -> Result<CheckedVaa, Error> {
    let bridge = bridge_deserialize_spec(accounts[0].data);
    let now = clock_time(clock);
    let guardian_set = guardian_set_deserialize_spec(accounts[1].data);
    let expiry = expiry_spec(
        guardian_set->Ok_0,
        bridge->Ok_0.config.vaa_expiration_time,
        now->Ok_0,
    );
    if accounts.len() < 3 {
        Err(Error::NotEnoughAccountKeys)
    } else if facts.bridge_key is Err {
        Err(facts.bridge_key->Err_0)
    } else if facts.bridge_key->Ok_0 != accounts[0].key {
        Err(Error::InvalidDerivedAccount)
    } else if bridge is Err {
        Err(bridge->Err_0)
    } else if now is Err {
        Err(now->Err_0)
    } else if guardian_set is Err {
        Err(guardian_set->Err_0)
    } else if facts.guardian_set_key is Err {
        Err(facts.guardian_set_key->Err_0)
    } else if facts.guardian_set_key->Ok_0 != accounts[1].key {
        Err(Error::InvalidDerivedAccount)
    } else if facts.claim_key is Err {
        Err(facts.claim_key->Err_0)
    } else if facts.claim_key->Ok_0 != accounts[2].key {
        Err(Error::InvalidDerivedAccount)
    } else if expiry is Err {
        Err(expiry->Err_0)
    } else {
        Ok(CheckedVaa { bridge: bridge->Ok_0, guardian_set: guardian_set->Ok_0, now: now->Ok_0 })
    }
}

/// What the signature primitive's answer means for a message.
pub open spec fn signature_spec(accepted: bool) -> Result<(), Error> {
    if accepted {
        Ok(())
    } else {
        Err(Error::InvalidVAASignature)
    }
}

/// The claim record of a message with hash `hash` applied at `now`, where
/// `slot` is what the claim address stores.
pub open spec fn claim_spec(slot: Result<ClaimedVAA, Error>, hash: [u8; 32], now: u32) -> Result<
    ClaimedVAA,
    Error,
> {
    match slot {
        Err(e) => Err(e),
        Ok(s) => if s.is_initialized {
            Err(Error::VAAClaimed)
        } else {
            Ok(ClaimedVAA { hash, vaa_time: now, is_initialized: true })
        },
    }
}

/// The rotation that a guardian set update leads to. Account 3 is the new
/// guardian set.
pub open spec fn set_update_spec(
    program_id: Pubkey,
    accounts: Seq<AccountView>,
    now: u32,
    bridge: Bridge,
    old_guardian_set: GuardianSet,
    b: BodyUpdateGuardianSet,
) -> Result<Rotation, Error> {
    if accounts.len() < 4 {
        Err(Error::NotEnoughAccountKeys)
    } else {
        rotate_spec(
            bridge,
            old_guardian_set,
            b,
            now,
            derive_spec(guardian_set_seeds(accounts[0].key, b.new_index), program_id),
            accounts[3].key,
            unpack_unchecked_spec::<GuardianSet>(accounts[3].data),
        )
    }
}

/// The call that credits an inbound transfer, given what the token ledger and
/// the address derivation say and the call as it was built. The accounts are:
/// 3 the mint, 4 the custody account, 5 the recipient's token account. An
/// asset of the local chain is released from custody; any other is minted in
/// its wrapped form.
pub open spec fn vaa_transfer_spec(
    program_id: Pubkey,
    accounts: Seq<AccountView>,
    b: BodyTransfer,
    facts: InboundFacts,
    credit: Result<InvocationView, Error>,
) -> Result<InvocationView, Error> {
    let native = b.asset.chain == CHAIN_ID_SOLANA;
    if accounts.len() < 6 {
        Err(Error::NotEnoughAccountKeys)
    } else if b.chain_id != CHAIN_ID_SOLANA {
        Err(Error::InvalidVAAAction)
    } else if facts.destination is Err {
        Err(facts.destination->Err_0)
    } else if accounts[5].key.bytes != b.target_address {
        Err(Error::InvalidDerivedAccount)
    } else if facts.mint is Err {
        Err(facts.mint->Err_0)
    } else if facts.destination->Ok_0.mint != accounts[3].key {
        Err(Error::TokenMintMismatch)
    } else if native && accounts[3].key.bytes != b.asset.address {
        Err(Error::TokenMintMismatch)
    } else if native == bridge_issued(facts.mint->Ok_0, program_id) {
        Err(Error::WrongMintOwner)
    } else if native && facts.custody_key is Err {
        Err(facts.custody_key->Err_0)
    } else if native && facts.custody_key->Ok_0 != accounts[4].key {
        Err(Error::InvalidDerivedAccount)
    } else if native && facts.custody is Err {
        Err(facts.custody->Err_0)
    } else if native && facts.custody->Ok_0.owner != facts.custody_key->Ok_0 {
        Err(Error::WrongTokenAccountOwner)
    } else if !native && facts.wrapped_mint_key is Err {
        Err(facts.wrapped_mint_key->Err_0)
    } else if !native && facts.wrapped_mint_key->Ok_0 != accounts[3].key {
        Err(Error::InvalidDerivedAccount)
    } else {
        credit
    }
}

/// What the address derivation says of the accounts of a message.
pub open spec fn vaa_facts(
    program_id: Pubkey,
    accounts: Seq<AccountView>,
    v: VAA,
    hash: [u8; 32],
) -> VaaFacts {
    VaaFacts {
        bridge_key: derive_spec(bridge_seeds(), program_id),
        guardian_set_key: derive_spec(
            guardian_set_seeds(accounts[0].key, v.guardian_set_index),
            program_id,
        ),
        claim_key: derive_spec(claim_seeds(accounts[0].key, hash), program_id),
    }
}

/// What the token ledger and the address derivation say of the accounts of an
/// inbound transfer.
pub open spec fn inbound_facts(
    program_id: Pubkey,
    accounts: Seq<AccountView>,
    b: BodyTransfer,
) -> InboundFacts {
    InboundFacts {
        mint: mint_deserialize_spec(accounts[3].data),
        custody: token_account_deserialize_spec(accounts[4].data),
        destination: token_account_deserialize_spec(accounts[5].data),
        custody_key: derive_spec(custody_seeds(accounts[0].key, accounts[3].key), program_id),
        wrapped_mint_key: derive_spec(
            wrapped_asset_seeds(accounts[0].key, b.asset.chain, b.asset.address),
            program_id,
        ),
    }
}

/// The call that credits an inbound transfer: out of custody, signed for by
/// the custody address, or a mint of the wrapped asset, with the bridge
/// program as the authority.
pub open spec fn credit_spec(
    program_id: Pubkey,
    accounts: Seq<AccountView>,
    bridge: Bridge,
    b: BodyTransfer,
) -> Result<InvocationView, Error> {
    if b.asset.chain == CHAIN_ID_SOLANA {
        match derive_spec(custody_seeds(accounts[0].key, accounts[3].key), program_id) {
            Ok(custody) => token_transfer_custody_spec(
                program_id,
                accounts,
                bridge.config.token_program,
                accounts[0].key,
                accounts[3].key,
                custody,
                accounts[5].key,
                custody,
                b.amount,
            ),
            Err(e) => Err(e),
        }
    } else {
        wrapped_mint_to_spec(
            program_id,
            accounts,
            bridge.config.token_program,
            accounts[0].key,
            b.asset.chain,
            b.asset.address,
            accounts[3].key,
            accounts[5].key,
            program_id,
            b.amount,
        )
    }
}

/// The call that an inbound transfer leads to.
pub open spec fn vaa_transfer_outcome(
    program_id: Pubkey,
    accounts: Seq<AccountView>,
    bridge: Bridge,
    b: BodyTransfer,
) -> Result<InvocationView, Error> {
    vaa_transfer_spec(
        program_id,
        accounts,
        b,
        inbound_facts(program_id, accounts, b),
        credit_spec(program_id, accounts, bridge, b),
    )
}

/// The outcome of the checks on a message that come before its signature is
/// verified.
pub open spec fn vaa_checked(
    program_id: Pubkey,
    accounts: Seq<AccountView>,
    v: VAA,
    hash: [u8; 32],
    clock: Clock,
) -> Result<CheckedVaa, Error> {
    check_vaa_spec(accounts, v, clock, vaa_facts(program_id, accounts, v, hash))
}

/// The key that the signature primitive is asked about: that of the guardian
/// set in account 1.
pub open spec fn signing_key(accounts: Seq<AccountView>) -> RawKey {
    guardian_set_deserialize_spec(accounts[1].data)->Ok_0.pubkey
}

/// What a message leaves behind, where `accepted` is the signature
/// primitive's answer.
pub open spec fn vaa_outcome(
    program_id: Pubkey,
    accounts: Seq<AccountView>,
    v: VAA,
    hash: [u8; 32],
    clock: Clock,
    accepted: bool,
) -> Result<Outcome, Error> {
    match vaa_checked(program_id, accounts, v, hash, clock) {
        Err(e) => Err(e),
        Ok(checked) => {
            let claim = claim_spec(
                unpack_unchecked_spec::<ClaimedVAA>(accounts[2].data),
                hash,
                checked.now,
            );
            if !accepted {
                Err(Error::InvalidVAASignature)
            } else {
                match v.payload {
                    None => Err(Error::InvalidVAAAction),
                    Some(VAABody::UpdateGuardianSet(b)) => match (
                        set_update_spec(
                            program_id,
                            accounts,
                            checked.now,
                            checked.bridge,
                            checked.guardian_set,
                            b,
                        ),
                        claim,
                    ) {
                        (Err(e), _) => Err(e),
                        (_, Err(e)) => Err(e),
                        (Ok(rotation), Ok(record)) => Ok(
                            Outcome {
                                accounts: with_data(
                                    with_data(
                                        with_data(
                                            with_data(accounts, 0, rotation.bridge.encode()),
                                            1,
                                            rotation.old_set.encode(),
                                        ),
                                        3,
                                        rotation.new_set.encode(),
                                    ),
                                    2,
                                    record.encode(),
                                ),
                                calls: Seq::empty(),
                            },
                        ),
                    },
                    Some(VAABody::Transfer(b)) => match (
                        vaa_transfer_outcome(program_id, accounts, checked.bridge, b),
                        claim,
                    ) {
                        (Err(e), _) => Err(e),
                        (_, Err(e)) => Err(e),
                        (Ok(call), Ok(record)) => Ok(
                            Outcome {
                                accounts: with_data(accounts, 2, record.encode()),
                                calls: seq![call],
                            },
                        ),
                    },
                }
            }
        },
    }
}

/// What the signature primitive's answer means for a message.
pub fn signature_verdict(accepted: bool) -> (r: Result<(), Error>)
    ensures
        r == signature_spec(accepted),
{
    if accepted {
        Ok(())
    } else {
        Err(Error::InvalidVAASignature)
    }
}

impl ClaimedVAA {
    /// Claims a message: fails where the slot holds a written record, and
    /// else gives the record to write.
    pub fn claim(slot: Result<ClaimedVAA, Error>, hash: &[u8; 32], now: u32) -> (r: Result<
        ClaimedVAA,
        Error,
    >)
        ensures
            r == claim_spec(slot, *hash, now),
    {
        match slot {
            Err(e) => Err(e),
            Ok(s) => {
                if s.is_initialized {
                    return Err(Error::VAAClaimed);
                }
                Ok(ClaimedVAA { hash: *hash, vaa_time: now, is_initialized: true })
            },
        }
    }
}

impl Bridge {
    /// Runs the checks on a message that come before its signature is
    /// verified.
    pub fn check_vaa(accounts: &Vec<Account>, v: &VAA, clock: &Clock, facts: VaaFacts) -> (r:
        Result<CheckedVaa, Error>)
        ensures
            r == check_vaa_spec(accounts_view(accounts@), *v, *clock, facts),
    {
        if accounts.len() < 3 {
            return Err(Error::NotEnoughAccountKeys);
        }
        let bridge_key: Pubkey = match facts.bridge_key {
            Ok(k) => k,
            Err(e) => {
                return Err(e);
            },
        };
        if !bridge_key.equals(&accounts[0].key) {
            return Err(Error::InvalidDerivedAccount);
        }
        let bridge: Bridge = match Bridge::bridge_deserialize(&accounts[0]) {
            Ok(b) => b,
            Err(e) => {
                return Err(e);
            },
        };
        let now: u32 = match clock.now() {
            Ok(t) => t,
            Err(e) => {
                return Err(e);
            },
        };
        let guardian_set: GuardianSet = match Bridge::guardian_set_deserialize(&accounts[1]) {
            Ok(g) => g,
            Err(e) => {
                return Err(e);
            },
        };
        let guardian_set_key: Pubkey = match facts.guardian_set_key {
            Ok(k) => k,
            Err(e) => {
                return Err(e);
            },
        };
        if !guardian_set_key.equals(&accounts[1].key) {
            return Err(Error::InvalidDerivedAccount);
        }
        let claim_key: Pubkey = match facts.claim_key {
            Ok(k) => k,
            Err(e) => {
                return Err(e);
            },
        };
        if !claim_key.equals(&accounts[2].key) {
            return Err(Error::InvalidDerivedAccount);
        }
        match guardian_set.check_expiry(bridge.config.vaa_expiration_time, now) {
            Ok(()) => {},
            Err(e) => {
                return Err(e);
            },
        }
        Ok(CheckedVaa { bridge, guardian_set, now })
    }

    /// Validates a guardian set update and gives the new guardian set, which
    /// belongs in account 3. On success `bridge` and `old_guardian_set` hold
    /// what belongs in accounts 0 and 1; on failure they are unchanged.
    pub fn process_vaa_set_update(
        program_id: &Pubkey,
        accounts: &Vec<Account>,
        now: u32,
        bridge: &mut Bridge,
        old_guardian_set: &mut GuardianSet,
        b: &BodyUpdateGuardianSet,
    ) -> (r: Result<GuardianSet, Error>)
        ensures
            match set_update_spec(
                *program_id,
                accounts_view(accounts@),
                now,
                *old(bridge),
                *old(old_guardian_set),
                *b,
            ) {
                Ok(rotation) => r == Ok::<GuardianSet, Error>(rotation.new_set) && *final(bridge)
                    == rotation.bridge && *final(old_guardian_set) == rotation.old_set,
                Err(e) => r == Err::<GuardianSet, Error>(e) && *final(bridge) == *old(bridge)
                    && *final(old_guardian_set) == *old(old_guardian_set),
            },
    {
        if accounts.len() < 4 {
            return Err(Error::NotEnoughAccountKeys);
        }
        let derived: Result<Pubkey, Error> = Bridge::derive_guardian_set_id(
            program_id,
            &accounts[0].key,
            b.new_index,
        );
        let slot: Result<GuardianSet, Error> = Bridge::unpack_unchecked::<GuardianSet>(
            accounts[3].data.as_slice(),
        );
        Bridge::rotate(bridge, old_guardian_set, b, now, derived, &accounts[3].key, slot)
    }

    /// Decides an inbound transfer on what the token ledger and the address
    /// derivation say, and on the call as it was built.
    pub fn vaa_transfer_with(
        program_id: &Pubkey,
        accounts: &Vec<Account>,
        b: &BodyTransfer,
        facts: InboundFacts,
        credit: Result<Invocation, Error>,
    ) -> (r: Result<Invocation, Error>)
        ensures
            result_view(r) == vaa_transfer_spec(
                *program_id,
                accounts_view(accounts@),
                *b,
                facts,
                result_view(credit),
            ),
    {
        if accounts.len() < 6 {
            return Err(Error::NotEnoughAccountKeys);
        }
        if b.chain_id != CHAIN_ID_SOLANA {
            return Err(Error::InvalidVAAAction);
        }
        let destination: TokenAccount = match facts.destination {
            Ok(d) => d,
            Err(e) => {
                return Err(e);
            },
        };
        if !bytes32_eq(&accounts[5].key.bytes, &b.target_address) {
            return Err(Error::InvalidDerivedAccount);
        }
        let mint: Mint = match facts.mint {
            Ok(m) => m,
            Err(e) => {
                return Err(e);
            },
        };
        if !destination.mint.equals(&accounts[3].key) {
            return Err(Error::TokenMintMismatch);
        }
        let native: bool = b.asset.chain == CHAIN_ID_SOLANA;
        if native && !bytes32_eq(&accounts[3].key.bytes, &b.asset.address) {
            return Err(Error::TokenMintMismatch);
        }
        if native == is_bridge_issued(&mint, program_id) {
            return Err(Error::WrongMintOwner);
        }
        if native {
            let custody_key: Pubkey = match facts.custody_key {
                Ok(k) => k,
                Err(e) => {
                    return Err(e);
                },
            };
            if !custody_key.equals(&accounts[4].key) {
                return Err(Error::InvalidDerivedAccount);
            }
            let custody: TokenAccount = match facts.custody {
                Ok(c) => c,
                Err(e) => {
                    return Err(e);
                },
            };
            if !custody.owner.equals(&custody_key) {
                return Err(Error::WrongTokenAccountOwner);
            }
        } else {
            let wrapped_mint_key: Pubkey = match facts.wrapped_mint_key {
                Ok(k) => k,
                Err(e) => {
                    return Err(e);
                },
            };
            if !wrapped_mint_key.equals(&accounts[3].key) {
                return Err(Error::InvalidDerivedAccount);
            }
        }
        credit
    }

    /// Validates an inbound transfer and gives the call that credits the
    /// recipient.
    pub fn process_vaa_transfer(
        program_id: &Pubkey,
        accounts: &Vec<Account>,
        bridge: &Bridge,
        b: &BodyTransfer,
    ) -> (r: Result<Invocation, Error>)
        ensures
            result_view(r) == vaa_transfer_outcome(
                *program_id,
                accounts_view(accounts@),
                *bridge,
                *b,
            ),
    {
        if accounts.len() < 6 {
            return Err(Error::NotEnoughAccountKeys);
        }
        let custody_key: Result<Pubkey, Error> = Bridge::derive_custody(
            program_id,
            &accounts[0].key,
            &accounts[3].key,
        );
        let facts = InboundFacts {
            mint: Bridge::mint_deserialize(&accounts[3]),
            custody: Bridge::token_account_deserialize(&accounts[4]),
            destination: Bridge::token_account_deserialize(&accounts[5]),
            custody_key,
            wrapped_mint_key: Bridge::derive_wrapped_asset_id(
                program_id,
                &accounts[0].key,
                b.asset.chain,
                b.asset.address,
            ),
        };
        let credit: Result<Invocation, Error> = if b.asset.chain == CHAIN_ID_SOLANA {
            match custody_key {
                Ok(custody) => Bridge::token_transfer_custody(
                    program_id,
                    accounts,
                    &bridge.config.token_program,
                    &accounts[0].key,
                    &accounts[3].key,
                    &custody,
                    &accounts[5].key,
                    &custody,
                    b.amount,
                ),
                Err(e) => Err(e),
            }
        } else {
            Bridge::wrapped_mint_to(
                program_id,
                accounts,
                &bridge.config.token_program,
                &accounts[0].key,
                b.asset.chain,
                b.asset.address,
                &accounts[3].key,
                &accounts[5].key,
                program_id,
                b.amount,
            )
        };
        Bridge::vaa_transfer_with(program_id, accounts, b, facts, credit)
    }

    /// Checks a message of the guardians and applies it. `verify` is the
    /// signature primitive: it is asked once, after every check that comes
    /// before it has passed, whether the guardian set's key signed the payload
    /// digest.
    pub fn process_vaa<F: Fn(RawKey, [u8; 32], Signature) -> bool>(
        program_id: &Pubkey,
        accounts: &mut Vec<Account>,
        v: &VAA,
        hash: &[u8; 32],
        clock: &Clock,
        verify: F,
    ) -> (r: Result<Vec<Invocation>, Error>)
        requires
            forall|k: RawKey, d: [u8; 32], s: Signature| call_requires(verify, (k, d, s)),
        ensures
            vaa_checked(*program_id, accounts_view(old(accounts)@), *v, *hash, *clock) matches Err(
                e,
            ) ==> r == Err::<Vec<Invocation>, Error>(e),
            vaa_checked(*program_id, accounts_view(old(accounts)@), *v, *hash, *clock) is Ok
                ==> exists|accepted: bool|
                #[trigger] call_ensures(
                    verify,
                    (signing_key(accounts_view(old(accounts)@)), v.payload_digest, v.signature),
                    accepted,
                ) && outcome_of(r, *final(accounts)) == vaa_outcome(
                    *program_id,
                    accounts_view(old(accounts)@),
                    *v,
                    *hash,
                    *clock,
                    accepted,
                ),
            r is Err ==> *final(accounts) == *old(accounts),
    {
        if accounts.len() < 3 {
            return Err(Error::NotEnoughAccountKeys);
        }
        let facts = VaaFacts {
            bridge_key: Bridge::derive_bridge_id(program_id),
            guardian_set_key: Bridge::derive_guardian_set_id(
                program_id,
                &accounts[0].key,
                v.guardian_set_index,
            ),
            claim_key: Bridge::derive_claim(program_id, &accounts[0].key, hash),
        };
        let checked: CheckedVaa = match Bridge::check_vaa(accounts, v, clock, facts) {
            Ok(c) => c,
            Err(e) => {
                return Err(e);
            },
        };
        let accepted: bool = v.verify(&checked.guardian_set.pubkey, &verify);
        match signature_verdict(accepted) {
            Ok(()) => {},
            Err(e) => {
                return Err(e);
            },
        }
        let payload: VAABody = match v.payload {
            Some(p) => p,
            None => {
                return Err(Error::InvalidVAAAction);
            },
        };
        let mut bridge: Bridge = checked.bridge;
        let mut guardian_set: GuardianSet = checked.guardian_set;
        let mut calls: Vec<Invocation> = Vec::new();
        assert(invocations_view(calls@) =~= Seq::<InvocationView>::empty());
        match payload {
            VAABody::UpdateGuardianSet(b) => {
                let new_set: GuardianSet = match Bridge::process_vaa_set_update(
                    program_id,
                    accounts,
                    checked.now,
                    &mut bridge,
                    &mut guardian_set,
                    &b,
                ) {
                    Ok(s) => s,
                    Err(e) => {
                        return Err(e);
                    },
                };
                let record: ClaimedVAA = match ClaimedVAA::claim(
                    Bridge::unpack_unchecked::<ClaimedVAA>(accounts[2].data.as_slice()),
                    hash,
                    checked.now,
                ) {
                    Ok(c) => c,
                    Err(e) => {
                        return Err(e);
                    },
                };
                store(accounts, 0, &bridge);
                store(accounts, 1, &guardian_set);
                store(accounts, 3, &new_set);
                store(accounts, 2, &record);
            },
            VAABody::Transfer(b) => {
                let call: Invocation = match Bridge::process_vaa_transfer(
                    program_id,
                    accounts,
                    &bridge,
                    &b,
                ) {
                    Ok(c) => c,
                    Err(e) => {
                        return Err(e);
                    },
                };
                let record: ClaimedVAA = match ClaimedVAA::claim(
                    Bridge::unpack_unchecked::<ClaimedVAA>(accounts[2].data.as_slice()),
                    hash,
                    checked.now,
                ) {
                    Ok(c) => c,
                    Err(e) => {
                        return Err(e);
                    },
                };
                store(accounts, 2, &record);
                calls.push(call);
                assert(invocations_view(calls@) =~= seq![call@]);
            },
        }
        Ok(calls)
    }
}

} // verus!

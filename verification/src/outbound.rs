//! Transfers to a foreign chain.
//!
//! A wrapped asset, whose mint the bridge program controls, is burnt. Any
//! other asset is locked in the custody account of its mint, which is created
//! on first use. Either way a proposal records the transfer at an address
//! derived from the asset, the destination, the sender and the slot.

use crate::account::{
    accounts_view, invocations_view, Account, AccountView, Invocation, InvocationView,
};
use crate::address::{
    bridge_seeds, custody_seeds, derive_spec, make_custody_seeds, transfer_seeds,
    wrapped_asset_seeds,
};
use crate::error::Error;
use crate::instruction::TransferOutPayload;
use crate::invoke::result_view;
use crate::keys::{Clock, ForeignAddress, Pubkey, CHAIN_ID_SOLANA};
use crate::processor::{bridge_deserialize_spec, outcome_of, store, with_data, Outcome};
use crate::state::{unpack_unchecked_spec, AssetMeta, Bridge, Record, TransferOutProposal};
use crate::token::{
    create_token_account_spec, mint_deserialize_spec, token_account_deserialize_spec,
    token_transfer_caller_spec, wrapped_burn_spec, Mint, TokenAccount,
};
use vstd::prelude::*;

verus! {

/// What the token ledger and the address derivation say of the accounts of a
/// transfer of a wrapped asset.
#[derive(Clone, Copy, Debug, PartialEq, Eq)]
pub struct TransferOutFacts {
    /// The address derived for the bridge.
    pub bridge_key: Result<Pubkey, Error>,
    /// The sender's token account, read from account 0.
    pub sender: Result<TokenAccount, Error>,
    /// The mint, read from account 3.
    pub mint: Result<Mint, Error>,
    /// The address derived for the wrapped asset's mint.
    pub wrapped_mint_key: Result<Pubkey, Error>,
    /// The address derived for the proposal.
    pub proposal_key: Result<Pubkey, Error>,
}

/// What the token ledger and the address derivation say of the accounts of a
/// transfer of a native asset.
#[derive(Clone, Copy, Debug, PartialEq, Eq)]
pub struct NativeOutFacts {
    /// The address derived for the bridge.
    pub bridge_key: Result<Pubkey, Error>,
    /// The sender's token account, read from account 0.
    pub sender: Result<TokenAccount, Error>,
    /// The mint, read from account 3.
    pub mint: Result<Mint, Error>,
    /// The address derived for the proposal.
    pub proposal_key: Result<Pubkey, Error>,
    /// The address derived for the mint's custody account.
    pub custody_key: Result<Pubkey, Error>,
    /// The custody token account, read from account 4.
    pub custody: Result<TokenAccount, Error>,
}

/// Whether the bridge program controls a mint.
pub open spec fn bridge_issued(mint: Mint, program_id: Pubkey) -> bool {
    mint.mint_authority == Some(program_id)
}

/// The proposal that a transfer writes into a slot.
pub open spec fn proposal_spec(
    slot: TransferOutProposal,
    amount: u64,
    to_chain_id: u8,
    foreign_address: ForeignAddress,
    asset: AssetMeta,
) -> TransferOutProposal {
    TransferOutProposal { amount, to_chain_id, foreign_address, asset, is_initialized: true, ..slot }
}

/// The proposal and the burn that a transfer of a wrapped asset leads to. The
/// accounts are: 0 the sender's token account, 1 the bridge, 2 the proposal,
/// 3 the mint, 4 the sender. The bridge, the mint and the proposal must be at
/// their derived addresses.
pub open spec fn transfer_out_spec(
    program_id: Pubkey,
    accounts: Seq<AccountView>,
    t: TransferOutPayload,
    facts: TransferOutFacts,
) -> Result<(TransferOutProposal, InvocationView), Error> {
    let bridge = bridge_deserialize_spec(accounts[1].data);
    let slot = unpack_unchecked_spec::<TransferOutProposal>(accounts[2].data);
    let burn = wrapped_burn_spec(
        program_id,
        accounts,
        bridge->Ok_0.config.token_program,
        accounts[4].key,
        accounts[0].key,
        accounts[3].key,
        t.amount,
    );
    if accounts.len() < 5 {
        Err(Error::NotEnoughAccountKeys)
    } else if facts.sender is Err {
        Err(facts.sender->Err_0)
    } else if facts.bridge_key is Err {
        Err(facts.bridge_key->Err_0)
    } else if facts.bridge_key->Ok_0 != accounts[1].key {
        Err(Error::InvalidDerivedAccount)
    } else if bridge is Err {
        Err(bridge->Err_0)
    } else if facts.mint is Err {
        Err(facts.mint->Err_0)
    } else if facts.sender->Ok_0.mint != accounts[3].key {
        Err(Error::TokenMintMismatch)
    } else if !bridge_issued(facts.mint->Ok_0, program_id) {
        Err(Error::WrongMintOwner)
    } else if facts.wrapped_mint_key is Err {
        Err(facts.wrapped_mint_key->Err_0)
    } else if facts.wrapped_mint_key->Ok_0 != accounts[3].key {
        Err(Error::InvalidDerivedAccount)
    } else if facts.proposal_key is Err {
        Err(facts.proposal_key->Err_0)
    } else if facts.proposal_key->Ok_0 != accounts[2].key {
        Err(Error::InvalidDerivedAccount)
    } else if slot is Err {
        Err(Error::InvalidAccountData)
    } else if slot->Ok_0.is_initialized {
        Err(Error::AlreadyExists)
    } else if burn is Err {
        Err(burn->Err_0)
    } else {
        Ok((proposal_spec(slot->Ok_0, t.amount, t.chain_id, t.target, t.asset), burn->Ok_0))
    }
}

/// The proposal and the calls that a transfer of a native asset leads to,
/// where `create_custody` is the call that creates the custody account. The
/// accounts are: 0 the sender's token account, 1 the bridge, 2 the proposal,
/// 3 the mint, 4 the custody account, 5 the sender. The proposal names the
/// asset by the mint, whatever the caller said.
pub open spec fn transfer_native_out_spec(
    program_id: Pubkey,
    accounts: Seq<AccountView>,
    t: TransferOutPayload,
    facts: NativeOutFacts,
    create_custody: Result<InvocationView, Error>,
) -> Result<(TransferOutProposal, Seq<InvocationView>), Error> {
    let bridge = bridge_deserialize_spec(accounts[1].data);
    let slot = unpack_unchecked_spec::<TransferOutProposal>(accounts[2].data);
    let fresh = accounts[4].data.len() == 0;
    let lock = token_transfer_caller_spec(
        program_id,
        accounts,
        bridge->Ok_0.config.token_program,
        accounts[0].key,
        facts.custody_key->Ok_0,
        accounts[5].key,
        t.amount,
    );
    if accounts.len() < 6 {
        Err(Error::NotEnoughAccountKeys)
    } else if facts.sender is Err {
        Err(facts.sender->Err_0)
    } else if facts.bridge_key is Err {
        Err(facts.bridge_key->Err_0)
    } else if facts.bridge_key->Ok_0 != accounts[1].key {
        Err(Error::InvalidDerivedAccount)
    } else if bridge is Err {
        Err(bridge->Err_0)
    } else if facts.mint is Err {
        Err(facts.mint->Err_0)
    } else if facts.sender->Ok_0.mint != accounts[3].key {
        Err(Error::TokenMintMismatch)
    } else if bridge_issued(facts.mint->Ok_0, program_id) {
        Err(Error::WrongMintOwner)
    } else if facts.proposal_key is Err {
        Err(facts.proposal_key->Err_0)
    } else if facts.proposal_key->Ok_0 != accounts[2].key {
        Err(Error::InvalidDerivedAccount)
    } else if slot is Err {
        Err(Error::InvalidAccountData)
    } else if slot->Ok_0.is_initialized {
        Err(Error::AlreadyExists)
    } else if facts.custody_key is Err {
        Err(facts.custody_key->Err_0)
    } else if facts.custody_key->Ok_0 != accounts[4].key {
        Err(Error::InvalidDerivedAccount)
    } else if fresh && create_custody is Err {
        Err(create_custody->Err_0)
    } else if !fresh && facts.custody is Err {
        Err(facts.custody->Err_0)
    } else if !fresh && facts.custody->Ok_0.owner != facts.custody_key->Ok_0 {
        Err(Error::WrongTokenAccountOwner)
    } else if lock is Err {
        Err(lock->Err_0)
    } else {
        Ok(
            (
                proposal_spec(
                    slot->Ok_0,
                    t.amount,
                    t.chain_id,
                    t.target,
                    AssetMeta { chain: CHAIN_ID_SOLANA, address: accounts[3].key.bytes },
                ),
                if fresh {
                    seq![create_custody->Ok_0, lock->Ok_0]
                } else {
                    seq![lock->Ok_0]
                },
            ),
        )
    }
}

/// What the token ledger and the address derivation say of the accounts of a
/// transfer of a wrapped asset.
pub open spec fn transfer_out_facts(
    program_id: Pubkey,
    accounts: Seq<AccountView>,
    t: TransferOutPayload,
    clock: Clock,
) -> TransferOutFacts {
    let sender = token_account_deserialize_spec(accounts[0].data);
    TransferOutFacts {
        bridge_key: derive_spec(bridge_seeds(), program_id),
        sender,
        mint: mint_deserialize_spec(accounts[3].data),
        wrapped_mint_key: derive_spec(
            wrapped_asset_seeds(accounts[1].key, t.asset.chain, t.asset.address),
            program_id,
        ),
        proposal_key: match sender {
            Ok(s) => derive_spec(
                transfer_seeds(
                    t.asset.chain,
                    t.asset.address,
                    t.chain_id,
                    t.target,
                    s.owner,
                    clock.slot,
                ),
                program_id,
            ),
            Err(e) => Err(e),
        },
    }
}

/// What the token ledger and the address derivation say of the accounts of a
/// transfer of a native asset.
pub open spec fn native_out_facts(
    program_id: Pubkey,
    accounts: Seq<AccountView>,
    t: TransferOutPayload,
    clock: Clock,
) -> NativeOutFacts {
    let sender = token_account_deserialize_spec(accounts[0].data);
    NativeOutFacts {
        bridge_key: derive_spec(bridge_seeds(), program_id),
        sender,
        mint: mint_deserialize_spec(accounts[3].data),
        proposal_key: match sender {
            Ok(s) => derive_spec(
                transfer_seeds(
                    t.asset.chain,
                    t.asset.address,
                    t.chain_id,
                    t.target,
                    s.owner,
                    clock.slot,
                ),
                program_id,
            ),
            Err(e) => Err(e),
        },
        custody_key: derive_spec(custody_seeds(accounts[1].key, accounts[3].key), program_id),
        custody: token_account_deserialize_spec(accounts[4].data),
    }
}

/// The call that creates the custody account of the mint in account 3, owned
/// by its own address.
pub open spec fn create_custody_spec(program_id: Pubkey, accounts: Seq<AccountView>) -> Result<
    InvocationView,
    Error,
> {
    match (
        bridge_deserialize_spec(accounts[1].data),
        derive_spec(custody_seeds(accounts[1].key, accounts[3].key), program_id),
    ) {
        (Ok(bridge), Ok(custody)) => create_token_account_spec(
            program_id,
            accounts,
            bridge.config.token_program,
            custody,
            accounts[3].key,
            custody,
            custody_seeds(accounts[1].key, accounts[3].key),
        ),
        (Err(e), _) => Err(e),
        (_, Err(e)) => Err(e),
    }
}

/// What a transfer of a wrapped asset leaves behind.
pub open spec fn transfer_out_outcome(
    program_id: Pubkey,
    accounts: Seq<AccountView>,
    t: TransferOutPayload,
    clock: Clock,
) -> Result<Outcome, Error> {
    match transfer_out_spec(
        program_id,
        accounts,
        t,
        transfer_out_facts(program_id, accounts, t, clock),
    ) {
        Ok((proposal, burn)) => Ok(
            Outcome { accounts: with_data(accounts, 2, proposal.encode()), calls: seq![burn] },
        ),
        Err(e) => Err(e),
    }
}

/// What a transfer of a native asset leaves behind.
pub open spec fn transfer_native_out_outcome(
    program_id: Pubkey,
    accounts: Seq<AccountView>,
    t: TransferOutPayload,
    clock: Clock,
) -> Result<Outcome, Error> {
    match transfer_native_out_spec(
        program_id,
        accounts,
        t,
        native_out_facts(program_id, accounts, t, clock),
        create_custody_spec(program_id, accounts),
    ) {
        Ok((proposal, calls)) => Ok(
            Outcome { accounts: with_data(accounts, 2, proposal.encode()), calls },
        ),
        Err(e) => Err(e),
    }
}

/// Whether the bridge program controls a mint.
pub fn is_bridge_issued(mint: &Mint, program_id: &Pubkey) -> (r: bool)
    ensures
        r == bridge_issued(*mint, *program_id),
{
    match mint.mint_authority {
        Some(k) => k.equals(program_id),
        None => false,
    }
}

impl TransferOutProposal {
    /// The proposal that a transfer writes into this slot.
    pub fn propose(
        &self,
        amount: u64,
        to_chain_id: u8,
        foreign_address: ForeignAddress,
        asset: AssetMeta,
    ) -> (r: TransferOutProposal)
        ensures
            r == proposal_spec(*self, amount, to_chain_id, foreign_address, asset),
    {
        TransferOutProposal {
            amount,
            to_chain_id,
            foreign_address,
            asset,
            vaa: self.vaa,
            vaa_time: self.vaa_time,
            is_initialized: true,
        }
    }
}

impl Bridge {
    /// Decides a transfer of a wrapped asset on what the token ledger and the
    /// address derivation say.
    pub fn transfer_out_with(
        program_id: &Pubkey,
        accounts: &Vec<Account>,
        t: &TransferOutPayload,
        facts: TransferOutFacts,
    ) -> (r: Result<(TransferOutProposal, Invocation), Error>)
        ensures
            match r {
                Ok((proposal, burn)) => transfer_out_spec(
                    *program_id,
                    accounts_view(accounts@),
                    *t,
                    facts,
                ) == Ok::<(TransferOutProposal, InvocationView), Error>((proposal, burn@)),
                Err(e) => transfer_out_spec(*program_id, accounts_view(accounts@), *t, facts)
                    == Err::<(TransferOutProposal, InvocationView), Error>(e),
            },
    {
        if accounts.len() < 5 {
            return Err(Error::NotEnoughAccountKeys);
        }
        let sender: TokenAccount = match facts.sender {
            Ok(s) => s,
            Err(e) => {
                return Err(e);
            },
        };
        let bridge_key: Pubkey = match facts.bridge_key {
            Ok(k) => k,
            Err(e) => {
                return Err(e);
            },
        };
        if !bridge_key.equals(&accounts[1].key) {
            return Err(Error::InvalidDerivedAccount);
        }
        let bridge: Bridge = match Bridge::bridge_deserialize(&accounts[1]) {
            Ok(b) => b,
            Err(e) => {
                return Err(e);
            },
        };
        let mint: Mint = match facts.mint {
            Ok(m) => m,
            Err(e) => {
                return Err(e);
            },
        };
        if !sender.mint.equals(&accounts[3].key) {
            return Err(Error::TokenMintMismatch);
        }
        if !is_bridge_issued(&mint, program_id) {
            return Err(Error::WrongMintOwner);
        }
        let wrapped_mint_key: Pubkey = match facts.wrapped_mint_key {
            Ok(k) => k,
            Err(e) => {
                return Err(e);
            },
        };
        if !wrapped_mint_key.equals(&accounts[3].key) {
            return Err(Error::InvalidDerivedAccount);
        }
        let proposal_key: Pubkey = match facts.proposal_key {
            Ok(k) => k,
            Err(e) => {
                return Err(e);
            },
        };
        if !proposal_key.equals(&accounts[2].key) {
            return Err(Error::InvalidDerivedAccount);
        }
        let slot: TransferOutProposal = match Bridge::unpack_unchecked::<TransferOutProposal>(
            accounts[2].data.as_slice(),
        ) {
            Ok(p) => p,
            Err(e) => {
                return Err(e);
            },
        };
        if slot.is_initialized {
            return Err(Error::AlreadyExists);
        }
        let burn: Invocation = match Bridge::wrapped_burn(
            program_id,
            accounts,
            &bridge.config.token_program,
            &accounts[4].key,
            &accounts[0].key,
            &accounts[3].key,
            t.amount,
        ) {
            Ok(call) => call,
            Err(e) => {
                return Err(e);
            },
        };
        Ok((slot.propose(t.amount, t.chain_id, t.target, t.asset), burn))
    }

    /// Decides a transfer of a native asset on what the token ledger and the
    /// address derivation say.
    pub fn transfer_native_out_with(
        program_id: &Pubkey,
        accounts: &Vec<Account>,
        t: &TransferOutPayload,
        facts: NativeOutFacts,
        create_custody: Result<Invocation, Error>,
    ) -> (r: Result<(TransferOutProposal, Vec<Invocation>), Error>)
        ensures
            match r {
                Ok((proposal, calls)) => transfer_native_out_spec(
                    *program_id,
                    accounts_view(accounts@),
                    *t,
                    facts,
                    result_view(create_custody),
                ) == Ok::<(TransferOutProposal, Seq<InvocationView>), Error>(
                    (proposal, invocations_view(calls@)),
                ),
                Err(e) => transfer_native_out_spec(
                    *program_id,
                    accounts_view(accounts@),
                    *t,
                    facts,
                    result_view(create_custody),
                ) == Err::<(TransferOutProposal, Seq<InvocationView>), Error>(e),
            },
    {
        if accounts.len() < 6 {
            return Err(Error::NotEnoughAccountKeys);
        }
        let sender: TokenAccount = match facts.sender {
            Ok(s) => s,
            Err(e) => {
                return Err(e);
            },
        };
        let bridge_key: Pubkey = match facts.bridge_key {
            Ok(k) => k,
            Err(e) => {
                return Err(e);
            },
        };
        if !bridge_key.equals(&accounts[1].key) {
            return Err(Error::InvalidDerivedAccount);
        }
        let bridge: Bridge = match Bridge::bridge_deserialize(&accounts[1]) {
            Ok(b) => b,
            Err(e) => {
                return Err(e);
            },
        };
        let mint: Mint = match facts.mint {
            Ok(m) => m,
            Err(e) => {
                return Err(e);
            },
        };
        if !sender.mint.equals(&accounts[3].key) {
            return Err(Error::TokenMintMismatch);
        }
        if is_bridge_issued(&mint, program_id) {
            return Err(Error::WrongMintOwner);
        }
        let proposal_key: Pubkey = match facts.proposal_key {
            Ok(k) => k,
            Err(e) => {
                return Err(e);
            },
        };
        if !proposal_key.equals(&accounts[2].key) {
            return Err(Error::InvalidDerivedAccount);
        }
        let slot: TransferOutProposal = match Bridge::unpack_unchecked::<TransferOutProposal>(
            accounts[2].data.as_slice(),
        ) {
            Ok(p) => p,
            Err(e) => {
                return Err(e);
            },
        };
        if slot.is_initialized {
            return Err(Error::AlreadyExists);
        }
        let custody_key: Pubkey = match facts.custody_key {
            Ok(k) => k,
            Err(e) => {
                return Err(e);
            },
        };
        if !custody_key.equals(&accounts[4].key) {
            return Err(Error::InvalidDerivedAccount);
        }
        let mut calls: Vec<Invocation> = Vec::new();
        if accounts[4].data.len() == 0 {
            match create_custody {
                Ok(call) => {
                    calls.push(call);
                },
                Err(e) => {
                    return Err(e);
                },
            }
        } else {
            let custody: TokenAccount = match facts.custody {
                Ok(c) => c,
                Err(e) => {
                    return Err(e);
                },
            };
            if !custody.owner.equals(&custody_key) {
                return Err(Error::WrongTokenAccountOwner);
            }
        }
        match Bridge::token_transfer_caller(
            program_id,
            accounts,
            &bridge.config.token_program,
            &accounts[0].key,
            &custody_key,
            &accounts[5].key,
            t.amount,
        ) {
            Ok(call) => {
                calls.push(call);
            },
            Err(e) => {
                return Err(e);
            },
        }
        let asset = AssetMeta { chain: CHAIN_ID_SOLANA, address: accounts[3].key.to_bytes() };
        let proposal: TransferOutProposal = slot.propose(t.amount, t.chain_id, t.target, asset);
        proof {
            let spec_calls = transfer_native_out_spec(
                *program_id,
                accounts_view(accounts@),
                *t,
                facts,
                result_view(create_custody),
            )->Ok_0.1;
            assert(invocations_view(calls@) =~= spec_calls);
        }
        Ok((proposal, calls))
    }

    /// Transfers a wrapped asset out: burns the tokens and records the
    /// proposal in account 2.
    pub fn process_transfer_out(
        program_id: &Pubkey,
        accounts: &mut Vec<Account>,
        t: &TransferOutPayload,
        clock: &Clock,
    ) -> (r: Result<Vec<Invocation>, Error>)
        ensures
            outcome_of(r, *final(accounts)) == transfer_out_outcome(
                *program_id,
                accounts_view(old(accounts)@),
                *t,
                *clock,
            ),
            r is Err ==> *final(accounts) == *old(accounts),
    {
        if accounts.len() < 5 {
            return Err(Error::NotEnoughAccountKeys);
        }
        let sender: Result<TokenAccount, Error> = Bridge::token_account_deserialize(&accounts[0]);
        let facts = TransferOutFacts {
            bridge_key: Bridge::derive_bridge_id(program_id),
            sender,
            mint: Bridge::mint_deserialize(&accounts[3]),
            wrapped_mint_key: Bridge::derive_wrapped_asset_id(
                program_id,
                &accounts[1].key,
                t.asset.chain,
                t.asset.address,
            ),
            proposal_key: match sender {
                Ok(s) => Bridge::derive_transfer_id(
                    program_id,
                    t.asset.chain,
                    t.asset.address,
                    t.chain_id,
                    t.target,
                    s.owner,
                    clock.slot,
                ),
                Err(e) => Err(e),
            },
        };
        match Bridge::transfer_out_with(program_id, accounts, t, facts) {
            Ok((proposal, burn)) => {
                store(accounts, 2, &proposal);
                let mut calls: Vec<Invocation> = Vec::new();
                calls.push(burn);
                assert(invocations_view(calls@) =~= seq![burn@]);
                Ok(calls)
            },
            Err(e) => Err(e),
        }
    }

    /// Transfers a native asset out: locks the tokens in the mint's custody
    /// account, which is created where it does not exist yet, and records the
    /// proposal in account 2.
    pub fn process_transfer_native_out(
        program_id: &Pubkey,
        accounts: &mut Vec<Account>,
        t: &TransferOutPayload,
        clock: &Clock,
    ) -> (r: Result<Vec<Invocation>, Error>)
        ensures
            outcome_of(r, *final(accounts)) == transfer_native_out_outcome(
                *program_id,
                accounts_view(old(accounts)@),
                *t,
                *clock,
            ),
            r is Err ==> *final(accounts) == *old(accounts),
    {
        if accounts.len() < 6 {
            return Err(Error::NotEnoughAccountKeys);
        }
        let sender: Result<TokenAccount, Error> = Bridge::token_account_deserialize(&accounts[0]);
        let custody_key: Result<Pubkey, Error> = Bridge::derive_custody(
            program_id,
            &accounts[1].key,
            &accounts[3].key,
        );
        let facts = NativeOutFacts {
            bridge_key: Bridge::derive_bridge_id(program_id),
            sender,
            mint: Bridge::mint_deserialize(&accounts[3]),
            proposal_key: match sender {
                Ok(s) => Bridge::derive_transfer_id(
                    program_id,
                    t.asset.chain,
                    t.asset.address,
                    t.chain_id,
                    t.target,
                    s.owner,
                    clock.slot,
                ),
                Err(e) => Err(e),
            },
            custody_key,
            custody: Bridge::token_account_deserialize(&accounts[4]),
        };
        let create_custody: Result<Invocation, Error> = match (
            Bridge::bridge_deserialize(&accounts[1]),
            custody_key,
        ) {
            (Ok(bridge), Ok(custody)) => Bridge::create_token_account(
                program_id,
                accounts,
                &bridge.config.token_program,
                &custody,
                &accounts[3].key,
                &custody,
                make_custody_seeds(&accounts[1].key, &accounts[3].key),
            ),
            (Err(e), _) => Err(e),
            (_, Err(e)) => Err(e),
        };
        match Bridge::transfer_native_out_with(program_id, accounts, t, facts, create_custody) {
            Ok((proposal, calls)) => {
                store(accounts, 2, &proposal);
                Ok(calls)
            },
            Err(e) => Err(e),
        }
    }
}

} // verus!

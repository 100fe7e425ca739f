//! Calls into the token ledger, prepared for the host to perform.
//!
//! The bridge does not run the token program. It builds the instruction,
//! picks the accounts that the instruction names from those of the invocation,
//! marks as signers the addresses that the bridge's own seeds derive, and
//! hands the whole back.

use crate::account::{
    accounts_view, seed_lists_view, Account, AccountView, AccountMeta, Instruction,
    InstructionView, Invocation, InvocationView, RoutedAccount,
};
use crate::address::{derive_address, derive_spec};
use crate::error::Error;
use crate::keys::Pubkey;
use vstd::prelude::*;

verus! {

/// The view of a result that holds a value with a view.
pub open spec fn result_view<T: View>(r: Result<T, Error>) -> Result<T::V, Error> {
    match r {
        Ok(t) => Ok(t@),
        Err(e) => Err(e),
    }
}

/// The keys of the signers among the first `upto` accounts, in their order.
pub open spec fn signer_keys(accounts: Seq<AccountView>, upto: int) -> Seq<Pubkey>
    decreases upto,
{
    if upto <= 0 {
        Seq::empty()
    } else if accounts[upto - 1].is_signer {
        signer_keys(accounts, upto - 1).push(accounts[upto - 1].key)
    } else {
        signer_keys(accounts, upto - 1)
    }
}

/// The keys of all signers among the accounts.
pub open spec fn all_signer_keys(accounts: Seq<AccountView>) -> Seq<Pubkey> {
    signer_keys(accounts, accounts.len() as int)
}

/// Those of the first `upto` accounts that have the address `key`, as the
/// callee gets them: a signer is one that signed the invocation or whose
/// address the bridge's seeds derive.
pub open spec fn route_one(
    key: Pubkey,
    accounts: Seq<AccountView>,
    signers: Seq<Pubkey>,
    upto: int,
) -> Seq<RoutedAccount>
    decreases upto,
{
    if upto <= 0 {
        Seq::empty()
    } else if accounts[upto - 1].key == key {
        route_one(key, accounts, signers, upto - 1).push(
            RoutedAccount {
                index: (upto - 1) as usize,
                is_signer: accounts[upto - 1].is_signer || signers.contains(key),
            },
        )
    } else {
        route_one(key, accounts, signers, upto - 1)
    }
}

/// The accounts that the first `upto` names of an instruction stand for, in
/// the order of the names.
pub open spec fn route(
    metas: Seq<AccountMeta>,
    accounts: Seq<AccountView>,
    signers: Seq<Pubkey>,
    upto: int,
) -> Seq<RoutedAccount>
    decreases upto,
{
    if upto <= 0 {
        Seq::empty()
    } else {
        route(metas, accounts, signers, upto - 1) + route_one(
            metas[upto - 1].pubkey,
            accounts,
            signers,
            accounts.len() as int,
        )
    }
}

/// The addresses that the first `upto` seed lists derive, or the error of the
/// first list that derives none.
pub open spec fn derived_signers(
    seed_lists: Seq<Seq<Seq<u8>>>,
    program_id: Pubkey,
    upto: int,
) -> Result<Seq<Pubkey>, Error>
    decreases upto,
{
    if upto <= 0 {
        Ok(Seq::empty())
    } else {
        match derived_signers(seed_lists, program_id, upto - 1) {
            Err(e) => Err(e),
            Ok(keys) => match derive_spec(seed_lists[upto - 1], program_id) {
                Ok(k) => Ok(keys.push(k)),
                Err(e) => Err(e),
            },
        }
    }
}

/// The call that an instruction becomes, given the addresses that sign for
/// the bridge.
pub open spec fn invocation_with(
    instruction: InstructionView,
    accounts: Seq<AccountView>,
    seed_lists: Seq<Seq<Seq<u8>>>,
    signers: Seq<Pubkey>,
) -> InvocationView {
    InvocationView {
        instruction,
        accounts: route(instruction.accounts, accounts, signers, instruction.accounts.len() as int),
        signers_seeds: seed_lists,
    }
}

/// The call that an instruction becomes.
pub open spec fn invoke_spec(
    program_id: Pubkey,
    instruction: InstructionView,
    accounts: Seq<AccountView>,
    seed_lists: Seq<Seq<Seq<u8>>>,
) -> Result<InvocationView, Error> {
    match derived_signers(seed_lists, program_id, seed_lists.len() as int) {
        Ok(signers) => Ok(invocation_with(instruction, accounts, seed_lists, signers)),
        Err(e) => Err(e),
    }
}

/// Every account that is passed on to a callee is one of the invocation's.
pub proof fn lemma_route_one_in_range(
    key: Pubkey,
    accounts: Seq<AccountView>,
    signers: Seq<Pubkey>,
    upto: int,
)
    requires
        upto <= accounts.len() <= usize::MAX,
    ensures
        forall|i: int|
            0 <= i < route_one(key, accounts, signers, upto).len() ==> (#[trigger] route_one(
                key,
                accounts,
                signers,
                upto,
            )[i]).index < accounts.len(),
    decreases upto,
{
    if upto > 0 {
        lemma_route_one_in_range(key, accounts, signers, upto - 1);
        let shorter = route_one(key, accounts, signers, upto - 1);
        let whole = route_one(key, accounts, signers, upto);
        assert forall|i: int| 0 <= i < whole.len() implies (#[trigger] whole[i]).index
            < accounts.len() by {
            if i < shorter.len() {
                assert(whole[i] == shorter[i]);
            }
        }
    }
}

/// Every account that is passed on to a callee is one of the invocation's.
pub proof fn lemma_route_in_range(
    metas: Seq<AccountMeta>,
    accounts: Seq<AccountView>,
    signers: Seq<Pubkey>,
    upto: int,
)
    requires
        accounts.len() <= usize::MAX,
    ensures
        forall|i: int|
            0 <= i < route(metas, accounts, signers, upto).len() ==> (#[trigger] route(
                metas,
                accounts,
                signers,
                upto,
            )[i]).index < accounts.len(),
    decreases upto,
{
    if upto > 0 {
        lemma_route_in_range(metas, accounts, signers, upto - 1);
        lemma_route_one_in_range(metas[upto - 1].pubkey, accounts, signers, accounts.len() as int);
        let earlier = route(metas, accounts, signers, upto - 1);
        let last = route_one(metas[upto - 1].pubkey, accounts, signers, accounts.len() as int);
        let whole = route(metas, accounts, signers, upto);
        assert forall|i: int| 0 <= i < whole.len() implies (#[trigger] whole[i]).index
            < accounts.len() by {
            if i < earlier.len() {
                assert(whole[i] == earlier[i]);
            } else {
                assert(whole[i] == last[i - earlier.len()]);
            }
        }
    }
}

/// Whether `key` is among `keys`.
pub fn contains_key(keys: &Vec<Pubkey>, key: &Pubkey) -> (r: bool)
    ensures
        r == keys@.contains(*key),
{
    let mut i: usize = 0;
    while i < keys.len()
        invariant
            i <= keys@.len(),
            forall|j: int| 0 <= j < i ==> keys@[j] != *key,
        decreases keys@.len() - i,
    {
        if keys[i].equals(key) {
            return true;
        }
        i = i + 1;
    }
    false
}

/// The keys of all signers among the accounts, in their order.
pub fn all_signers(accounts: &Vec<Account>) -> (r: Vec<Pubkey>)
    ensures
        r@ == all_signer_keys(accounts_view(accounts@)),
{
    let mut keys: Vec<Pubkey> = Vec::new();
    let mut i: usize = 0;
    while i < accounts.len()
        invariant
            i <= accounts@.len(),
            keys@ == signer_keys(accounts_view(accounts@), i as int),
        decreases accounts@.len() - i,
    {
        if accounts[i].is_signer {
            keys.push(accounts[i].key);
        }
        i = i + 1;
    }
    keys
}

/// Picks the accounts that an instruction names and marks the signers.
pub fn route_accounts(
    instruction: &Instruction,
    accounts: &Vec<Account>,
    signers: &Vec<Pubkey>,
) -> (r: Vec<RoutedAccount>)
    ensures
        r@ == route(
            instruction@.accounts,
            accounts_view(accounts@),
            signers@,
            instruction@.accounts.len() as int,
        ),
        forall|i: int| 0 <= i < r@.len() ==> (#[trigger] r@[i]).index < accounts@.len(),
{
    proof {
        assert(accounts@.len() == accounts.len());
        lemma_route_in_range(
            instruction@.accounts,
            accounts_view(accounts@),
            signers@,
            instruction@.accounts.len() as int,
        );
    }
    let ghost views: Seq<AccountView> = accounts_view(accounts@);
    let mut routed: Vec<RoutedAccount> = Vec::new();
    let mut i: usize = 0;
    while i < instruction.accounts.len()
        invariant
            i <= instruction.accounts@.len(),
            views == accounts_view(accounts@),
            routed@ == route(instruction@.accounts, views, signers@, i as int),
        decreases instruction.accounts@.len() - i,
    {
        let key: Pubkey = instruction.accounts[i].pubkey;
        let derived: bool = contains_key(signers, &key);
        let ghost before: Seq<RoutedAccount> = routed@;
        let mut j: usize = 0;
        while j < accounts.len()
            invariant
                j <= accounts@.len(),
                views == accounts_view(accounts@),
                derived == signers@.contains(key),
                routed@ == before + route_one(key, views, signers@, j as int),
            decreases accounts@.len() - j,
        {
            if accounts[j].key.equals(&key) {
                routed.push(
                    RoutedAccount { index: j, is_signer: accounts[j].is_signer || derived },
                );
            }
            j = j + 1;
            assert(routed@ =~= before + route_one(key, views, signers@, j as int));
        }
        i = i + 1;
    }
    routed
}

/// Packages an instruction as a call, given the addresses that sign for the
/// bridge.
pub fn invoke_with_signers(
    instruction: Instruction,
    accounts: &Vec<Account>,
    signers_seeds: Vec<Vec<Vec<u8>>>,
    signers: &Vec<Pubkey>,
) -> (r: Invocation)
    ensures
        r@ == invocation_with(
            instruction@,
            accounts_view(accounts@),
            seed_lists_view(signers_seeds@),
            signers@,
        ),
        forall|i: int|
            0 <= i < r.accounts@.len() ==> (#[trigger] r.accounts@[i]).index < accounts@.len(),
{
    let routed: Vec<RoutedAccount> = route_accounts(&instruction, accounts, signers);
    Invocation { instruction, accounts: routed, signers_seeds }
}

/// Prepares the call of an instruction with the bridge signing for the
/// addresses that `signers_seeds` derive under `program_id`.
pub fn invoke_signed(
    program_id: &Pubkey,
    instruction: Instruction,
    accounts: &Vec<Account>,
    signers_seeds: Vec<Vec<Vec<u8>>>,
) -> (r: Result<Invocation, Error>)
    ensures
        result_view(r) == invoke_spec(
            *program_id,
            instruction@,
            accounts_view(accounts@),
            seed_lists_view(signers_seeds@),
        ),
        r matches Ok(call) ==> forall|i: int|
            0 <= i < call.accounts@.len() ==> (#[trigger] call.accounts@[i]).index
                < accounts@.len(),
{
    let ghost lists: Seq<Seq<Seq<u8>>> = seed_lists_view(signers_seeds@);
    let mut signers: Vec<Pubkey> = Vec::new();
    let mut i: usize = 0;
    while i < signers_seeds.len()
        invariant
            i <= signers_seeds@.len(),
            lists == seed_lists_view(signers_seeds@),
            derived_signers(lists, *program_id, i as int) == Ok::<Seq<Pubkey>, Error>(signers@),
        decreases signers_seeds@.len() - i,
    {
        match derive_address(&signers_seeds[i], program_id) {
            Ok(k) => {
                signers.push(k);
            },
            Err(e) => {
                proof {
                    lemma_derived_signers_fail(lists, *program_id, i as int, lists.len() as int);
                }
                return Err(e);
            },
        }
        i = i + 1;
    }
    Ok(invoke_with_signers(instruction, accounts, signers_seeds, &signers))
}

/// Once one seed list derives no address, no longer prefix derives all.
pub proof fn lemma_derived_signers_fail(
    seed_lists: Seq<Seq<Seq<u8>>>,
    program_id: Pubkey,
    at: int,
    upto: int,
)
    requires
        0 <= at < upto,
        derived_signers(seed_lists, program_id, at) is Ok,
        derive_spec(seed_lists[at], program_id) is Err,
    ensures
        derived_signers(seed_lists, program_id, upto) == Err::<Seq<Pubkey>, Error>(
            derive_spec(seed_lists[at], program_id)->Err_0,
        ),
    decreases upto,
{
    if upto > at + 1 {
        lemma_derived_signers_fail(seed_lists, program_id, at, upto - 1);
    }
}

} // verus!

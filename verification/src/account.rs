//! Accounts as the host hands them to an instruction, and calls into other
//! programs as the bridge hands them back.

use crate::keys::Pubkey;
use vstd::prelude::*;

verus! {

/// One account of an invocation: its address, whether its owner signed, and
/// the bytes it stores.
#[derive(Clone, Debug, PartialEq, Eq)]
pub struct Account {
    pub key: Pubkey,
    pub is_signer: bool,
    pub data: Vec<u8>,
}

/// An account as specifications see it.
pub struct AccountView {
    pub key: Pubkey,
    pub is_signer: bool,
    pub data: Seq<u8>,
}

impl View for Account {
    type V = AccountView;

    open spec fn view(&self) -> AccountView {
        AccountView { key: self.key, is_signer: self.is_signer, data: self.data@ }
    }
}

/// The accounts of an invocation as specifications see them.
pub open spec fn accounts_view(accounts: Seq<Account>) -> Seq<AccountView> {
    accounts.map_values(|a: Account| a@)
}

/// An account that an instruction names, with what the callee may do with it.
#[derive(Clone, Copy, Debug, PartialEq, Eq)]
pub struct AccountMeta {
    pub pubkey: Pubkey,
    pub is_signer: bool,
    pub is_writable: bool,
}

/// An instruction for another program.
#[derive(Clone, Debug, PartialEq, Eq)]
pub struct Instruction {
    pub program_id: Pubkey,
    pub accounts: Vec<AccountMeta>,
    pub data: Vec<u8>,
}

/// An instruction as specifications see it.
pub struct InstructionView {
    pub program_id: Pubkey,
    pub accounts: Seq<AccountMeta>,
    pub data: Seq<u8>,
}

impl View for Instruction {
    type V = InstructionView;

    open spec fn view(&self) -> InstructionView {
        InstructionView { program_id: self.program_id, accounts: self.accounts@, data: self.data@ }
    }
}

/// One of the invocation's accounts as it is passed on to a callee.
#[derive(Clone, Copy, Debug, PartialEq, Eq)]
pub struct RoutedAccount {
    /// Position of the account among the invocation's accounts.
    pub index: usize,
    /// Whether the callee sees the account as a signer.
    pub is_signer: bool,
}

/// A call into another program that the host is to perform: the instruction,
/// the accounts it is given, and the seeds the bridge signs with.
#[derive(Clone, Debug, PartialEq, Eq)]
pub struct Invocation {
    pub instruction: Instruction,
    pub accounts: Vec<RoutedAccount>,
    pub signers_seeds: Vec<Vec<Vec<u8>>>,
}

/// An invocation as specifications see it.
pub struct InvocationView {
    pub instruction: InstructionView,
    pub accounts: Seq<RoutedAccount>,
    pub signers_seeds: Seq<Seq<Seq<u8>>>,
}

/// The seed lists that a list of lists of byte strings holds.
pub open spec fn seed_lists_view(lists: Seq<Vec<Vec<u8>>>) -> Seq<Seq<Seq<u8>>> {
    lists.map_values(|l: Vec<Vec<u8>>| crate::address::seeds_view(l@))
}

impl View for Invocation {
    type V = InvocationView;

    open spec fn view(&self) -> InvocationView {
        InvocationView {
            instruction: self.instruction@,
            accounts: self.accounts@,
            signers_seeds: seed_lists_view(self.signers_seeds@),
        }
    }
}

/// The calls that a list holds.
pub open spec fn invocations_view(calls: Seq<Invocation>) -> Seq<InvocationView> {
    calls.map_values(|c: Invocation| c@)
}

} // verus!

//! The token ledger as the bridge sees it: how its accounts and mints read,
//! and how its instructions are built.

use crate::account::{
    accounts_view, Account, AccountMeta, AccountView, Instruction, InstructionView, Invocation,
    InvocationView,
};
use crate::address::{
    custody_seeds, make_custody_seeds, make_wrapped_asset_seeds, seeds_view, wrapped_asset_seeds,
};
use crate::codec::{array_of, lemma_array_of, u64_at, u64_le};
use crate::error::Error;
use crate::invoke::{all_signer_keys, all_signers, invoke_signed, invoke_spec, result_view};
use crate::keys::{ForeignAddress, Pubkey};
use crate::state::Bridge;
use spl_token::solana_program::program_pack::Pack;
use spl_token::solana_program::pubkey::Pubkey as TokenKey;
use vstd::prelude::*;

verus! {

/// Address of the token program.
pub const TOKEN_PROGRAM_ID: [u8; 32] = [
    6, 221, 246, 225, 215, 101, 161, 147, 217, 203, 225, 70, 206, 235, 121, 172, 28, 180, 133, 237,
    95, 91, 55, 145, 58, 140, 245, 133, 126, 255, 0, 169,
];

/// Address of the rent sysvar, which the token program reads when it
/// initializes an account.
pub const RENT_SYSVAR_ID: [u8; 32] = [
    6, 167, 213, 23, 25, 44, 92, 81, 33, 140, 201, 76, 61, 74, 241, 127, 88, 218, 238, 8, 155, 161,
    253, 68, 227, 219, 217, 138, 0, 0, 0, 0,
];

/// What the bridge reads of a token account.
#[derive(Clone, Copy, Debug, PartialEq, Eq)]
pub struct TokenAccount {
    /// The mint whose tokens the account holds.
    pub mint: Pubkey,
    /// The owner of the account.
    pub owner: Pubkey,
    /// The amount of tokens the account holds.
    pub amount: u64,
}

/// What the bridge reads of a mint.
#[derive(Clone, Copy, Debug, PartialEq, Eq)]
pub struct Mint {
    /// The authority that may mint new tokens, if there is one.
    pub mint_authority: Option<Pubkey>,
}

/// Whether the four bytes at `at` are the tag of an optional field: 0 for an
/// absent and 1 for a present value, then three zero bytes.
pub open spec fn option_tag_at(data: Seq<u8>, at: int) -> bool {
    &&& data[at] == 0 || data[at] == 1
    &&& data[at + 1] == 0
    &&& data[at + 2] == 0
    &&& data[at + 3] == 0
}

/// Whether the token ledger reads `data` as an initialized token account: the
/// length is 165, the tags of the delegate (at 72), of the native reserve (at
/// 109) and of the close authority (at 129) are valid, and the state byte (at
/// 108) says initialized or frozen.
pub open spec fn token_account_unpacks(data: Seq<u8>) -> bool {
    &&& data.len() == 165
    &&& option_tag_at(data, 72)
    &&& data[108] == 1 || data[108] == 2
    &&& option_tag_at(data, 109)
    &&& option_tag_at(data, 129)
}

/// Whether the token ledger reads `data` as an initialized mint: the length
/// is 82, the tags of the mint authority (at 0) and of the freeze authority
/// (at 46) are valid, and the flag byte (at 45) is 1.
pub open spec fn mint_unpacks(data: Seq<u8>) -> bool {
    &&& data.len() == 82
    &&& option_tag_at(data, 0)
    &&& data[45] == 1
    &&& option_tag_at(data, 46)
}

/// The token account that `data` holds, if it holds one.
pub open spec fn token_account_spec(data: Seq<u8>) -> Option<TokenAccount> {
    if token_account_unpacks(data) {
        Some(
            TokenAccount {
                mint: Pubkey { bytes: array_of::<32>(data.subrange(0, 32)) },
                owner: Pubkey { bytes: array_of::<32>(data.subrange(32, 64)) },
                amount: u64_at(data, 64),
            },
        )
    } else {
        None
    }
}

/// The mint that `data` holds, if it holds one.
pub open spec fn mint_spec(data: Seq<u8>) -> Option<Mint> {
    if mint_unpacks(data) {
        Some(
            Mint {
                mint_authority: if data[0] == 1 {
                    Some(Pubkey { bytes: array_of::<32>(data.subrange(4, 36)) })
                } else {
                    None
                },
            },
        )
    } else {
        None
    }
}

/// Calls `Account::unpack` of spl_token. The bytes unpack exactly where their
/// length is 165, the three option tags are valid and the state byte is that
/// of an initialized or a frozen account; the mint is then bytes 0 to 32, the
/// owner bytes 32 to 64 and the amount the little-endian integer in bytes 64
/// to 72.
#[verifier::external_body]
#[allow(deprecated)]
fn unpack_token_account(data: &[u8]) -> (r: Option<TokenAccount>)
    ensures
        r is Some <==> token_account_unpacks(data@),
        r matches Some(t) ==> t.mint@ == data@.subrange(0, 32),
        r matches Some(t) ==> t.owner@ == data@.subrange(32, 64),
        r matches Some(t) ==> t.amount == u64_at(data@, 64),
{
    match spl_token::state::Account::unpack(data) {
        Ok(a) => Some(
            TokenAccount {
                mint: Pubkey { bytes: a.mint.to_bytes() },
                owner: Pubkey { bytes: a.owner.to_bytes() },
                amount: a.amount,
            },
        ),
        Err(_) => None,
    }
}

/// Calls `Mint::unpack` of spl_token. The bytes unpack exactly where their
/// length is 82, both option tags are valid and the flag byte is 1; the mint
/// authority is then present when byte 0 is 1, and is bytes 4 to 36.
#[verifier::external_body]
#[allow(deprecated)]
fn unpack_mint(data: &[u8]) -> (r: Option<Mint>)
    ensures
        r is Some <==> mint_unpacks(data@),
        r matches Some(m) ==> (m.mint_authority is Some <==> data@[0] == 1),
        r matches Some(Mint { mint_authority: Some(k) }) ==> k@ == data@.subrange(4, 36),
{
    match spl_token::state::Mint::unpack(data) {
        Ok(m) => Some(
            Mint {
                mint_authority: Option::from(m.mint_authority).map(
                    |k: TokenKey| Pubkey { bytes: k.to_bytes() },
                ),
            },
        ),
        Err(_) => None,
    }
}

/// What reading a token account returns for each outcome of the unpacking.
pub fn token_account_or_error(found: Option<TokenAccount>) -> (r: Result<TokenAccount, Error>)
    ensures
        r == match found {
            Some(t) => Ok::<TokenAccount, Error>(t),
            None => Err::<TokenAccount, Error>(Error::ExpectedAccount),
        },
{
    match found {
        Some(t) => Ok(t),
        None => Err(Error::ExpectedAccount),
    }
}

/// What reading a mint returns for each outcome of the unpacking.
pub fn mint_or_error(found: Option<Mint>) -> (r: Result<Mint, Error>)
    ensures
        r == match found {
            Some(m) => Ok::<Mint, Error>(m),
            None => Err::<Mint, Error>(Error::ExpectedToken),
        },
{
    match found {
        Some(m) => Ok(m),
        None => Err(Error::ExpectedToken),
    }
}

/// The token account in `data`, or the error for bytes that hold none.
pub open spec fn token_account_deserialize_spec(data: Seq<u8>) -> Result<TokenAccount, Error> {
    match token_account_spec(data) {
        Some(t) => Ok(t),
        None => Err(Error::ExpectedAccount),
    }
}

/// The mint in `data`, or the error for bytes that hold none.
pub open spec fn mint_deserialize_spec(data: Seq<u8>) -> Result<Mint, Error> {
    match mint_spec(data) {
        Some(m) => Ok(m),
        None => Err(Error::ExpectedToken),
    }
}

impl Bridge {
    /// Reads an initialized token account.
    pub fn token_account_deserialize(info: &Account) -> (r: Result<TokenAccount, Error>)
        ensures
            r == token_account_deserialize_spec(info@.data),
    {
        let found: Option<TokenAccount> = unpack_token_account(info.data.as_slice());
        proof {
            if let Some(t) = found {
                lemma_array_of(t.mint.bytes);
                lemma_array_of(t.owner.bytes);
            }
        }
        token_account_or_error(found)
    }

    /// Reads an initialized mint.
    pub fn mint_deserialize(info: &Account) -> (r: Result<Mint, Error>)
        ensures
            r == mint_deserialize_spec(info@.data),
    {
        let found: Option<Mint> = unpack_mint(info.data.as_slice());
        proof {
            if let Some(m) = found {
                if let Some(k) = m.mint_authority {
                    lemma_array_of(k.bytes);
                }
            }
        }
        mint_or_error(found)
    }
}

/// An account that the callee may write to.
pub open spec fn writable(key: Pubkey) -> AccountMeta {
    AccountMeta { pubkey: key, is_signer: false, is_writable: true }
}

/// An account that the callee may only read.
pub open spec fn readonly(key: Pubkey, is_signer: bool) -> AccountMeta {
    AccountMeta { pubkey: key, is_signer, is_writable: false }
}

/// The further signers of a token instruction.
pub open spec fn signer_metas(signers: Seq<Pubkey>) -> Seq<AccountMeta> {
    signers.map_values(|k: Pubkey| readonly(k, true))
}

/// The data of a token instruction that carries an amount.
pub open spec fn amount_data(tag: u8, amount: u64) -> Seq<u8> {
    seq![tag] + u64_le(amount)
}

/// The token instruction with these accounts and data, where the program is
/// the token program.
pub open spec fn token_instruction(
    token_program: Pubkey,
    accounts: Seq<AccountMeta>,
    data: Seq<u8>,
) -> Option<InstructionView> {
    if token_program@ == TOKEN_PROGRAM_ID@ {
        Some(InstructionView { program_id: token_program, accounts, data })
    } else {
        None
    }
}

/// The instruction that moves `amount` tokens from `source` to `destination`.
pub open spec fn transfer_instruction(
    token_program: Pubkey,
    source: Pubkey,
    destination: Pubkey,
    authority: Pubkey,
    signers: Seq<Pubkey>,
    amount: u64,
) -> Option<InstructionView> {
    token_instruction(
        token_program,
        seq![writable(source), writable(destination), readonly(authority, signers.len() == 0)]
            + signer_metas(signers),
        amount_data(3, amount),
    )
}

/// The instruction that mints `amount` new tokens of `mint` to `account`.
pub open spec fn mint_to_instruction(
    token_program: Pubkey,
    mint: Pubkey,
    account: Pubkey,
    authority: Pubkey,
    signers: Seq<Pubkey>,
    amount: u64,
) -> Option<InstructionView> {
    token_instruction(
        token_program,
        seq![writable(mint), writable(account), readonly(authority, signers.len() == 0)]
            + signer_metas(signers),
        amount_data(7, amount),
    )
}

/// The instruction that burns `amount` tokens of `mint` held by `account`.
pub open spec fn burn_instruction(
    token_program: Pubkey,
    account: Pubkey,
    mint: Pubkey,
    authority: Pubkey,
    signers: Seq<Pubkey>,
    amount: u64,
) -> Option<InstructionView> {
    token_instruction(
        token_program,
        seq![writable(account), writable(mint), readonly(authority, signers.len() == 0)]
            + signer_metas(signers),
        amount_data(8, amount),
    )
}

/// The instruction that makes `account` a token account of `mint` owned by
/// `owner`.
pub open spec fn initialize_account_instruction(
    token_program: Pubkey,
    account: Pubkey,
    mint: Pubkey,
    owner: Pubkey,
) -> Option<InstructionView> {
    token_instruction(
        token_program,
        seq![
            writable(account),
            readonly(mint, false),
            readonly(owner, false),
            readonly(Pubkey { bytes: RENT_SYSVAR_ID }, false),
        ],
        seq![1u8],
    )
}

/// Calls `instruction::transfer` of spl_token: refused unless the program is
/// the token program; else source and destination writable, the authority a
/// signer exactly when no further signers are given, then those signers, and
/// as data the tag 3 and the amount.
#[verifier::external_body]
#[allow(deprecated)]
fn build_transfer(
    token_program: &Pubkey,
    source: &Pubkey,
    destination: &Pubkey,
    authority: &Pubkey,
    signers: &Vec<Pubkey>,
    amount: u64,
) -> (r: Option<Instruction>)
    ensures
        match r {
            Some(ix) => transfer_instruction(
                *token_program,
                *source,
                *destination,
                *authority,
                signers@,
                amount,
            ) == Some(ix@),
            None => transfer_instruction(
                *token_program,
                *source,
                *destination,
                *authority,
                signers@,
                amount,
            ) is None,
        },
{
    let key = |k: &Pubkey| TokenKey::new_from_array(k.bytes);
    let extra: Vec<TokenKey> = signers.iter().map(key).collect();
    let ix = spl_token::instruction::transfer(
        &key(token_program),
        &key(source),
        &key(destination),
        &key(authority),
        &extra.iter().collect::<Vec<_>>(),
        amount,
    ).ok()?;
    let metas = ix.accounts.iter().map(
        |m| AccountMeta { pubkey: Pubkey { bytes: m.pubkey.to_bytes() }, is_signer: m.is_signer, is_writable: m.is_writable },
    );
    Some(Instruction { program_id: Pubkey { bytes: ix.program_id.to_bytes() }, accounts: metas.collect(), data: ix.data })
}

/// Calls `instruction::mint_to` of spl_token: refused unless the program is
/// the token program; else mint and account writable, the authority a signer
/// exactly when no further signers are given, then those signers, and as data
/// the tag 7 and the amount.
#[verifier::external_body]
#[allow(deprecated)]
fn build_mint_to(
    token_program: &Pubkey,
    mint: &Pubkey,
    account: &Pubkey,
    authority: &Pubkey,
    signers: &Vec<Pubkey>,
    amount: u64,
) -> (r: Option<Instruction>)
    ensures
        match r {
            Some(ix) => mint_to_instruction(
                *token_program,
                *mint,
                *account,
                *authority,
                signers@,
                amount,
            ) == Some(ix@),
            None => mint_to_instruction(
                *token_program,
                *mint,
                *account,
                *authority,
                signers@,
                amount,
            ) is None,
        },
{
    let key = |k: &Pubkey| TokenKey::new_from_array(k.bytes);
    let extra: Vec<TokenKey> = signers.iter().map(key).collect();
    let ix = spl_token::instruction::mint_to(
        &key(token_program),
        &key(mint),
        &key(account),
        &key(authority),
        &extra.iter().collect::<Vec<_>>(),
        amount,
    ).ok()?;
    let metas = ix.accounts.iter().map(
        |m| AccountMeta { pubkey: Pubkey { bytes: m.pubkey.to_bytes() }, is_signer: m.is_signer, is_writable: m.is_writable },
    );
    Some(Instruction { program_id: Pubkey { bytes: ix.program_id.to_bytes() }, accounts: metas.collect(), data: ix.data })
}

/// Calls `instruction::burn` of spl_token: refused unless the program is the
/// token program; else account and mint writable, the authority a signer
/// exactly when no further signers are given, then those signers, and as data
/// the tag 8 and the amount.
#[verifier::external_body]
#[allow(deprecated)]
fn build_burn(
    token_program: &Pubkey,
    account: &Pubkey,
    mint: &Pubkey,
    authority: &Pubkey,
    signers: &Vec<Pubkey>,
    amount: u64,
) -> (r: Option<Instruction>)
    ensures
        match r {
            Some(ix) => burn_instruction(
                *token_program,
                *account,
                *mint,
                *authority,
                signers@,
                amount,
            ) == Some(ix@),
            None => burn_instruction(
                *token_program,
                *account,
                *mint,
                *authority,
                signers@,
                amount,
            ) is None,
        },
{
    let key = |k: &Pubkey| TokenKey::new_from_array(k.bytes);
    let extra: Vec<TokenKey> = signers.iter().map(key).collect();
    let ix = spl_token::instruction::burn(
        &key(token_program),
        &key(account),
        &key(mint),
        &key(authority),
        &extra.iter().collect::<Vec<_>>(),
        amount,
    ).ok()?;
    let metas = ix.accounts.iter().map(
        |m| AccountMeta { pubkey: Pubkey { bytes: m.pubkey.to_bytes() }, is_signer: m.is_signer, is_writable: m.is_writable },
    );
    Some(Instruction { program_id: Pubkey { bytes: ix.program_id.to_bytes() }, accounts: metas.collect(), data: ix.data })
}

/// Calls `instruction::initialize_account` of spl_token: refused unless the
/// program is the token program; else the account writable, then mint, owner
/// and the rent sysvar read-only, none a signer, and as data the tag 1.
#[verifier::external_body]
#[allow(deprecated)]
fn build_initialize_account(
    token_program: &Pubkey,
    account: &Pubkey,
    mint: &Pubkey,
    owner: &Pubkey,
) -> (r: Option<Instruction>)
    ensures
        match r {
            Some(ix) => initialize_account_instruction(*token_program, *account, *mint, *owner)
                == Some(ix@),
            None => initialize_account_instruction(*token_program, *account, *mint, *owner) is None,
        },
{
    let key = |k: &Pubkey| TokenKey::new_from_array(k.bytes);
    let ix = spl_token::instruction::initialize_account(
        &key(token_program),
        &key(account),
        &key(mint),
        &key(owner),
    ).ok()?;
    let metas = ix.accounts.iter().map(
        |m| AccountMeta { pubkey: Pubkey { bytes: m.pubkey.to_bytes() }, is_signer: m.is_signer, is_writable: m.is_writable },
    );
    Some(Instruction { program_id: Pubkey { bytes: ix.program_id.to_bytes() }, accounts: metas.collect(), data: ix.data })
}

/// What building a token instruction returns for each outcome of the builder.
pub fn instruction_or_error(built: Option<Instruction>) -> (r: Result<Instruction, Error>)
    ensures
        r == match built {
            Some(ix) => Ok::<Instruction, Error>(ix),
            None => Err::<Instruction, Error>(Error::IncorrectProgramId),
        },
{
    match built {
        Some(ix) => Ok(ix),
        None => Err(Error::IncorrectProgramId),
    }
}

/// The call of a token instruction, or the error where the instruction
/// cannot be built.
pub open spec fn token_call(
    program_id: Pubkey,
    built: Option<InstructionView>,
    accounts: Seq<AccountView>,
    seed_lists: Seq<Seq<Seq<u8>>>,
) -> Result<InvocationView, Error> {
    match built {
        Some(ix) => invoke_spec(program_id, ix, accounts, seed_lists),
        None => Err(Error::IncorrectProgramId),
    }
}

/// The call that burns wrapped tokens, authorized by the invocation's signers.
pub open spec fn wrapped_burn_spec(
    program_id: Pubkey,
    accounts: Seq<AccountView>,
    token_program: Pubkey,
    authority: Pubkey,
    token_account: Pubkey,
    mint: Pubkey,
    amount: u64,
) -> Result<InvocationView, Error> {
    token_call(
        program_id,
        burn_instruction(
            token_program,
            token_account,
            mint,
            authority,
            all_signer_keys(accounts),
            amount,
        ),
        accounts,
        Seq::empty(),
    )
}

/// The call that mints wrapped tokens, authorized by the seeds of the wrapped
/// asset.
pub open spec fn wrapped_mint_to_spec(
    program_id: Pubkey,
    accounts: Seq<AccountView>,
    token_program: Pubkey,
    bridge: Pubkey,
    chain_id: u8,
    asset: ForeignAddress,
    mint: Pubkey,
    destination: Pubkey,
    authority: Pubkey,
    amount: u64,
) -> Result<InvocationView, Error> {
    token_call(
        program_id,
        mint_to_instruction(token_program, mint, destination, authority, Seq::empty(), amount),
        accounts,
        seq![wrapped_asset_seeds(bridge, chain_id, asset)],
    )
}

/// The call that moves tokens, authorized by the invocation's signers.
pub open spec fn token_transfer_caller_spec(
    program_id: Pubkey,
    accounts: Seq<AccountView>,
    token_program: Pubkey,
    source: Pubkey,
    destination: Pubkey,
    authority: Pubkey,
    amount: u64,
) -> Result<InvocationView, Error> {
    token_call(
        program_id,
        transfer_instruction(
            token_program,
            source,
            destination,
            authority,
            all_signer_keys(accounts),
            amount,
        ),
        accounts,
        Seq::empty(),
    )
}

/// The call that moves tokens out of custody, authorized by the seeds of the
/// custody account.
pub open spec fn token_transfer_custody_spec(
    program_id: Pubkey,
    accounts: Seq<AccountView>,
    token_program: Pubkey,
    bridge: Pubkey,
    mint: Pubkey,
    source: Pubkey,
    destination: Pubkey,
    authority: Pubkey,
    amount: u64,
) -> Result<InvocationView, Error> {
    token_call(
        program_id,
        transfer_instruction(token_program, source, destination, authority, Seq::empty(), amount),
        accounts,
        seq![custody_seeds(bridge, mint)],
    )
}

/// The call that creates a token account, authorized by `new_seed`.
pub open spec fn create_token_account_spec(
    program_id: Pubkey,
    accounts: Seq<AccountView>,
    token_program: Pubkey,
    account: Pubkey,
    mint: Pubkey,
    owner: Pubkey,
    new_seed: Seq<Seq<u8>>,
) -> Result<InvocationView, Error> {
    token_call(
        program_id,
        initialize_account_instruction(token_program, account, mint, owner),
        accounts,
        seq![new_seed],
    )
}

/// A list that holds one seed list.
fn one_seed_list(seeds: Vec<Vec<u8>>) -> (r: Vec<Vec<Vec<u8>>>)
    ensures
        crate::account::seed_lists_view(r@) == seq![seeds_view(seeds@)],
{
    let mut lists: Vec<Vec<Vec<u8>>> = Vec::new();
    lists.push(seeds);
    assert(crate::account::seed_lists_view(lists@) =~= seq![seeds_view(seeds@)]);
    lists
}

/// A list that holds no seed list.
fn no_seed_list() -> (r: Vec<Vec<Vec<u8>>>)
    ensures
        crate::account::seed_lists_view(r@) == Seq::<Seq<Seq<u8>>>::empty(),
{
    let lists: Vec<Vec<Vec<u8>>> = Vec::new();
    assert(crate::account::seed_lists_view(lists@) =~= Seq::<Seq<Seq<u8>>>::empty());
    lists
}

impl Bridge {
    /// Prepares a token `Burn` instruction.
    pub fn wrapped_burn(
        program_id: &Pubkey,
        accounts: &Vec<Account>,
        token_program_id: &Pubkey,
        authority: &Pubkey,
        token_account: &Pubkey,
        mint: &Pubkey,
        amount: u64,
    ) -> (r: Result<Invocation, Error>)
        ensures
            result_view(r) == wrapped_burn_spec(
                *program_id,
                accounts_view(accounts@),
                *token_program_id,
                *authority,
                *token_account,
                *mint,
                amount,
            ),
    {
        let signers: Vec<Pubkey> = all_signers(accounts);
        let built: Option<Instruction> = build_burn(
            token_program_id,
            token_account,
            mint,
            authority,
            &signers,
            amount,
        );
        match instruction_or_error(built) {
            Ok(ix) => invoke_signed(program_id, ix, accounts, no_seed_list()),
            Err(e) => Err(e),
        }
    }

    /// Prepares a token `MintTo` instruction.
    pub fn wrapped_mint_to(
        program_id: &Pubkey,
        accounts: &Vec<Account>,
        token_program_id: &Pubkey,
        bridge: &Pubkey,
        chain_id: u8,
        asset: ForeignAddress,
        mint: &Pubkey,
        destination: &Pubkey,
        authority: &Pubkey,
        amount: u64,
    ) -> (r: Result<Invocation, Error>)
        ensures
            result_view(r) == wrapped_mint_to_spec(
                *program_id,
                accounts_view(accounts@),
                *token_program_id,
                *bridge,
                chain_id,
                asset,
                *mint,
                *destination,
                *authority,
                amount,
            ),
    {
        let signers: Vec<Pubkey> = Vec::new();
        let built: Option<Instruction> = build_mint_to(
            token_program_id,
            mint,
            destination,
            authority,
            &signers,
            amount,
        );
        assert(signers@ =~= Seq::<Pubkey>::empty());
        match instruction_or_error(built) {
            Ok(ix) => invoke_signed(
                program_id,
                ix,
                accounts,
                one_seed_list(make_wrapped_asset_seeds(bridge, chain_id, &asset)),
            ),
            Err(e) => Err(e),
        }
    }

    /// Prepares a token `Transfer` instruction on behalf of the caller.
    pub fn token_transfer_caller(
        program_id: &Pubkey,
        accounts: &Vec<Account>,
        token_program_id: &Pubkey,
        source: &Pubkey,
        destination: &Pubkey,
        authority: &Pubkey,
        amount: u64,
    ) -> (r: Result<Invocation, Error>)
        ensures
            result_view(r) == token_transfer_caller_spec(
                *program_id,
                accounts_view(accounts@),
                *token_program_id,
                *source,
                *destination,
                *authority,
                amount,
            ),
    {
        let signers: Vec<Pubkey> = all_signers(accounts);
        let built: Option<Instruction> = build_transfer(
            token_program_id,
            source,
            destination,
            authority,
            &signers,
            amount,
        );
        match instruction_or_error(built) {
            Ok(ix) => invoke_signed(program_id, ix, accounts, no_seed_list()),
            Err(e) => Err(e),
        }
    }

    /// Prepares a token `Transfer` instruction out of a custody account.
    pub fn token_transfer_custody(
        program_id: &Pubkey,
        accounts: &Vec<Account>,
        token_program_id: &Pubkey,
        bridge: &Pubkey,
        mint: &Pubkey,
        source: &Pubkey,
        destination: &Pubkey,
        authority: &Pubkey,
        amount: u64,
    ) -> (r: Result<Invocation, Error>)
        ensures
            result_view(r) == token_transfer_custody_spec(
                *program_id,
                accounts_view(accounts@),
                *token_program_id,
                *bridge,
                *mint,
                *source,
                *destination,
                *authority,
                amount,
            ),
    {
        let signers: Vec<Pubkey> = Vec::new();
        let built: Option<Instruction> = build_transfer(
            token_program_id,
            source,
            destination,
            authority,
            &signers,
            amount,
        );
        assert(signers@ =~= Seq::<Pubkey>::empty());
        match instruction_or_error(built) {
            Ok(ix) => invoke_signed(
                program_id,
                ix,
                accounts,
                one_seed_list(make_custody_seeds(bridge, mint)),
            ),
            Err(e) => Err(e),
        }
    }

    /// Prepares the creation of a token account.
    pub fn create_token_account(
        program_id: &Pubkey,
        accounts: &Vec<Account>,
        token_program: &Pubkey,
        account: &Pubkey,
        mint: &Pubkey,
        owner: &Pubkey,
        new_seed: Vec<Vec<u8>>,
    ) -> (r: Result<Invocation, Error>)
        ensures
            result_view(r) == create_token_account_spec(
                *program_id,
                accounts_view(accounts@),
                *token_program,
                *account,
                *mint,
                *owner,
                seeds_view(new_seed@),
            ),
    {
        let built: Option<Instruction> = build_initialize_account(
            token_program,
            account,
            mint,
            owner,
        );
        match instruction_or_error(built) {
            Ok(ix) => invoke_signed(program_id, ix, accounts, one_seed_list(new_seed)),
            Err(e) => Err(e),
        }
    }
}

} // verus!

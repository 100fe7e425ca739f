use spl_token::solana_program::program_option::COption;
use spl_token::solana_program::program_pack::Pack;
use wormhole_bridge::account::{Account, AccountMeta, Invocation, RoutedAccount};
use wormhole_bridge::address::make_custody_seeds;
use wormhole_bridge::error::Error;
use wormhole_bridge::hash::keccak256;
use wormhole_bridge::inbound::{CheckedVaa, InboundFacts, VaaFacts};
use wormhole_bridge::instruction::TransferOutPayload;
use wormhole_bridge::keys::{Clock, Pubkey, RawKey, Signature, CHAIN_ID_SOLANA};
use wormhole_bridge::outbound::{is_bridge_issued, NativeOutFacts, TransferOutFacts};
use wormhole_bridge::processor::{store, InitializeFacts};
use wormhole_bridge::state::{
    AssetMeta, Bridge, BridgeConfig, ClaimedVAA, GuardianSet, Record, TransferOutProposal,
};
use wormhole_bridge::token::{Mint, TokenAccount, TOKEN_PROGRAM_ID};
use wormhole_bridge::vaa::{BodyTransfer, BodyUpdateGuardianSet, VAABody, VAA};

const WINDOW: u32 = 100;

fn key(n: u8) -> Pubkey {
    Pubkey { bytes: [n; 32] }
}

fn token_program() -> Pubkey {
    Pubkey { bytes: TOKEN_PROGRAM_ID }
}

fn guardian(n: u8) -> RawKey {
    RawKey { x: [n; 32], y_parity: n % 2 == 1 }
}

fn config() -> BridgeConfig {
    BridgeConfig { vaa_expiration_time: WINDOW, token_program: token_program() }
}

fn clock(now: i64, slot: u64) -> Clock {
    Clock { slot, unix_timestamp: now }
}

fn account(k: Pubkey, data: Vec<u8>) -> Account {
    Account { key: k, is_signer: false, data }
}

fn signer(k: Pubkey) -> Account {
    Account { key: k, is_signer: true, data: vec![] }
}

/// The signature scheme of these tests: a signature is valid where its first
/// half is the key masked with the digest. The second half is free.
fn accepts(k: RawKey, digest: [u8; 32], s: Signature) -> bool {
    (0..32).all(|i| s.bytes[i] == k.x[i] ^ digest[i])
}

fn sign(k: &RawKey, payload: &[u8], nonce: u8) -> [u8; 64] {
    let digest = keccak256(payload);
    let mut s = [nonce; 64];
    for i in 0..32 {
        s[i] = k.x[i] ^ digest[i];
    }
    s
}

fn spl_key(k: &Pubkey) -> spl_token::solana_program::pubkey::Pubkey {
    spl_token::solana_program::pubkey::Pubkey::new_from_array(k.bytes)
}

#[allow(deprecated)]
fn token_account_bytes(mint: &Pubkey, owner: &Pubkey, amount: u64) -> Vec<u8> {
    let account = spl_token::state::Account {
        mint: spl_key(mint),
        owner: spl_key(owner),
        amount,
        delegate: COption::None,
        state: spl_token::state::AccountState::Initialized,
        is_native: COption::None,
        delegated_amount: 0,
        close_authority: COption::None,
    };
    let mut data = vec![0u8; 165];
    account.pack_into_slice(&mut data);
    data
}

#[allow(deprecated)]
fn mint_bytes(authority: Option<&Pubkey>) -> Vec<u8> {
    let mint = spl_token::state::Mint {
        mint_authority: match authority {
            Some(k) => COption::Some(spl_key(k)),
            None => COption::None,
        },
        supply: 1_000_000,
        decimals: 6,
        is_initialized: true,
        freeze_authority: COption::None,
    };
    let mut data = vec![0u8; 82];
    mint.pack_into_slice(&mut data);
    data
}

/// A deployment of the bridge: a program id under which the bridge and its
/// first two guardian sets have addresses.
struct World {
    program: Pubkey,
    bridge: Pubkey,
    set0: Pubkey,
    set1: Pubkey,
}

fn world() -> World {
    for n in 3..=255u8 {
        let program = key(n);
        let bridge = match Bridge::derive_bridge_id(&program) {
            Ok(k) => k,
            Err(_) => continue,
        };
        let set0 = match Bridge::derive_guardian_set_id(&program, &bridge, 0) {
            Ok(k) => k,
            Err(_) => continue,
        };
        let set1 = match Bridge::derive_guardian_set_id(&program, &bridge, 1) {
            Ok(k) => k,
            Err(_) => continue,
        };
        return World { program, bridge, set0, set1 };
    }
    panic!("no program id fits");
}

/// A program id under which the bridge has no address.
fn program_without_bridge() -> Pubkey {
    for n in 0..=255u8 {
        if Bridge::derive_bridge_id(&key(n)).is_err() {
            return key(n);
        }
    }
    panic!("every program id fits");
}

fn initialize_input(k: &RawKey, c: &BridgeConfig) -> Vec<u8> {
    let mut input = vec![0u8];
    input.extend_from_slice(&k.x);
    input.push(k.y_parity as u8);
    input.extend_from_slice(&c.vaa_expiration_time.to_le_bytes());
    input.extend_from_slice(&c.token_program.bytes);
    input
}

fn transfer_out_input(t: &TransferOutPayload) -> Vec<u8> {
    let mut input = vec![1u8];
    input.extend_from_slice(&t.amount.to_le_bytes());
    input.push(t.chain_id);
    input.extend_from_slice(&t.target);
    input.push(t.asset.chain);
    input.extend_from_slice(&t.asset.address);
    input
}

fn post_vaa_input(message: &[u8]) -> Vec<u8> {
    let mut input = vec![2u8];
    input.extend_from_slice(message);
    input.resize(201, 0);
    input
}

fn update_payload(new_index: u32, new_key: &RawKey) -> Vec<u8> {
    let mut payload = vec![1u8];
    payload.extend_from_slice(&new_index.to_le_bytes());
    payload.extend_from_slice(&new_key.x);
    payload.push(new_key.y_parity as u8);
    payload
}

fn transfer_payload(b: &BodyTransfer) -> Vec<u8> {
    let mut payload = vec![2u8];
    payload.extend_from_slice(&b.amount.to_le_bytes());
    payload.push(b.chain_id);
    payload.extend_from_slice(&b.target_address);
    payload.push(b.asset.chain);
    payload.extend_from_slice(&b.asset.address);
    payload
}

fn message(index: u32, signature: &[u8; 64], payload: &[u8]) -> Vec<u8> {
    let mut data = vec![(69 + payload.len()) as u8];
    data.extend_from_slice(&index.to_le_bytes());
    data.extend_from_slice(signature);
    data.extend_from_slice(payload);
    data
}

/// A message signed with `k` whose claim record has an address, and that
/// address.
fn signed_message(w: &World, index: u32, k: &RawKey, payload: &[u8]) -> (Vec<u8>, Pubkey) {
    for nonce in 0..=255u8 {
        let data = message(index, &sign(k, payload, nonce), payload);
        if let Ok(claim) = Bridge::derive_claim(&w.program, &w.bridge, &keccak256(&data)) {
            return (data, claim);
        }
    }
    panic!("no nonce fits");
}

fn initialized(w: &World, now: i64) -> (Account, Account) {
    let mut accounts = vec![account(w.bridge, vec![0; 41]), account(w.set0, vec![0; 46])];
    let calls = Bridge::process(
        &w.program,
        &mut accounts,
        &initialize_input(&guardian(10), &config()),
        &clock(now, 1),
        accepts,
    )
    .unwrap();
    assert!(calls.is_empty());
    let set0 = accounts.pop().unwrap();
    let bridge = accounts.pop().unwrap();
    (bridge, set0)
}

/// The bridge after its guardian set 0 (key 10) was superseded at time 2000
/// by set 1 (key 11): accounts of the bridge, set 0 and set 1.
fn rotated(w: &World) -> (Account, Account, Account) {
    let (bridge, set0) = initialized(w, 1000);
    let (data, claim) = signed_message(w, 0, &guardian(10), &update_payload(1, &guardian(11)));
    let mut accounts =
        vec![bridge, set0, account(claim, vec![0; 37]), account(w.set1, vec![0; 46])];
    let calls =
        Bridge::process(&w.program, &mut accounts, &post_vaa_input(&data), &clock(2000, 2), accepts)
            .unwrap();
    assert!(calls.is_empty());
    let set1 = accounts.pop().unwrap();
    accounts.pop();
    let set0 = accounts.pop().unwrap();
    let bridge = accounts.pop().unwrap();
    (bridge, set0, set1)
}

/// An inbound transfer of a wrapped asset: the payload and the accounts 3 to
/// 5 that go with it.
fn wrapped_inbound(w: &World, amount: u64) -> (BodyTransfer, Vec<Account>) {
    for n in 0..=255u8 {
        let asset = AssetMeta { address: [n; 32], chain: 2 };
        if let Ok(mint) = Bridge::derive_wrapped_asset_id(&w.program, &w.bridge, 2, asset.address)
        {
            let recipient = key(77);
            let body =
                BodyTransfer { amount, chain_id: CHAIN_ID_SOLANA, target_address: recipient.bytes, asset };
            let accounts = vec![
                account(mint, mint_bytes(Some(&w.program))),
                account(key(2), vec![]),
                account(recipient, token_account_bytes(&mint, &key(78), 0)),
            ];
            return (body, accounts);
        }
    }
    panic!("no asset fits");
}

/// A mint of the local chain whose custody account has an address, and that
/// address.
fn native_mint(w: &World) -> (Pubkey, Pubkey) {
    for n in 100..=255u8 {
        if let Ok(custody) = Bridge::derive_custody(&w.program, &w.bridge, &key(n)) {
            return (key(n), custody);
        }
    }
    panic!("no mint fits");
}

/// A transfer out of a native asset: the payload, the clock and the accounts.
/// The custody account does not exist yet.
fn native_outbound(w: &World, amount: u64) -> (TransferOutPayload, Clock, Vec<Account>) {
    let (bridge, _) = initialized(w, 1000);
    let (mint, custody) = native_mint(w);
    let user = key(60);
    let sender_account = key(61);
    let t = TransferOutPayload {
        amount,
        chain_id: 2,
        asset: AssetMeta { address: mint.bytes, chain: CHAIN_ID_SOLANA },
        target: [9; 32],
    };
    for slot in 0..1000u64 {
        if let Ok(proposal) = Bridge::derive_transfer_id(
            &w.program,
            t.asset.chain,
            t.asset.address,
            t.chain_id,
            t.target,
            user,
            slot,
        ) {
            let accounts = vec![
                account(sender_account, token_account_bytes(&mint, &user, 5000)),
                bridge,
                account(proposal, vec![0; 279]),
                account(mint, mint_bytes(Some(&key(62)))),
                account(custody, vec![]),
                signer(user),
            ];
            return (t, clock(3000, slot), accounts);
        }
    }
    panic!("no slot fits");
}

/// A transfer out of a wrapped asset: the payload, the clock and the accounts.
fn wrapped_outbound(w: &World, amount: u64) -> (TransferOutPayload, Clock, Vec<Account>) {
    let (bridge, _) = initialized(w, 1000);
    let user = key(60);
    let sender_account = key(61);
    for n in 0..=255u8 {
        let asset = AssetMeta { address: [n; 32], chain: 2 };
        let mint = match Bridge::derive_wrapped_asset_id(&w.program, &w.bridge, 2, asset.address) {
            Ok(k) => k,
            Err(_) => continue,
        };
        let t = TransferOutPayload { amount, chain_id: 2, asset, target: [9; 32] };
        for slot in 0..1000u64 {
            if let Ok(proposal) = Bridge::derive_transfer_id(
                &w.program,
                t.asset.chain,
                t.asset.address,
                t.chain_id,
                t.target,
                user,
                slot,
            ) {
                let accounts = vec![
                    account(sender_account, token_account_bytes(&mint, &user, 5000)),
                    bridge,
                    account(proposal, vec![0; 279]),
                    account(mint, mint_bytes(Some(&w.program))),
                    signer(user),
                ];
                return (t, clock(3000, slot), accounts);
            }
        }
    }
    panic!("no asset fits");
}

fn meta(k: Pubkey, is_signer: bool, is_writable: bool) -> AccountMeta {
    AccountMeta { pubkey: k, is_signer, is_writable }
}

/// Runs an instruction that must fail, and checks that it left the accounts
/// as they were.
fn fails(w: &World, mut accounts: Vec<Account>, input: &[u8], c: &Clock) -> Error {
    let before = accounts.clone();
    let r = Bridge::process(&w.program, &mut accounts, input, c, accepts);
    assert_eq!(accounts, before);
    r.unwrap_err()
}

#[test]
fn initialize_creates_bridge_and_first_guardian_set() {
    let w = world();
    let (bridge, set0) = initialized(&w, 1000);
    assert_eq!(bridge.key, w.bridge);
    assert_eq!(set0.key, w.set0);
    assert_eq!(
        Bridge::bridge_deserialize(&bridge),
        Ok(Bridge { guardian_set_index: 0, config: config(), is_initialized: true })
    );
    assert_eq!(
        Bridge::guardian_set_deserialize(&set0),
        Ok(GuardianSet {
            index: 0,
            pubkey: guardian(10),
            creation_time: 1000,
            expiration_time: 0,
            is_initialized: true,
        })
    );
}

#[test]
fn initialize_fails_in_the_order_of_its_checks() {
    let w = world();
    let input = initialize_input(&guardian(10), &config());
    let fresh = || vec![account(w.bridge, vec![0; 41]), account(w.set0, vec![0; 46])];
    let now = clock(1000, 1);

    assert_eq!(fails(&w, vec![account(w.bridge, vec![0; 41])], &input, &now), Error::NotEnoughAccountKeys);
    assert_eq!(fails(&w, fresh(), &input, &clock(-1, 1)), Error::TimeOutOfRange);
    assert_eq!(fails(&w, fresh(), &input, &clock(1 << 32, 1)), Error::TimeOutOfRange);

    let mut accounts = fresh();
    accounts[0].data = vec![0; 40];
    assert_eq!(fails(&w, accounts, &input, &now), Error::InvalidAccountData);

    let (bridge, set0) = initialized(&w, 1000);
    assert_eq!(fails(&w, vec![bridge, set0.clone()], &input, &now), Error::AlreadyExists);

    let mut accounts = fresh();
    accounts[0].key = key(200);
    assert_eq!(fails(&w, accounts, &input, &now), Error::InvalidDerivedAccount);

    let mut accounts = fresh();
    accounts[1].key = w.set1;
    assert_eq!(fails(&w, accounts, &input, &now), Error::InvalidDerivedAccount);

    let mut accounts = fresh();
    accounts[1].data = vec![0; 47];
    assert_eq!(fails(&w, accounts, &input, &now), Error::InvalidAccountData);

    let mut accounts = fresh();
    accounts[1] = set0;
    assert_eq!(fails(&w, accounts, &input, &now), Error::AlreadyExists);

    assert_eq!(fails(&w, fresh(), &input[..69], &now), Error::ParseFailed);
}

#[test]
fn initialize_needs_a_derivable_bridge_address() {
    let program = program_without_bridge();
    let mut accounts = vec![account(key(1), vec![0; 41]), account(key(2), vec![0; 46])];
    let before = accounts.clone();
    let r = Bridge::process_initialize(&program, &mut accounts, guardian(10), config(), &clock(5, 1));
    assert_eq!(r, Err(Error::InvalidProgramAddress));
    assert_eq!(accounts, before);
}

#[test]
fn initialize_decides_on_the_facts_given() {
    let accounts = vec![account(key(1), vec![0; 41]), account(key(2), vec![0; 46])];
    let facts = InitializeFacts { bridge_key: Ok(key(1)), guardian_set_key: Ok(key(2)) };
    let r = Bridge::initialize_with(&accounts, guardian(10), config(), &clock(5, 1), facts);
    assert_eq!(r, Ok(Bridge::genesis(guardian(10), config(), 5)));
    let facts = InitializeFacts { bridge_key: Ok(key(1)), guardian_set_key: Ok(key(3)) };
    let r = Bridge::initialize_with(&accounts, guardian(10), config(), &clock(5, 1), facts);
    assert_eq!(r, Err(Error::InvalidDerivedAccount));
    let facts = InitializeFacts {
        bridge_key: Err(Error::InvalidProgramAddress),
        guardian_set_key: Ok(key(2)),
    };
    let r = Bridge::initialize_with(&accounts, guardian(10), config(), &clock(5, 1), facts);
    assert_eq!(r, Err(Error::InvalidProgramAddress));
}

#[test]
fn store_replaces_one_accounts_data() {
    let mut accounts = vec![account(key(1), vec![1, 2]), account(key(2), vec![3])];
    let claim = ClaimedVAA { hash: [4; 32], vaa_time: 9, is_initialized: true };
    store(&mut accounts, 1, &claim);
    assert_eq!(accounts, vec![account(key(1), vec![1, 2]), account(key(2), claim.pack())]);
}

#[test]
fn guardian_set_update_rotates_and_old_set_expires_after_the_window() {
    let w = world();
    let (bridge, set0, set1) = rotated(&w);
    assert_eq!(Bridge::bridge_deserialize(&bridge).unwrap().guardian_set_index, 1);
    assert_eq!(
        Bridge::guardian_set_deserialize(&set0),
        Ok(GuardianSet {
            index: 0,
            pubkey: guardian(10),
            creation_time: 1000,
            expiration_time: 2000 + WINDOW,
            is_initialized: true,
        })
    );
    assert_eq!(
        Bridge::guardian_set_deserialize(&set1),
        Ok(GuardianSet {
            index: 1,
            pubkey: guardian(11),
            creation_time: 2000,
            expiration_time: 0,
            is_initialized: true,
        })
    );

    // A message that the old set signed is still applied just before the
    // window ends.
    let (body, mut rest) = wrapped_inbound(&w, 77);
    let (data, claim) = signed_message(&w, 0, &guardian(10), &transfer_payload(&body));
    let mut accounts = vec![bridge, set0, account(claim, vec![0; 37])];
    accounts.append(&mut rest);
    let early = accounts.clone();
    let calls = Bridge::process(
        &w.program,
        &mut accounts,
        &post_vaa_input(&data),
        &clock(2000 + WINDOW as i64 - 1, 3),
        accepts,
    )
    .unwrap();
    assert_eq!(calls.len(), 1);
    assert_eq!(
        Bridge::unpack::<ClaimedVAA>(&accounts[2].data),
        Ok(ClaimedVAA { hash: keccak256(&data), vaa_time: 2000 + WINDOW - 1, is_initialized: true })
    );

    // Just after it, the same message is refused.
    let late = clock(2000 + WINDOW as i64 + 1, 4);
    assert_eq!(fails(&w, early, &post_vaa_input(&data), &late), Error::GuardianSetExpired);
    assert_eq!(fails(&w, accounts, &post_vaa_input(&data), &late), Error::GuardianSetExpired);
}

#[test]
fn message_is_accepted_at_the_expiration_time_itself() {
    let w = world();
    let (bridge, set0, _) = rotated(&w);
    let (body, mut rest) = wrapped_inbound(&w, 1);
    let (data, claim) = signed_message(&w, 0, &guardian(10), &transfer_payload(&body));
    let mut accounts = vec![bridge, set0, account(claim, vec![0; 37])];
    accounts.append(&mut rest);
    let r = Bridge::process(
        &w.program,
        &mut accounts,
        &post_vaa_input(&data),
        &clock(2000 + WINDOW as i64, 3),
        accepts,
    );
    assert!(r.is_ok());
}

#[test]
fn active_guardian_set_never_expires() {
    let w = world();
    let (bridge, _, set1) = rotated(&w);
    let (body, mut rest) = wrapped_inbound(&w, 1);
    let (data, claim) = signed_message(&w, 1, &guardian(11), &transfer_payload(&body));
    let mut accounts = vec![bridge, set1, account(claim, vec![0; 37])];
    accounts.append(&mut rest);
    let r = Bridge::process(
        &w.program,
        &mut accounts,
        &post_vaa_input(&data),
        &clock(u32::MAX as i64, 3),
        accepts,
    );
    assert!(r.is_ok());
}

#[test]
fn guardian_set_update_cannot_be_replayed() {
    let w = world();
    let (bridge, set0) = initialized(&w, 1000);
    let (data, claim) = signed_message(&w, 0, &guardian(10), &update_payload(1, &guardian(11)));
    let mut accounts =
        vec![bridge, set0, account(claim, vec![0; 37]), account(w.set1, vec![0; 46])];
    let input = post_vaa_input(&data);
    assert!(Bridge::process(&w.program, &mut accounts, &input, &clock(2000, 2), accepts).is_ok());
    assert_eq!(fails(&w, accounts.clone(), &input, &clock(2001, 3)), Error::OldGuardianSet);
    assert_eq!(
        ClaimedVAA::claim(Bridge::unpack_unchecked::<ClaimedVAA>(&accounts[2].data), &[0; 32], 1),
        Err(Error::VAAClaimed)
    );
}

#[test]
fn guardian_set_update_fails_in_the_order_of_its_checks() {
    let w = world();
    let (bridge, set0) = initialized(&w, 1000);
    let now = clock(2000, 2);
    let base = |data: &Vec<u8>| {
        let claim = Bridge::derive_claim(&w.program, &w.bridge, &keccak256(data)).unwrap();
        vec![bridge.clone(), set0.clone(), account(claim, vec![0; 37]), account(w.set1, vec![0; 46])]
    };

    let (data, _) = signed_message(&w, 0, &guardian(10), &update_payload(1, &guardian(11)));
    let input = post_vaa_input(&data);
    assert_eq!(fails(&w, base(&data)[..2].to_vec(), &input, &now), Error::NotEnoughAccountKeys);
    assert_eq!(fails(&w, base(&data)[..3].to_vec(), &input, &now), Error::NotEnoughAccountKeys);

    let mut accounts = base(&data);
    accounts[0].key = key(203);
    assert_eq!(fails(&w, accounts, &input, &now), Error::InvalidDerivedAccount);

    let mut accounts = base(&data);
    accounts[0].data = vec![0; 41];
    assert_eq!(fails(&w, accounts, &input, &now), Error::ExpectedBridge);

    assert_eq!(fails(&w, base(&data), &input, &clock(-5, 2)), Error::TimeOutOfRange);

    let mut accounts = base(&data);
    accounts[1].data = vec![0; 46];
    assert_eq!(fails(&w, accounts, &input, &now), Error::ExpectedGuardianSet);

    let mut accounts = base(&data);
    accounts[1].key = w.set1;
    assert_eq!(fails(&w, accounts, &input, &now), Error::InvalidDerivedAccount);

    let mut accounts = base(&data);
    accounts[2].key = key(201);
    assert_eq!(fails(&w, accounts, &input, &now), Error::InvalidDerivedAccount);

    let (forged, _) = signed_message(&w, 0, &guardian(12), &update_payload(1, &guardian(11)));
    assert_eq!(
        fails(&w, base(&forged), &post_vaa_input(&forged), &now),
        Error::InvalidVAASignature
    );

    let (same_index, _) = signed_message(&w, 0, &guardian(10), &update_payload(0, &guardian(11)));
    assert_eq!(
        fails(&w, base(&same_index), &post_vaa_input(&same_index), &now),
        Error::GuardianIndexNotIncreasing
    );

    let (skipping, _) = signed_message(&w, 0, &guardian(10), &update_payload(2, &guardian(11)));
    let mut accounts = base(&skipping);
    if let Ok(set2) = Bridge::derive_guardian_set_id(&w.program, &w.bridge, 2) {
        accounts[3].key = set2;
    }
    assert_eq!(
        fails(&w, accounts, &post_vaa_input(&skipping), &now),
        Error::GuardianIndexNotIncreasing
    );

    assert_eq!(
        fails(&w, base(&data), &input, &clock(u32::MAX as i64 - WINDOW as i64 + 1, 2)),
        Error::TimeOutOfRange
    );

    let mut accounts = base(&data);
    accounts[3].key = key(202);
    assert_eq!(fails(&w, accounts, &input, &now), Error::InvalidDerivedAccount);

    let mut accounts = base(&data);
    accounts[3].data = vec![0; 45];
    assert_eq!(fails(&w, accounts, &input, &now), Error::InvalidAccountData);

    let mut accounts = base(&data);
    accounts[3].data = set0.data.clone();
    assert_eq!(fails(&w, accounts, &input, &now), Error::AlreadyExists);

    let mut accounts = base(&data);
    accounts[2].data = vec![0; 36];
    assert_eq!(fails(&w, accounts, &input, &now), Error::InvalidAccountData);

    let mut accounts = base(&data);
    accounts[2].data = ClaimedVAA { hash: [0; 32], vaa_time: 1, is_initialized: true }.pack();
    assert_eq!(fails(&w, accounts, &input, &now), Error::VAAClaimed);
}

#[test]
fn message_signed_by_a_superseded_set_cannot_rotate() {
    let w = world();
    let (bridge, set0, _) = rotated(&w);
    let set2 = match Bridge::derive_guardian_set_id(&w.program, &w.bridge, 2) {
        Ok(k) => k,
        Err(_) => key(0),
    };
    let (data, claim) = signed_message(&w, 0, &guardian(10), &update_payload(2, &guardian(12)));
    let accounts = vec![bridge, set0, account(claim, vec![0; 37]), account(set2, vec![0; 46])];
    assert_eq!(fails(&w, accounts, &post_vaa_input(&data), &clock(2050, 3)), Error::OldGuardianSet);
}

#[test]
fn message_with_unknown_payload_is_no_action() {
    let w = world();
    let (bridge, set0) = initialized(&w, 1000);
    let (data, claim) = signed_message(&w, 0, &guardian(10), &[0x63, 1, 2, 3]);
    let accounts = vec![bridge, set0, account(claim, vec![0; 37])];
    assert_eq!(fails(&w, accounts, &post_vaa_input(&data), &clock(2000, 2)), Error::InvalidVAAAction);
}

#[test]
fn post_vaa_must_carry_a_whole_message() {
    let w = world();
    let (bridge, set0) = initialized(&w, 1000);
    let accounts = vec![bridge, set0, account(key(1), vec![0; 37])];
    let mut input = vec![2u8];
    input.resize(201, 0);
    assert_eq!(fails(&w, accounts.clone(), &input, &clock(2000, 2)), Error::ParseFailed);
    input[1] = 201;
    assert_eq!(fails(&w, accounts.clone(), &input, &clock(2000, 2)), Error::ParseFailed);
    input[1] = 200;
    input[70] = 1;
    assert_eq!(fails(&w, accounts, &input, &clock(2000, 2)), Error::ParseFailed);
}

#[test]
fn inbound_wrapped_transfer_mints_to_the_recipient() {
    let w = world();
    let (bridge, set0) = initialized(&w, 1000);
    let (body, mut rest) = wrapped_inbound(&w, 77);
    let mint = rest[0].key;
    let recipient = rest[2].key;
    let (data, claim) = signed_message(&w, 0, &guardian(10), &transfer_payload(&body));
    let mut accounts = vec![bridge, set0, account(claim, vec![0; 37])];
    accounts.append(&mut rest);
    let before = accounts.clone();
    let input = post_vaa_input(&data);
    let calls = Bridge::process(&w.program, &mut accounts, &input, &clock(2000, 2), accepts).unwrap();
    assert_eq!(calls.len(), 1);
    assert_eq!(calls[0].instruction.program_id, token_program());
    assert_eq!(
        calls[0].instruction.accounts,
        vec![meta(mint, false, true), meta(recipient, false, true), meta(w.program, true, false)]
    );
    assert_eq!(calls[0].instruction.data, vec![7, 77, 0, 0, 0, 0, 0, 0, 0]);
    assert_eq!(
        calls[0].accounts,
        vec![
            RoutedAccount { index: 3, is_signer: true },
            RoutedAccount { index: 5, is_signer: false },
        ]
    );
    for i in [0, 1, 3, 4, 5] {
        assert_eq!(accounts[i], before[i]);
    }
    assert_eq!(
        Bridge::unpack::<ClaimedVAA>(&accounts[2].data),
        Ok(ClaimedVAA { hash: keccak256(&data), vaa_time: 2000, is_initialized: true })
    );

    // The same message a second time is refused as claimed.
    assert_eq!(fails(&w, accounts, &input, &clock(2001, 3)), Error::VAAClaimed);
}

#[test]
fn inbound_native_transfer_releases_from_custody() {
    let w = world();
    let (bridge, set0) = initialized(&w, 1000);
    let (mint, custody) = native_mint(&w);
    let recipient = key(77);
    let body = BodyTransfer {
        amount: 300,
        chain_id: CHAIN_ID_SOLANA,
        target_address: recipient.bytes,
        asset: AssetMeta { address: mint.bytes, chain: CHAIN_ID_SOLANA },
    };
    let (data, claim) = signed_message(&w, 0, &guardian(10), &transfer_payload(&body));
    let mut accounts = vec![
        bridge,
        set0,
        account(claim, vec![0; 37]),
        account(mint, mint_bytes(Some(&key(62)))),
        account(custody, token_account_bytes(&mint, &custody, 1000)),
        account(recipient, token_account_bytes(&mint, &key(78), 0)),
    ];
    let input = post_vaa_input(&data);
    let calls = Bridge::process(&w.program, &mut accounts, &input, &clock(2000, 2), accepts).unwrap();
    assert_eq!(calls.len(), 1);
    assert_eq!(
        calls[0].instruction.accounts,
        vec![meta(custody, false, true), meta(recipient, false, true), meta(custody, true, false)]
    );
    assert_eq!(calls[0].instruction.data, vec![3, 0x2c, 1, 0, 0, 0, 0, 0, 0]);
    assert_eq!(
        calls[0].accounts,
        vec![
            RoutedAccount { index: 4, is_signer: true },
            RoutedAccount { index: 5, is_signer: false },
            RoutedAccount { index: 4, is_signer: true },
        ]
    );
    assert_eq!(calls[0].signers_seeds, vec![make_custody_seeds(&w.bridge, &mint)]);
    assert_eq!(fails(&w, accounts, &input, &clock(2001, 3)), Error::VAAClaimed);
}

#[test]
fn inbound_transfer_fails_in_the_order_of_its_checks() {
    let w = world();
    let (bridge, set0) = initialized(&w, 1000);
    let now = clock(2000, 2);
    let run = |body: &BodyTransfer, rest: Vec<Account>| {
        let (data, claim) = signed_message(&w, 0, &guardian(10), &transfer_payload(body));
        let mut accounts = vec![bridge.clone(), set0.clone(), account(claim, vec![0; 37])];
        accounts.extend(rest);
        fails(&w, accounts, &post_vaa_input(&data), &now)
    };

    let (body, rest) = wrapped_inbound(&w, 77);
    assert_eq!(run(&body, rest[..2].to_vec()), Error::NotEnoughAccountKeys);

    let mut elsewhere = body;
    elsewhere.chain_id = 2;
    assert_eq!(run(&elsewhere, rest.clone()), Error::InvalidVAAAction);

    let mut accounts = rest.clone();
    accounts[2].data = vec![];
    assert_eq!(run(&body, accounts), Error::ExpectedAccount);

    let mut accounts = rest.clone();
    accounts[2].key = key(79);
    assert_eq!(run(&body, accounts), Error::InvalidDerivedAccount);

    let mut accounts = rest.clone();
    accounts[0].data = vec![0; 82];
    assert_eq!(run(&body, accounts), Error::ExpectedToken);

    let mut accounts = rest.clone();
    accounts[2].data = token_account_bytes(&key(80), &key(78), 0);
    assert_eq!(run(&body, accounts), Error::TokenMintMismatch);

    let mut accounts = rest.clone();
    accounts[0].data = mint_bytes(Some(&key(62)));
    assert_eq!(run(&body, accounts), Error::WrongMintOwner);

    let mut accounts = rest.clone();
    accounts[0].data = mint_bytes(None);
    assert_eq!(run(&body, accounts), Error::WrongMintOwner);

    let mut accounts = rest.clone();
    accounts[0].key = key(81);
    accounts[2].data = token_account_bytes(&key(81), &key(78), 0);
    assert_eq!(run(&body, accounts), Error::InvalidDerivedAccount);

    // The same for an asset of the local chain.
    let (mint, custody) = native_mint(&w);
    let recipient = key(77);
    let native = BodyTransfer {
        amount: 300,
        chain_id: CHAIN_ID_SOLANA,
        target_address: recipient.bytes,
        asset: AssetMeta { address: mint.bytes, chain: CHAIN_ID_SOLANA },
    };
    let rest = vec![
        account(mint, mint_bytes(Some(&key(62)))),
        account(custody, token_account_bytes(&mint, &custody, 1000)),
        account(recipient, token_account_bytes(&mint, &key(78), 0)),
    ];

    let mut other_asset = native;
    other_asset.asset.address = [1; 32];
    assert_eq!(run(&other_asset, rest.clone()), Error::TokenMintMismatch);

    let mut accounts = rest.clone();
    accounts[0].data = mint_bytes(Some(&w.program));
    assert_eq!(run(&native, accounts), Error::WrongMintOwner);

    let mut accounts = rest.clone();
    accounts[1].key = key(82);
    assert_eq!(run(&native, accounts), Error::InvalidDerivedAccount);

    let mut accounts = rest.clone();
    accounts[1].data = vec![];
    assert_eq!(run(&native, accounts), Error::ExpectedAccount);

    let mut accounts = rest.clone();
    accounts[1].data = token_account_bytes(&mint, &key(83), 1000);
    assert_eq!(run(&native, accounts), Error::WrongTokenAccountOwner);
}

#[test]
fn inbound_transfer_needs_the_token_program() {
    let w = world();
    let mut accounts = vec![account(w.bridge, vec![0; 41]), account(w.set0, vec![0; 46])];
    let other = BridgeConfig { vaa_expiration_time: WINDOW, token_program: key(90) };
    Bridge::process_initialize(&w.program, &mut accounts, guardian(10), other, &clock(1000, 1)).unwrap();
    let (body, mut rest) = wrapped_inbound(&w, 77);
    let (data, claim) = signed_message(&w, 0, &guardian(10), &transfer_payload(&body));
    accounts.push(account(claim, vec![0; 37]));
    accounts.append(&mut rest);
    assert_eq!(fails(&w, accounts, &post_vaa_input(&data), &clock(2000, 2)), Error::IncorrectProgramId);
}

#[test]
fn native_transfer_out_creates_custody_and_proposal_once() {
    let w = world();
    let (t, c, mut accounts) = native_outbound(&w, 1000);
    let before = accounts.clone();
    let sender_account = accounts[0].key;
    let mint = accounts[3].key;
    let custody = accounts[4].key;
    let user = accounts[5].key;
    let input = transfer_out_input(&t);

    let calls = Bridge::process(&w.program, &mut accounts, &input, &c, accepts).unwrap();
    assert_eq!(calls.len(), 2);
    assert_eq!(calls[0].instruction.data, vec![1]);
    assert_eq!(calls[0].instruction.accounts[0], meta(custody, false, true));
    assert_eq!(calls[0].instruction.accounts[1], meta(mint, false, false));
    assert_eq!(calls[0].instruction.accounts[2], meta(custody, false, false));
    assert_eq!(
        calls[0].accounts,
        vec![
            RoutedAccount { index: 4, is_signer: true },
            RoutedAccount { index: 3, is_signer: false },
            RoutedAccount { index: 4, is_signer: true },
        ]
    );
    assert_eq!(calls[0].signers_seeds, vec![make_custody_seeds(&w.bridge, &mint)]);
    assert_eq!(
        calls[1].instruction.accounts,
        vec![
            meta(sender_account, false, true),
            meta(custody, false, true),
            meta(user, false, false),
            meta(user, true, false),
        ]
    );
    assert_eq!(calls[1].instruction.data, vec![3, 0xe8, 3, 0, 0, 0, 0, 0, 0]);
    assert!(calls[1].signers_seeds.is_empty());

    for i in [0, 1, 3, 4, 5] {
        assert_eq!(accounts[i], before[i]);
    }
    let proposal = Bridge::unpack::<TransferOutProposal>(&accounts[2].data).unwrap();
    assert_eq!(proposal.amount, 1000);
    assert_eq!(proposal.to_chain_id, 2);
    assert_eq!(proposal.foreign_address, [9; 32]);
    assert_eq!(proposal.asset, AssetMeta { address: mint.bytes, chain: CHAIN_ID_SOLANA });
    assert!(proposal.is_initialized);

    // The same transfer a second time meets its own proposal.
    accounts[4].data = token_account_bytes(&mint, &custody, 1000);
    assert_eq!(fails(&w, accounts, &input, &c), Error::AlreadyExists);
}

#[test]
fn native_transfer_out_into_existing_custody_only_locks() {
    let w = world();
    let (t, c, mut accounts) = native_outbound(&w, 1000);
    let mint = accounts[3].key;
    let custody = accounts[4].key;
    accounts[4].data = token_account_bytes(&mint, &custody, 50);
    let calls = Bridge::process_transfer_native_out(&w.program, &mut accounts, &t, &c).unwrap();
    assert_eq!(calls.len(), 1);
    assert_eq!(calls[0].instruction.data, vec![3, 0xe8, 3, 0, 0, 0, 0, 0, 0]);
}

#[test]
fn native_transfer_out_names_the_asset_by_its_mint() {
    let w = world();
    let (mut t, c, mut accounts) = native_outbound(&w, 5);
    let mint = accounts[3].key;
    t.asset = AssetMeta { address: [0xee; 32], chain: CHAIN_ID_SOLANA };
    let user = accounts[5].key;
    for slot in 0..1000u64 {
        if let Ok(k) = Bridge::derive_transfer_id(
            &w.program,
            t.asset.chain,
            t.asset.address,
            t.chain_id,
            t.target,
            user,
            slot,
        ) {
            accounts[2].key = k;
            let c = Clock { slot, ..c };
            Bridge::process_transfer_native_out(&w.program, &mut accounts, &t, &c).unwrap();
            let proposal = Bridge::unpack::<TransferOutProposal>(&accounts[2].data).unwrap();
            assert_eq!(proposal.asset, AssetMeta { address: mint.bytes, chain: CHAIN_ID_SOLANA });
            return;
        }
    }
    panic!("no slot fits");
}

#[test]
fn native_transfer_out_fails_in_the_order_of_its_checks() {
    let w = world();
    let (t, c, accounts) = native_outbound(&w, 1000);
    let input = transfer_out_input(&t);
    let mint = accounts[3].key;
    let custody = accounts[4].key;
    let user = accounts[5].key;

    assert_eq!(fails(&w, accounts[..5].to_vec(), &input, &c), Error::NotEnoughAccountKeys);

    let mut broken = accounts.clone();
    broken[0].data = vec![0; 165];
    assert_eq!(fails(&w, broken, &input, &c), Error::ExpectedAccount);

    let mut broken = accounts.clone();
    broken[1].key = key(67);
    assert_eq!(fails(&w, broken, &input, &c), Error::InvalidDerivedAccount);

    let mut broken = accounts.clone();
    broken[1].data = vec![0; 41];
    assert_eq!(fails(&w, broken, &input, &c), Error::ExpectedBridge);

    let mut broken = accounts.clone();
    broken[3].data = vec![];
    assert_eq!(fails(&w, broken, &input, &c), Error::ExpectedToken);

    let mut broken = accounts.clone();
    broken[0].data = token_account_bytes(&key(63), &user, 5000);
    assert_eq!(fails(&w, broken, &input, &c), Error::TokenMintMismatch);

    let mut broken = accounts.clone();
    broken[3].data = mint_bytes(Some(&w.program));
    assert_eq!(fails(&w, broken, &input, &c), Error::WrongMintOwner);

    let mut broken = accounts.clone();
    broken[2].key = key(64);
    assert_eq!(fails(&w, broken, &input, &c), Error::InvalidDerivedAccount);

    let mut broken = accounts.clone();
    broken[2].data = vec![0; 278];
    assert_eq!(fails(&w, broken, &input, &c), Error::InvalidAccountData);

    let mut broken = accounts.clone();
    broken[4].key = key(65);
    assert_eq!(fails(&w, broken, &input, &c), Error::InvalidDerivedAccount);

    let mut broken = accounts.clone();
    broken[4].data = vec![0; 165];
    assert_eq!(fails(&w, broken, &input, &c), Error::ExpectedAccount);

    let mut broken = accounts.clone();
    broken[4].data = token_account_bytes(&mint, &user, 0);
    assert_eq!(fails(&w, broken, &input, &c), Error::WrongTokenAccountOwner);

    let mut broken = accounts.clone();
    broken[4].data = token_account_bytes(&mint, &custody, 0);
    broken[1].data =
        Bridge { guardian_set_index: 0, config: BridgeConfig { vaa_expiration_time: 1, token_program: key(90) }, is_initialized: true }
            .pack();
    assert_eq!(fails(&w, broken, &input, &c), Error::IncorrectProgramId);
}

#[test]
fn wrapped_transfer_out_burns_and_records_the_proposal() {
    let w = world();
    let (t, c, mut accounts) = wrapped_outbound(&w, 40);
    let before = accounts.clone();
    let input = transfer_out_input(&t);
    let calls = Bridge::process(&w.program, &mut accounts, &input, &c, accepts).unwrap();
    assert_eq!(calls.len(), 1);
    assert_eq!(
        calls[0].instruction.accounts,
        vec![
            meta(before[0].key, false, true),
            meta(before[3].key, false, true),
            meta(before[4].key, false, false),
            meta(before[4].key, true, false),
        ]
    );
    assert_eq!(calls[0].instruction.data, vec![8, 40, 0, 0, 0, 0, 0, 0, 0]);
    assert_eq!(
        calls[0].accounts,
        vec![
            RoutedAccount { index: 0, is_signer: false },
            RoutedAccount { index: 3, is_signer: false },
            RoutedAccount { index: 4, is_signer: true },
            RoutedAccount { index: 4, is_signer: true },
        ]
    );
    for i in [0, 1, 3, 4] {
        assert_eq!(accounts[i], before[i]);
    }
    let proposal = Bridge::unpack::<TransferOutProposal>(&accounts[2].data).unwrap();
    assert_eq!(proposal.amount, 40);
    assert_eq!(proposal.to_chain_id, 2);
    assert_eq!(proposal.foreign_address, [9; 32]);
    assert_eq!(proposal.asset, t.asset);
    assert_eq!(proposal.vaa, [0u8; 200]);
    assert_eq!(proposal.vaa_time, 0);
    assert_eq!(fails(&w, accounts, &input, &c), Error::AlreadyExists);
}

#[test]
fn wrapped_transfer_out_fails_in_the_order_of_its_checks() {
    let w = world();
    let (t, c, accounts) = wrapped_outbound(&w, 40);
    let input = transfer_out_input(&t);
    let user = accounts[4].key;

    assert_eq!(fails(&w, accounts[..4].to_vec(), &input, &c), Error::NotEnoughAccountKeys);

    let mut broken = accounts.clone();
    broken[0].data = vec![];
    assert_eq!(fails(&w, broken, &input, &c), Error::ExpectedAccount);

    let mut broken = accounts.clone();
    broken[1].key = key(67);
    assert_eq!(fails(&w, broken, &input, &c), Error::InvalidDerivedAccount);

    let mut broken = accounts.clone();
    broken[1].data = vec![1; 40];
    assert_eq!(fails(&w, broken, &input, &c), Error::ExpectedBridge);

    let mut broken = accounts.clone();
    broken[3].data = vec![0; 82];
    assert_eq!(fails(&w, broken, &input, &c), Error::ExpectedToken);

    let mut broken = accounts.clone();
    broken[0].data = token_account_bytes(&key(63), &user, 5000);
    assert_eq!(fails(&w, broken, &input, &c), Error::TokenMintMismatch);

    let mut broken = accounts.clone();
    broken[3].data = mint_bytes(Some(&key(62)));
    assert_eq!(fails(&w, broken, &input, &c), Error::WrongMintOwner);

    let mut broken = accounts.clone();
    broken[3].key = key(66);
    broken[0].data = token_account_bytes(&key(66), &user, 5000);
    assert_eq!(fails(&w, broken, &input, &c), Error::InvalidDerivedAccount);

    let mut broken = accounts.clone();
    broken[2].key = key(64);
    assert_eq!(fails(&w, broken, &input, &c), Error::InvalidDerivedAccount);

    assert_eq!(
        fails(&w, accounts.clone(), &input, &Clock { slot: c.slot + 1, ..c }),
        match Bridge::derive_transfer_id(
            &w.program,
            t.asset.chain,
            t.asset.address,
            t.chain_id,
            t.target,
            user,
            c.slot + 1
        ) {
            Ok(_) => Error::InvalidDerivedAccount,
            Err(e) => e,
        }
    );

    let mut broken = accounts.clone();
    broken[2].data = vec![0; 280];
    assert_eq!(fails(&w, broken, &input, &c), Error::InvalidAccountData);
}

#[test]
fn transfer_out_decides_on_the_facts_given() {
    let program = key(1);
    let bridge = Bridge { guardian_set_index: 0, config: config(), is_initialized: true };
    let accounts = vec![
        account(key(2), vec![]),
        account(key(3), bridge.pack()),
        account(key(4), vec![0; 279]),
        account(key(5), vec![]),
        signer(key(6)),
    ];
    let t = TransferOutPayload {
        amount: 12,
        chain_id: 2,
        asset: AssetMeta { address: [8; 32], chain: 2 },
        target: [9; 32],
    };
    let facts = TransferOutFacts {
        bridge_key: Ok(key(3)),
        sender: Ok(TokenAccount { mint: key(5), owner: key(6), amount: 100 }),
        mint: Ok(Mint { mint_authority: Some(program) }),
        wrapped_mint_key: Ok(key(5)),
        proposal_key: Ok(key(4)),
    };
    let (proposal, burn) = Bridge::transfer_out_with(&program, &accounts, &t, facts).unwrap();
    assert_eq!(proposal.amount, 12);
    assert_eq!(proposal.asset, t.asset);
    assert!(proposal.is_initialized);
    assert_eq!(burn.instruction.data, vec![8, 12, 0, 0, 0, 0, 0, 0, 0]);

    let wrong = TransferOutFacts { bridge_key: Ok(key(7)), ..facts };
    assert_eq!(
        Bridge::transfer_out_with(&program, &accounts, &t, wrong),
        Err(Error::InvalidDerivedAccount)
    );
    let wrong = TransferOutFacts { proposal_key: Ok(key(7)), ..facts };
    assert_eq!(
        Bridge::transfer_out_with(&program, &accounts, &t, wrong),
        Err(Error::InvalidDerivedAccount)
    );
    let wrong = TransferOutFacts { mint: Ok(Mint { mint_authority: None }), ..facts };
    assert_eq!(Bridge::transfer_out_with(&program, &accounts, &t, wrong), Err(Error::WrongMintOwner));
    assert!(is_bridge_issued(&Mint { mint_authority: Some(program) }, &program));
    assert!(!is_bridge_issued(&Mint { mint_authority: Some(key(9)) }, &program));
    assert!(!is_bridge_issued(&Mint { mint_authority: None }, &program));
}

#[test]
fn native_transfer_out_decides_on_the_facts_given() {
    let program = key(1);
    let bridge = Bridge { guardian_set_index: 0, config: config(), is_initialized: true };
    let accounts = vec![
        account(key(2), vec![]),
        account(key(3), bridge.pack()),
        account(key(4), vec![0; 279]),
        account(key(5), vec![]),
        account(key(7), vec![1]),
        signer(key(6)),
    ];
    let t = TransferOutPayload {
        amount: 12,
        chain_id: 2,
        asset: AssetMeta { address: [8; 32], chain: 1 },
        target: [9; 32],
    };
    let facts = NativeOutFacts {
        bridge_key: Ok(key(3)),
        sender: Ok(TokenAccount { mint: key(5), owner: key(6), amount: 100 }),
        mint: Ok(Mint { mint_authority: None }),
        proposal_key: Ok(key(4)),
        custody_key: Ok(key(7)),
        custody: Ok(TokenAccount { mint: key(5), owner: key(7), amount: 0 }),
    };
    let unused: Result<Invocation, Error> = Err(Error::InvalidProgramAddress);
    let (proposal, calls) =
        Bridge::transfer_native_out_with(&program, &accounts, &t, facts, unused.clone()).unwrap();
    assert_eq!(proposal.asset, AssetMeta { address: [5; 32], chain: 1 });
    assert_eq!(calls.len(), 1);

    let mut fresh = accounts.clone();
    fresh[4].data = vec![];
    assert_eq!(
        Bridge::transfer_native_out_with(&program, &fresh, &t, facts, unused.clone()),
        Err(Error::InvalidProgramAddress)
    );
    let wrong = NativeOutFacts {
        custody: Ok(TokenAccount { mint: key(5), owner: key(6), amount: 0 }),
        ..facts
    };
    assert_eq!(
        Bridge::transfer_native_out_with(&program, &accounts, &t, wrong, unused),
        Err(Error::WrongTokenAccountOwner)
    );
}

#[test]
fn message_checks_decide_on_the_facts_given() {
    let bridge = Bridge { guardian_set_index: 1, config: config(), is_initialized: true };
    let set = GuardianSet {
        index: 0,
        pubkey: guardian(10),
        creation_time: 5,
        expiration_time: 2100,
        is_initialized: true,
    };
    let accounts = vec![
        account(key(1), bridge.pack()),
        account(key(2), set.pack()),
        account(key(3), vec![0; 37]),
    ];
    let v = VAA {
        guardian_set_index: 0,
        signature: Signature { bytes: [0; 64] },
        payload_digest: [0; 32],
        payload: None,
    };
    let facts =
        VaaFacts { bridge_key: Ok(key(1)), guardian_set_key: Ok(key(2)), claim_key: Ok(key(3)) };
    assert_eq!(
        Bridge::check_vaa(&accounts, &v, &clock(2100, 1), facts),
        Ok(CheckedVaa { bridge, guardian_set: set, now: 2100 })
    );
    assert_eq!(
        Bridge::check_vaa(&accounts, &v, &clock(2101, 1), facts),
        Err(Error::GuardianSetExpired)
    );
    let wrong = VaaFacts { claim_key: Ok(key(4)), ..facts };
    assert_eq!(
        Bridge::check_vaa(&accounts, &v, &clock(2000, 1), wrong),
        Err(Error::InvalidDerivedAccount)
    );
    let wrong = VaaFacts { bridge_key: Ok(key(4)), ..facts };
    assert_eq!(
        Bridge::check_vaa(&accounts, &v, &clock(2000, 1), wrong),
        Err(Error::InvalidDerivedAccount)
    );
    let wrong = VaaFacts { guardian_set_key: Err(Error::InvalidProgramAddress), ..facts };
    assert_eq!(
        Bridge::check_vaa(&accounts, &v, &clock(2000, 1), wrong),
        Err(Error::InvalidProgramAddress)
    );
}

#[test]
fn signature_primitive_is_asked_only_after_the_other_checks() {
    let w = world();
    let (bridge, set0, _) = rotated(&w);
    let (body, mut rest) = wrapped_inbound(&w, 1);
    let (data, claim) = signed_message(&w, 0, &guardian(10), &transfer_payload(&body));
    let mut accounts = vec![bridge, set0, account(claim, vec![0; 37])];
    accounts.append(&mut rest);
    let v = VAA::deserialize(&data).unwrap();
    let hash = keccak256(&data);
    let asked = std::cell::Cell::new(0u32);
    let counting = |k: RawKey, d: [u8; 32], s: Signature| {
        asked.set(asked.get() + 1);
        accepts(k, d, s)
    };
    let late = clock(5000, 9);
    assert_eq!(
        Bridge::process_vaa(&w.program, &mut accounts, &v, &hash, &late, &counting),
        Err(Error::GuardianSetExpired)
    );
    assert_eq!(asked.get(), 0);
    assert!(Bridge::process_vaa(&w.program, &mut accounts, &v, &hash, &clock(2050, 9), &counting).is_ok());
    assert_eq!(asked.get(), 1);
}

#[test]
fn inbound_transfer_decides_on_the_facts_given() {
    let program = key(1);
    let accounts = vec![
        account(key(2), vec![]),
        account(key(3), vec![]),
        account(key(4), vec![]),
        account(key(5), vec![]),
        account(key(6), vec![]),
        account(key(7), vec![]),
    ];
    let body = BodyTransfer {
        amount: 9,
        chain_id: CHAIN_ID_SOLANA,
        target_address: [7; 32],
        asset: AssetMeta { address: [5; 32], chain: CHAIN_ID_SOLANA },
    };
    let facts = InboundFacts {
        mint: Ok(Mint { mint_authority: None }),
        custody: Ok(TokenAccount { mint: key(5), owner: key(6), amount: 10 }),
        destination: Ok(TokenAccount { mint: key(5), owner: key(8), amount: 0 }),
        custody_key: Ok(key(6)),
        wrapped_mint_key: Err(Error::InvalidProgramAddress),
    };
    let credit = Bridge::token_transfer_caller(
        &program,
        &accounts,
        &token_program(),
        &key(6),
        &key(7),
        &key(6),
        9,
    );
    assert_eq!(
        Bridge::vaa_transfer_with(&program, &accounts, &body, facts, credit.clone()),
        credit
    );
    let wrong = InboundFacts { custody_key: Ok(key(9)), ..facts };
    assert_eq!(
        Bridge::vaa_transfer_with(&program, &accounts, &body, wrong, credit.clone()),
        Err(Error::InvalidDerivedAccount)
    );
    let wrapped = BodyTransfer { asset: AssetMeta { address: [5; 32], chain: 2 }, ..body };
    assert_eq!(
        Bridge::vaa_transfer_with(&program, &accounts, &wrapped, facts, credit),
        Err(Error::WrongMintOwner)
    );
}

#[test]
fn set_update_gives_the_new_set_and_changes_nothing_on_failure() {
    let w = world();
    let accounts = vec![
        account(w.bridge, vec![]),
        account(w.set0, vec![]),
        account(key(1), vec![]),
        account(w.set1, vec![0; 46]),
    ];
    let mut bridge = Bridge { guardian_set_index: 0, config: config(), is_initialized: true };
    let mut old = Bridge::genesis(guardian(10), config(), 5).1;
    let update = BodyUpdateGuardianSet { new_key: guardian(11), new_index: 1 };
    let new_set =
        Bridge::process_vaa_set_update(&w.program, &accounts, 2000, &mut bridge, &mut old, &update)
            .unwrap();
    assert_eq!(new_set.index, 1);
    assert_eq!(new_set.pubkey, guardian(11));
    assert_eq!(bridge.guardian_set_index, 1);
    assert_eq!(old.expiration_time, 2100);

    let before = (bridge, old);
    let again =
        Bridge::process_vaa_set_update(&w.program, &accounts, 2000, &mut bridge, &mut old, &update);
    assert_eq!(again, Err(Error::OldGuardianSet));
    assert_eq!((bridge, old), before);
    let payload = VAABody::UpdateGuardianSet(update);
    assert_eq!(payload, VAABody::UpdateGuardianSet(update));
}

#[test]
fn signature_is_checked_against_key_and_digest() {
    let v = VAA {
        guardian_set_index: 0,
        signature: Signature { bytes: sign(&guardian(10), b"payload", 0) },
        payload_digest: keccak256(b"payload"),
        payload: None,
    };
    assert!(v.verify(&guardian(10), &accepts));
    assert!(!v.verify(&guardian(11), &accepts));
    let other = VAA { payload_digest: keccak256(b"other"), ..v };
    assert!(!other.verify(&guardian(10), &accepts));
    let seen = std::cell::Cell::new(None);
    let recording = |k: RawKey, d: [u8; 32], s: Signature| {
        seen.set(Some((k, d, s)));
        true
    };
    assert!(v.verify(&guardian(12), &recording));
    assert_eq!(seen.get(), Some((guardian(12), v.payload_digest, v.signature)));
}

#[test]
fn guardian_set_indices_increase_over_rotations() {
    let w = world();
    let (mut bridge, mut active) = initialized(&w, 1000);
    let mut seen = vec![0u32];
    let mut index = 0u32;
    let mut time = 2000i64;
    while seen.len() < 4 {
        let next = index + 1;
        let next_key = match Bridge::derive_guardian_set_id(&w.program, &w.bridge, next) {
            Ok(k) => k,
            Err(_) => break,
        };
        let payload = update_payload(next, &guardian(10 + next as u8));
        let (data, claim) = signed_message(&w, index, &guardian(10 + index as u8), &payload);
        let mut accounts =
            vec![bridge, active, account(claim, vec![0; 37]), account(next_key, vec![0; 46])];
        Bridge::process(&w.program, &mut accounts, &post_vaa_input(&data), &clock(time, 1), accepts)
            .unwrap();
        let created = Bridge::guardian_set_deserialize(&accounts[3]).unwrap();
        assert_eq!(created.index, next);
        assert_eq!(Bridge::bridge_deserialize(&accounts[0]).unwrap().guardian_set_index, next);
        assert_eq!(
            Bridge::guardian_set_deserialize(&accounts[1]).unwrap().expiration_time,
            time as u32 + WINDOW
        );
        seen.push(created.index);
        active = accounts.pop().unwrap();
        accounts.truncate(1);
        bridge = accounts.pop().unwrap();
        index = next;
        time += 500;
    }
    assert!(seen.len() >= 2);
    for (i, created) in seen.iter().enumerate() {
        assert_eq!(*created, i as u32);
    }
}

/// The tokens that a call moves into an account, negative where it moves them
/// out.
fn moved_into(call: &Invocation, target: &Pubkey) -> i128 {
    let ix = &call.instruction;
    if ix.data.len() != 9 || ix.data[0] != 3 {
        return 0;
    }
    let mut amount = [0u8; 8];
    amount.copy_from_slice(&ix.data[1..9]);
    let amount = u64::from_le_bytes(amount) as i128;
    let mut moved = 0;
    if ix.accounts[1].pubkey == *target {
        moved += amount;
    }
    if ix.accounts[0].pubkey == *target {
        moved -= amount;
    }
    moved
}

#[test]
fn custody_holds_what_proposals_record_less_what_is_released() {
    let w = world();
    let (t, c, mut accounts) = native_outbound(&w, 1000);
    let mint = accounts[3].key;
    let custody = accounts[4].key;
    let user = accounts[5].key;
    let mut locked: i128 = 0;
    let mut proposed: i128 = 0;
    let mut released: i128 = 0;

    let calls = Bridge::process(&w.program, &mut accounts, &transfer_out_input(&t), &c, accepts).unwrap();
    locked += calls.iter().map(|call| moved_into(call, &custody)).sum::<i128>();
    proposed += Bridge::unpack::<TransferOutProposal>(&accounts[2].data).unwrap().amount as i128;
    assert_eq!(locked, 1000);
    assert_eq!(locked, proposed - released);

    // A second transfer of the same asset, in a later slot.
    let mut second = t;
    second.amount = 250;
    for slot in (c.slot + 1)..(c.slot + 1000) {
        if let Ok(k) = Bridge::derive_transfer_id(
            &w.program,
            second.asset.chain,
            second.asset.address,
            second.chain_id,
            second.target,
            user,
            slot,
        ) {
            accounts[2] = account(k, vec![0; 279]);
            accounts[4].data = token_account_bytes(&mint, &custody, 1000);
            let later = Clock { slot, ..c };
            let calls =
                Bridge::process(&w.program, &mut accounts, &transfer_out_input(&second), &later, accepts)
                    .unwrap();
            locked += calls.iter().map(|call| moved_into(call, &custody)).sum::<i128>();
            proposed +=
                Bridge::unpack::<TransferOutProposal>(&accounts[2].data).unwrap().amount as i128;
            break;
        }
    }
    assert_eq!(locked, 1250);
    assert_eq!(locked, proposed - released);

    // An inbound transfer releases part of it.
    let (_, set0) = initialized(&w, 1000);
    let recipient = key(77);
    let body = BodyTransfer {
        amount: 300,
        chain_id: CHAIN_ID_SOLANA,
        target_address: recipient.bytes,
        asset: AssetMeta { address: mint.bytes, chain: CHAIN_ID_SOLANA },
    };
    let (data, claim) = signed_message(&w, 0, &guardian(10), &transfer_payload(&body));
    let mut inbound = vec![
        accounts[1].clone(),
        set0,
        account(claim, vec![0; 37]),
        accounts[3].clone(),
        account(custody, token_account_bytes(&mint, &custody, 1250)),
        account(recipient, token_account_bytes(&mint, &key(78), 0)),
    ];
    let calls =
        Bridge::process(&w.program, &mut inbound, &post_vaa_input(&data), &clock(4000, 9), accepts)
            .unwrap();
    locked += calls.iter().map(|call| moved_into(call, &custody)).sum::<i128>();
    released += body.amount as i128;
    assert_eq!(locked, 950);
    assert_eq!(locked, proposed - released);
}

#[test]
fn window_check_never_decides() {
    for expiration in [0u32, 1, 5, 100, u32::MAX - 1, u32::MAX] {
        for window in [0u32, 1, 100, u32::MAX] {
            for now in [0u32, 1, 4, 5, 6, 99, 100, 101, 200, u32::MAX - 1, u32::MAX] {
                let set = GuardianSet {
                    index: 0,
                    pubkey: guardian(1),
                    creation_time: 0,
                    expiration_time: expiration,
                    is_initialized: true,
                };
                let expected = if expiration == 0 || now <= expiration {
                    Ok(())
                } else {
                    Err(Error::GuardianSetExpired)
                };
                assert_eq!(set.check_expiry(window, now), expected);
            }
        }
    }
}

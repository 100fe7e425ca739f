//! What holds of the bridge across invocations.

use crate::account::AccountView;
use crate::address::{
    bridge_seeds, claim_seeds, custody_seeds, derive_spec, guardian_set_seeds, transfer_seeds,
};
use crate::error::Error;
use crate::guardian::{expiry_spec, genesis, rotate_spec, Rotation};
use crate::inbound::{
    claim_spec, set_update_spec, vaa_checked, vaa_outcome, vaa_transfer_outcome, CheckedVaa,
};
use crate::instruction::TransferOutPayload;
use crate::invoke::all_signer_keys;
use crate::keys::{clock_time, Clock, Pubkey, RawKey, CHAIN_ID_SOLANA};
use crate::outbound::{bridge_issued, transfer_native_out_outcome};
use crate::processor::{
    bridge_deserialize_spec, guardian_set_deserialize_spec, initialize_outcome, Outcome,
};
use crate::state::{
    unpack_spec, unpack_unchecked_spec, AssetMeta, Bridge, BridgeConfig, ClaimedVAA, GuardianSet,
    Record, TransferOutProposal,
};
use crate::token::{
    initialize_account_instruction, mint_deserialize_spec, token_account_deserialize_spec,
    transfer_instruction, TOKEN_PROGRAM_ID,
};
use crate::vaa::{BodyUpdateGuardianSet, VAABody, VAA};
use vstd::prelude::*;

verus! {

/// One attempt to rotate the guardian set: the set rotated from, the update,
/// the time, and what is known of the new set's address.
pub struct RotationStep {
    pub old_set: GuardianSet,
    pub update: BodyUpdateGuardianSet,
    pub now: u32,
    pub derived: Result<Pubkey, Error>,
    pub supplied: Pubkey,
    pub slot: Result<GuardianSet, Error>,
}

/// The outcome of one attempt on a bridge.
pub open spec fn rotate_step(bridge: Bridge, step: RotationStep) -> Result<Rotation, Error> {
    rotate_spec(
        bridge,
        step.old_set,
        step.update,
        step.now,
        step.derived,
        step.supplied,
        step.slot,
    )
}

/// The bridge after the first `n` attempts, where all of them succeed.
pub open spec fn bridge_after(start: Bridge, steps: Seq<RotationStep>, n: int) -> Option<Bridge>
    decreases n,
{
    if n <= 0 {
        Some(start)
    } else {
        match bridge_after(start, steps, n - 1) {
            None => None,
            Some(bridge) => match rotate_step(bridge, steps[n - 1]) {
                Ok(rotation) => Some(rotation.bridge),
                Err(_) => None,
            },
        }
    }
}

/// A successful rotation creates the set with the index after that of the set
/// it supersedes, the bridge then names the new set, and the superseded set
/// expires exactly one window after the rotation.
pub proof fn lemma_rotation(bridge: Bridge, step: RotationStep)
    requires
        rotate_step(bridge, step) is Ok,
    ensures
        ({
            let rotation = rotate_step(bridge, step)->Ok_0;
            &&& step.old_set.index == bridge.guardian_set_index
            &&& rotation.new_set.index == step.old_set.index + 1
            &&& rotation.new_set.index == step.update.new_index
            &&& rotation.new_set.pubkey == step.update.new_key
            &&& rotation.new_set.is_initialized
            &&& rotation.new_set.expiration_time == 0
            &&& rotation.bridge.guardian_set_index == rotation.new_set.index
            &&& rotation.bridge.config == bridge.config
            &&& rotation.old_set.index == step.old_set.index
            &&& rotation.old_set.pubkey == step.old_set.pubkey
            &&& rotation.old_set.expiration_time == step.now + bridge.config.vaa_expiration_time
        }),
{
}

/// Where a sequence of rotations succeeds, so does each of its beginnings.
pub proof fn lemma_bridge_after_prefix(start: Bridge, steps: Seq<RotationStep>, n: int, m: int)
    requires
        0 <= n <= m,
        bridge_after(start, steps, m) is Some,
    ensures
        bridge_after(start, steps, n) is Some,
    decreases m,
{
    if n < m {
        lemma_bridge_after_prefix(start, steps, n, m - 1);
    }
}

/// Over any sequence of successful rotations the active guardian set index,
/// which is the index of the set created last, strictly increases.
pub proof fn lemma_guardian_indices_increase(
    start: Bridge,
    steps: Seq<RotationStep>,
    i: int,
    j: int,
)
    requires
        0 <= i < j,
        bridge_after(start, steps, j) is Some,
    ensures
        bridge_after(start, steps, i) is Some,
        bridge_after(start, steps, i)->Some_0.guardian_set_index < bridge_after(
            start,
            steps,
            j,
        )->Some_0.guardian_set_index,
    decreases j,
{
    lemma_bridge_after_prefix(start, steps, j - 1, j);
    lemma_bridge_after_prefix(start, steps, i, j);
    if i < j - 1 {
        lemma_guardian_indices_increase(start, steps, i, j - 1);
    }
}

/// Where the bridge starts at index 0, the indices of the guardian sets that
/// any sequence of successful rotations creates are 1, 2, 3 and so on, without
/// a gap: after `n` rotations the active index is `n`.
pub proof fn lemma_guardian_indices_gap_free(start: Bridge, steps: Seq<RotationStep>, n: int)
    requires
        0 <= n <= steps.len(),
        start.guardian_set_index == 0,
        bridge_after(start, steps, n) is Some,
    ensures
        bridge_after(start, steps, n)->Some_0.guardian_set_index == n,
    decreases n,
{
    if n > 0 {
        lemma_bridge_after_prefix(start, steps, n - 1, n);
        lemma_guardian_indices_gap_free(start, steps, n - 1);
    }
}

/// A message of a guardian set is accepted up to the set's expiration time
/// and at any time while the set is not superseded.
pub proof fn lemma_accepted_until_expiry(set: GuardianSet, window: u32, now: u32)
    requires
        set.expiration_time == 0 || now <= set.expiration_time,
    ensures
        expiry_spec(set, window, now) == Ok::<(), Error>(()),
{
}

/// A message of a superseded guardian set is rejected after the set's
/// expiration time, and so once the window after it has passed.
pub proof fn lemma_rejected_after_expiry(set: GuardianSet, window: u32, now: u32)
    requires
        set.expiration_time != 0,
        now > set.expiration_time,
    ensures
        expiry_spec(set, window, now) == Err::<(), Error>(Error::GuardianSetExpired),
{
}

/// The window check never rejects a message that the expiration check
/// accepts.
pub proof fn lemma_window_never_decides(set: GuardianSet, window: u32, now: u32)
    ensures
        expiry_spec(set, window, now) != Err::<(), Error>(Error::VAAExpired),
{
}

/// A claim that succeeds leaves a written record, and every later claim on
/// that record fails.
pub proof fn lemma_claim_once(
    slot: Result<ClaimedVAA, Error>,
    hash: [u8; 32],
    now: u32,
    later_hash: [u8; 32],
    later: u32,
)
    requires
        claim_spec(slot, hash, now) is Ok,
    ensures
        ({
            let record = claim_spec(slot, hash, now)->Ok_0;
            &&& record.is_initialized
            &&& record.hash == hash
            &&& record.vaa_time == now
            &&& unpack_unchecked_spec::<ClaimedVAA>(record.encode()) == Ok::<ClaimedVAA, Error>(
                record,
            )
            &&& claim_spec(Ok(record), later_hash, later) == Err::<ClaimedVAA, Error>(
                Error::VAAClaimed,
            )
        }),
{
    let record = claim_spec(slot, hash, now)->Ok_0;
    record.lemma_round_trip();
}

/// What a claim address stores after the first `n` of a sequence of claim
/// attempts, each with a hash and a time.
pub open spec fn claim_slot_after(data: Seq<u8>, attempts: Seq<([u8; 32], u32)>, n: int) -> Seq<u8>
    decreases n,
{
    if n <= 0 {
        data
    } else {
        let before = claim_slot_after(data, attempts, n - 1);
        match claim_spec(
            unpack_unchecked_spec::<ClaimedVAA>(before),
            attempts[n - 1].0,
            attempts[n - 1].1,
        ) {
            Ok(record) => record.encode(),
            Err(_) => before,
        }
    }
}

/// How many of the first `n` claim attempts succeed.
pub open spec fn claims_succeeded(data: Seq<u8>, attempts: Seq<([u8; 32], u32)>, n: int) -> nat
    decreases n,
{
    if n <= 0 {
        0
    } else {
        let before = claim_slot_after(data, attempts, n - 1);
        let earlier = claims_succeeded(data, attempts, n - 1);
        if claim_spec(
            unpack_unchecked_spec::<ClaimedVAA>(before),
            attempts[n - 1].0,
            attempts[n - 1].1,
        ) is Ok {
            earlier + 1
        } else {
            earlier
        }
    }
}

/// Of any number of claim attempts on one address at most one succeeds.
pub proof fn lemma_claim_at_most_once(data: Seq<u8>, attempts: Seq<([u8; 32], u32)>, n: int)
    requires
        0 <= n <= attempts.len(),
    ensures
        claims_succeeded(data, attempts, n) <= 1,
        claims_succeeded(data, attempts, n) == 1 ==> unpack_unchecked_spec::<ClaimedVAA>(
            claim_slot_after(data, attempts, n),
        ) is Ok,
        claims_succeeded(data, attempts, n) == 1 ==> unpack_unchecked_spec::<ClaimedVAA>(
            claim_slot_after(data, attempts, n),
        )->Ok_0.is_initialized,
    decreases n,
{
    if n > 0 {
        lemma_claim_at_most_once(data, attempts, n - 1);
        let before = claim_slot_after(data, attempts, n - 1);
        let attempt = claim_spec(
            unpack_unchecked_spec::<ClaimedVAA>(before),
            attempts[n - 1].0,
            attempts[n - 1].1,
        );
        if attempt is Ok {
            attempt->Ok_0.lemma_round_trip();
        }
    }
}

/// Once a message has been applied, no message is applied again on the
/// accounts as it left them: whatever the message, the time and the
/// signature primitive's answer, the claim record in account 2 stands in the
/// way.
pub proof fn lemma_no_replay(
    program_id: Pubkey,
    accounts: Seq<AccountView>,
    v: VAA,
    hash: [u8; 32],
    clock: Clock,
    accepted: bool,
    later_v: VAA,
    later_hash: [u8; 32],
    later_clock: Clock,
    later_accepted: bool,
)
    requires
        vaa_outcome(program_id, accounts, v, hash, clock, accepted) is Ok,
    ensures
        ({
            let left = vaa_outcome(program_id, accounts, v, hash, clock, accepted)->Ok_0.accounts;
            &&& claim_spec(unpack_unchecked_spec::<ClaimedVAA>(left[2].data), later_hash, 0)
                == Err::<ClaimedVAA, Error>(Error::VAAClaimed)
            &&& vaa_outcome(
                program_id,
                left,
                later_v,
                later_hash,
                later_clock,
                later_accepted,
            ) is Err
        }),
{
    let checked = crate::inbound::vaa_checked(program_id, accounts, v, hash, clock)->Ok_0;
    let record = claim_spec(
        unpack_unchecked_spec::<ClaimedVAA>(accounts[2].data),
        hash,
        checked.now,
    )->Ok_0;
    record.lemma_round_trip();
}

/// A message is refused for its signature exactly where it passes every
/// check that comes before the signature's and the primitive rejects it.
pub proof fn lemma_signature_refusal(
    program_id: Pubkey,
    accounts: Seq<AccountView>,
    v: VAA,
    hash: [u8; 32],
    clock: Clock,
    accepted: bool,
)
    ensures
        vaa_outcome(program_id, accounts, v, hash, clock, accepted) == Err::<Outcome, Error>(
            Error::InvalidVAASignature,
        ) <==> vaa_checked(program_id, accounts, v, hash, clock) is Ok && !accepted,
{
    reveal_with_fuel(crate::invoke::derived_signers, 2);
}

/// A message is refused as claimed only where the claim record in account 2
/// is written.
pub proof fn lemma_claimed_refusal(
    program_id: Pubkey,
    accounts: Seq<AccountView>,
    v: VAA,
    hash: [u8; 32],
    clock: Clock,
    accepted: bool,
)
    requires
        vaa_outcome(program_id, accounts, v, hash, clock, accepted) == Err::<Outcome, Error>(
            Error::VAAClaimed,
        ),
    ensures
        unpack_unchecked_spec::<ClaimedVAA>(accounts[2].data) is Ok,
        unpack_unchecked_spec::<ClaimedVAA>(accounts[2].data)->Ok_0.is_initialized,
{
    reveal_with_fuel(crate::invoke::derived_signers, 2);
}

/// A message is refused as expired only where the guardian set in account 1
/// is superseded and its expiration time has passed.
pub proof fn lemma_expired_refusal(
    program_id: Pubkey,
    accounts: Seq<AccountView>,
    v: VAA,
    hash: [u8; 32],
    clock: Clock,
    accepted: bool,
)
    requires
        vaa_outcome(program_id, accounts, v, hash, clock, accepted) == Err::<Outcome, Error>(
            Error::GuardianSetExpired,
        ),
    ensures
        guardian_set_deserialize_spec(accounts[1].data) is Ok,
        guardian_set_deserialize_spec(accounts[1].data)->Ok_0.expiration_time != 0,
        guardian_set_deserialize_spec(accounts[1].data)->Ok_0.expiration_time
            < clock.unix_timestamp,
{
    reveal_with_fuel(crate::invoke::derived_signers, 2);
}

/// A guardian set update succeeds only where it names the index after the
/// active one, and the bridge then names that index. One that names any other
/// index is refused, where the set that signed is the active one and the new
/// set's account is there.
pub proof fn lemma_update_names_next_index(
    program_id: Pubkey,
    accounts: Seq<AccountView>,
    now: u32,
    bridge: Bridge,
    old_guardian_set: GuardianSet,
    b: BodyUpdateGuardianSet,
)
    ensures
        set_update_spec(program_id, accounts, now, bridge, old_guardian_set, b) matches Ok(
            rotation,
        ) ==> b.new_index == bridge.guardian_set_index + 1 && rotation.bridge.guardian_set_index
            == b.new_index && rotation.new_set.index == b.new_index,
        accounts.len() >= 4 && bridge.guardian_set_index == old_guardian_set.index && b.new_index
            != bridge.guardian_set_index + 1 ==> set_update_spec(
            program_id,
            accounts,
            now,
            bridge,
            old_guardian_set,
            b,
        ) == Err::<Rotation, Error>(Error::GuardianIndexNotIncreasing),
{
}

/// Initialization succeeds where the time fits a record, both accounts are at
/// their derived addresses and both are empty slots of their record's size.
/// Account 0 then holds the bridge with index 0 and the given parameters,
/// account 1 the guardian set with index 0, the given key and the time; no
/// other account changes and no call is issued.
pub proof fn lemma_initialize_succeeds(
    program_id: Pubkey,
    accounts: Seq<AccountView>,
    key: RawKey,
    config: BridgeConfig,
    clock: Clock,
)
    requires
        accounts.len() >= 2,
        clock_time(clock) is Ok,
        derive_spec(bridge_seeds(), program_id) == Ok::<Pubkey, Error>(accounts[0].key),
        derive_spec(guardian_set_seeds(accounts[0].key, 0), program_id) == Ok::<Pubkey, Error>(
            accounts[1].key,
        ),
        unpack_unchecked_spec::<Bridge>(accounts[0].data) is Ok,
        !unpack_unchecked_spec::<Bridge>(accounts[0].data)->Ok_0.is_initialized,
        unpack_unchecked_spec::<GuardianSet>(accounts[1].data) is Ok,
        !unpack_unchecked_spec::<GuardianSet>(accounts[1].data)->Ok_0.is_initialized,
    ensures
        initialize_outcome(program_id, accounts, key, config, clock) is Ok,
        ({
            let out = initialize_outcome(program_id, accounts, key, config, clock)->Ok_0;
            &&& out.calls.len() == 0
            &&& out.accounts.len() == accounts.len()
            &&& unpack_spec::<Bridge>(out.accounts[0].data) == Ok::<Bridge, Error>(
                Bridge { guardian_set_index: 0, config, is_initialized: true },
            )
            &&& unpack_spec::<GuardianSet>(out.accounts[1].data) == Ok::<GuardianSet, Error>(
                GuardianSet {
                    index: 0,
                    pubkey: key,
                    creation_time: clock.unix_timestamp as u32,
                    expiration_time: 0,
                    is_initialized: true,
                },
            )
            &&& forall|i: int| 2 <= i < accounts.len() ==> out.accounts[i] == accounts[i]
        }),
{
    let now = clock_time(clock)->Ok_0;
    let written = genesis(key, config, now);
    written.0.lemma_round_trip();
    written.1.lemma_round_trip();
}

/// A message passes every check that comes before its signature's where the
/// bridge, the guardian set that signed and the claim record are at their
/// derived addresses, the time fits a record, and the guardian set is not
/// superseded or its expiration time has not passed, whatever the window.
pub proof fn lemma_message_before_expiry(
    program_id: Pubkey,
    accounts: Seq<AccountView>,
    v: VAA,
    hash: [u8; 32],
    clock: Clock,
)
    requires
        accounts.len() >= 3,
        clock_time(clock) is Ok,
        derive_spec(bridge_seeds(), program_id) == Ok::<Pubkey, Error>(accounts[0].key),
        bridge_deserialize_spec(accounts[0].data) is Ok,
        guardian_set_deserialize_spec(accounts[1].data) is Ok,
        derive_spec(guardian_set_seeds(accounts[0].key, v.guardian_set_index), program_id) == Ok::<
            Pubkey,
            Error,
        >(accounts[1].key),
        derive_spec(claim_seeds(accounts[0].key, hash), program_id) == Ok::<Pubkey, Error>(
            accounts[2].key,
        ),
        guardian_set_deserialize_spec(accounts[1].data)->Ok_0.expiration_time == 0
            || clock.unix_timestamp <= guardian_set_deserialize_spec(
            accounts[1].data,
        )->Ok_0.expiration_time,
    ensures
        vaa_checked(program_id, accounts, v, hash, clock) == Ok::<CheckedVaa, Error>(
            CheckedVaa {
                bridge: bridge_deserialize_spec(accounts[0].data)->Ok_0,
                guardian_set: guardian_set_deserialize_spec(accounts[1].data)->Ok_0,
                now: clock.unix_timestamp as u32,
            },
        ),
{
}

/// A message that passes the checks before its signature's is applied where
/// the primitive accepts the signature, the payload is valid and the claim
/// record is an empty slot.
pub proof fn lemma_message_is_applied(
    program_id: Pubkey,
    accounts: Seq<AccountView>,
    v: VAA,
    hash: [u8; 32],
    clock: Clock,
)
    requires
        vaa_checked(program_id, accounts, v, hash, clock) is Ok,
        unpack_unchecked_spec::<ClaimedVAA>(accounts[2].data) is Ok,
        !unpack_unchecked_spec::<ClaimedVAA>(accounts[2].data)->Ok_0.is_initialized,
        match v.payload {
            None => false,
            Some(VAABody::UpdateGuardianSet(b)) => set_update_spec(
                program_id,
                accounts,
                vaa_checked(program_id, accounts, v, hash, clock)->Ok_0.now,
                vaa_checked(program_id, accounts, v, hash, clock)->Ok_0.bridge,
                vaa_checked(program_id, accounts, v, hash, clock)->Ok_0.guardian_set,
                b,
            ) is Ok,
            Some(VAABody::Transfer(b)) => vaa_transfer_outcome(
                program_id,
                accounts,
                vaa_checked(program_id, accounts, v, hash, clock)->Ok_0.bridge,
                b,
            ) is Ok,
        },
    ensures
        vaa_outcome(program_id, accounts, v, hash, clock, true) is Ok,
{
}

/// No message is ever refused by the window check.
pub proof fn lemma_never_window_expired(
    program_id: Pubkey,
    accounts: Seq<AccountView>,
    v: VAA,
    hash: [u8; 32],
    clock: Clock,
    accepted: bool,
)
    ensures
        vaa_outcome(program_id, accounts, v, hash, clock, accepted) != Err::<Outcome, Error>(
            Error::VAAExpired,
        ),
{
    reveal_with_fuel(crate::invoke::derived_signers, 2);
}

/// A transfer out of a native asset succeeds where the bridge, the proposal
/// and the custody account are at their derived addresses, the bridge's token
/// program is the ledger's, the sender's token account belongs to the mint,
/// the bridge program does not control the mint, the proposal is an empty
/// slot, and the custody account is empty or a token account owned by its own
/// address. Account 2 then holds the proposal with the payload's amount,
/// chain and target and the mint as the asset. Where the custody account was
/// empty the calls are its creation (account, mint, owner the custody
/// address) and then the transfer into it; else the transfer alone.
pub proof fn lemma_native_transfer_out_succeeds(
    program_id: Pubkey,
    accounts: Seq<AccountView>,
    t: TransferOutPayload,
    clock: Clock,
)
    requires
        accounts.len() >= 6,
        token_account_deserialize_spec(accounts[0].data) is Ok,
        token_account_deserialize_spec(accounts[0].data)->Ok_0.mint == accounts[3].key,
        derive_spec(bridge_seeds(), program_id) == Ok::<Pubkey, Error>(accounts[1].key),
        bridge_deserialize_spec(accounts[1].data) is Ok,
        bridge_deserialize_spec(accounts[1].data)->Ok_0.config.token_program@
            == TOKEN_PROGRAM_ID@,
        mint_deserialize_spec(accounts[3].data) is Ok,
        !bridge_issued(mint_deserialize_spec(accounts[3].data)->Ok_0, program_id),
        derive_spec(
            transfer_seeds(
                t.asset.chain,
                t.asset.address,
                t.chain_id,
                t.target,
                token_account_deserialize_spec(accounts[0].data)->Ok_0.owner,
                clock.slot,
            ),
            program_id,
        ) == Ok::<Pubkey, Error>(accounts[2].key),
        unpack_unchecked_spec::<TransferOutProposal>(accounts[2].data) is Ok,
        !unpack_unchecked_spec::<TransferOutProposal>(accounts[2].data)->Ok_0.is_initialized,
        derive_spec(custody_seeds(accounts[1].key, accounts[3].key), program_id) == Ok::<
            Pubkey,
            Error,
        >(accounts[4].key),
        accounts[4].data.len() != 0 ==> token_account_deserialize_spec(accounts[4].data) is Ok
            && token_account_deserialize_spec(accounts[4].data)->Ok_0.owner == accounts[4].key,
    ensures
        transfer_native_out_outcome(program_id, accounts, t, clock) is Ok,
        ({
            let out = transfer_native_out_outcome(program_id, accounts, t, clock)->Ok_0;
            let proposal = unpack_spec::<TransferOutProposal>(out.accounts[2].data);
            let token_program = bridge_deserialize_spec(
                accounts[1].data,
            )->Ok_0.config.token_program;
            let custody = accounts[4].key;
            let mint = accounts[3].key;
            let lock = transfer_instruction(
                token_program,
                accounts[0].key,
                custody,
                accounts[5].key,
                all_signer_keys(accounts),
                t.amount,
            );
            let create = initialize_account_instruction(token_program, custody, mint, custody);
            &&& out.accounts.len() == accounts.len()
            &&& forall|i: int| 0 <= i < accounts.len() && i != 2 ==> out.accounts[i] == accounts[i]
            &&& proposal is Ok
            &&& proposal->Ok_0.is_initialized
            &&& proposal->Ok_0.amount == t.amount
            &&& proposal->Ok_0.to_chain_id == t.chain_id
            &&& proposal->Ok_0.foreign_address == t.target
            &&& proposal->Ok_0.asset == (AssetMeta { chain: CHAIN_ID_SOLANA, address: mint.bytes })
            &&& lock is Some
            &&& create is Some
            &&& accounts[4].data.len() == 0 ==> out.calls.len() == 2 && out.calls[0].instruction
                == create->Some_0 && out.calls[0].signers_seeds == seq![
                custody_seeds(accounts[1].key, mint),
            ] && out.calls[1].instruction == lock->Some_0
            &&& accounts[4].data.len() != 0 ==> out.calls.len() == 1 && out.calls[0].instruction
                == lock->Some_0
        }),
{
    reveal_with_fuel(crate::invoke::derived_signers, 2);
    let written = crate::outbound::transfer_native_out_spec(
        program_id,
        accounts,
        t,
        crate::outbound::native_out_facts(program_id, accounts, t, clock),
        crate::outbound::create_custody_spec(program_id, accounts),
    );
    if written is Ok {
        written->Ok_0.0.lemma_round_trip();
    }
}

} // verus!

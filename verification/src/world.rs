//! The bridge's storage over a run of invocations.
//!
//! The host keeps what accounts store and hands each invocation the accounts
//! it names. What is shown here is how the records in that storage live: a
//! record, once written, is never unwritten; claims and proposals never change
//! again; a guardian set only ever gets its expiration time set; the bridge
//! only ever moves on to a higher guardian set index. From this it follows
//! that no message is applied twice, whatever happens in between.

use crate::account::AccountView;
use crate::run::{step_accounts, step_outcome, step_program, Step};
use crate::keys::Pubkey;
use crate::state::{
    unpack_spec, unpack_unchecked_spec, Bridge, ClaimedVAA, GuardianSet, Record,
    TransferOutProposal,
};
use vstd::prelude::*;

verus! {

/// Whether `data` holds a written record of type `T`.
pub open spec fn is_written<T: Record>(data: Seq<u8>) -> bool {
    unpack_spec::<T>(data) is Ok
}

/// Whether `data` is a slot for a record of type `T` that is not written yet.
pub open spec fn is_empty_slot<T: Record>(data: Seq<u8>) -> bool {
    unpack_unchecked_spec::<T>(data) is Ok && !is_written::<T>(data)
}

/// The written record of type `T` that `data` holds.
pub open spec fn record_in<T: Record>(data: Seq<u8>) -> T {
    unpack_spec::<T>(data)->Ok_0
}

/// A successful invocation leaves the number of accounts, their addresses and
/// the sizes of their data as they were.
pub proof fn lemma_step_keeps_shape(step: Step, i: int)
    requires
        step_outcome(step) is Ok,
        0 <= i < step_accounts(step).len(),
    ensures
        step_outcome(step)->Ok_0.accounts.len() == step_accounts(step).len(),
        step_outcome(step)->Ok_0.accounts[i].key == step_accounts(step)[i].key,
        step_outcome(step)->Ok_0.accounts[i].is_signer == step_accounts(step)[i].is_signer,
        step_outcome(step)->Ok_0.accounts[i].data.len() == step_accounts(step)[i].data.len(),
{
    lemma_step_changes(step, i);
}

/// What a successful invocation can do to the data of one of its accounts:
/// leave it, write a record into an empty slot of that record's size, move a
/// written bridge on to a higher guardian set index, or set the expiration
/// time of a written guardian set.
pub proof fn lemma_step_changes(step: Step, i: int)
    requires
        step_outcome(step) is Ok,
        0 <= i < step_accounts(step).len(),
    ensures
        step_outcome(step)->Ok_0.accounts.len() == step_accounts(step).len(),
        step_outcome(step)->Ok_0.accounts[i].key == step_accounts(step)[i].key,
        step_outcome(step)->Ok_0.accounts[i].is_signer == step_accounts(step)[i].is_signer,
        changes_as_allowed(
            step_accounts(step)[i].data,
            step_outcome(step)->Ok_0.accounts[i].data,
        ),
{
    let before = step_accounts(step);
    let after = step_outcome(step)->Ok_0.accounts;
    match step {
        Step::Initialize { program_id, accounts, key, config, clock } => {
            let written = crate::processor::initialize_spec(
                accounts,
                key,
                config,
                clock,
                crate::processor::initialize_facts(program_id, accounts),
            )->Ok_0;
            written.0.lemma_round_trip();
            written.1.lemma_round_trip();
        },
        Step::TransferOut { program_id, accounts, t, clock } => {
            if t.asset.chain == crate::keys::CHAIN_ID_SOLANA {
                let written = crate::outbound::transfer_native_out_spec(
                    program_id,
                    accounts,
                    t,
                    crate::outbound::native_out_facts(program_id, accounts, t, clock),
                    crate::outbound::create_custody_spec(program_id, accounts),
                )->Ok_0.0;
                written.lemma_round_trip();
            } else {
                let written = crate::outbound::transfer_out_spec(
                    program_id,
                    accounts,
                    t,
                    crate::outbound::transfer_out_facts(program_id, accounts, t, clock),
                )->Ok_0.0;
                written.lemma_round_trip();
            }
        },
        Step::PostVaa { program_id, accounts, v, hash, clock, accepted } => {
            let checked = crate::inbound::vaa_checked(program_id, accounts, v, hash, clock)->Ok_0;
            let record = crate::inbound::claim_spec(
                unpack_unchecked_spec::<ClaimedVAA>(accounts[2].data),
                hash,
                checked.now,
            )->Ok_0;
            record.lemma_round_trip();
            match v.payload {
                Some(crate::vaa::VAABody::UpdateGuardianSet(b)) => {
                    let rotation = crate::inbound::set_update_spec(
                        program_id,
                        accounts,
                        checked.now,
                        checked.bridge,
                        checked.guardian_set,
                        b,
                    )->Ok_0;
                    rotation.bridge.lemma_round_trip();
                    rotation.old_set.lemma_round_trip();
                    rotation.new_set.lemma_round_trip();
                },
                _ => {},
            }
        },
    }
}

/// How the data of an account may differ after a successful invocation.
pub open spec fn changes_as_allowed(before: Seq<u8>, after: Seq<u8>) -> bool {
    ||| after == before
    ||| is_empty_slot::<Bridge>(before) && is_written::<Bridge>(after)
    ||| is_empty_slot::<GuardianSet>(before) && is_written::<GuardianSet>(after)
    ||| is_empty_slot::<ClaimedVAA>(before) && is_written::<ClaimedVAA>(after)
    ||| is_empty_slot::<TransferOutProposal>(before) && is_written::<TransferOutProposal>(after)
    ||| {
        &&& is_written::<Bridge>(before)
        &&& is_written::<Bridge>(after)
        &&& record_in::<Bridge>(after).config == record_in::<Bridge>(before).config
        &&& record_in::<Bridge>(after).guardian_set_index > record_in::<Bridge>(
            before,
        ).guardian_set_index
    }
    ||| {
        &&& is_written::<GuardianSet>(before)
        &&& is_written::<GuardianSet>(after)
        &&& record_in::<GuardianSet>(after).index == record_in::<GuardianSet>(before).index
        &&& record_in::<GuardianSet>(after).pubkey == record_in::<GuardianSet>(before).pubkey
        &&& record_in::<GuardianSet>(after).creation_time == record_in::<GuardianSet>(
            before,
        ).creation_time
    }
}

/// An allowed change followed by an allowed change is an allowed change.
pub proof fn lemma_changes_compose(first: Seq<u8>, second: Seq<u8>, third: Seq<u8>)
    requires
        changes_as_allowed(first, second),
        changes_as_allowed(second, third),
    ensures
        changes_as_allowed(first, third),
{
}

/// What the allowed changes mean for each kind of record: a written record
/// stays written; a claim and a proposal stay as they are; a guardian set
/// keeps its index, key and creation time; the bridge keeps its parameters
/// and never goes back to a lower guardian set index.
pub proof fn lemma_lifecycle(before: Seq<u8>, after: Seq<u8>)
    requires
        changes_as_allowed(before, after),
    ensures
        after.len() == before.len(),
        is_written::<ClaimedVAA>(before) ==> after == before,
        is_written::<TransferOutProposal>(before) ==> after == before,
        is_written::<GuardianSet>(before) ==> is_written::<GuardianSet>(after)
            && record_in::<GuardianSet>(after).index == record_in::<GuardianSet>(before).index
            && record_in::<GuardianSet>(after).pubkey == record_in::<GuardianSet>(before).pubkey
            && record_in::<GuardianSet>(after).creation_time == record_in::<GuardianSet>(
            before,
        ).creation_time,
        is_written::<Bridge>(before) ==> is_written::<Bridge>(after) && record_in::<Bridge>(
            after,
        ).config == record_in::<Bridge>(before).config && record_in::<Bridge>(
            after,
        ).guardian_set_index >= record_in::<Bridge>(before).guardian_set_index,
{
}

/// What accounts store, by address.
pub type Storage = Map<Pubkey, Seq<u8>>;

/// Whether the accounts of an invocation hold what the storage holds at their
/// addresses.
pub open spec fn loaded(storage: Storage, accounts: Seq<AccountView>) -> bool {
    forall|i: int|
        0 <= i < accounts.len() ==> storage.contains_key((#[trigger] accounts[i]).key)
            && accounts[i].data == storage[accounts[i].key]
}

/// The storage once the first `upto` accounts of an invocation have been
/// written back where the invocation changed them.
pub open spec fn committed(
    storage: Storage,
    before: Seq<AccountView>,
    after: Seq<AccountView>,
    upto: int,
) -> Storage
    decreases upto,
{
    if upto <= 0 {
        storage
    } else {
        let earlier = committed(storage, before, after, upto - 1);
        if after[upto - 1].data != before[upto - 1].data {
            earlier.insert(before[upto - 1].key, after[upto - 1].data)
        } else {
            earlier
        }
    }
}

/// Whether an invocation takes effect: it is handed what the storage holds,
/// and it succeeds.
pub open spec fn applied(storage: Storage, step: Step) -> bool {
    loaded(storage, step_accounts(step)) && step_outcome(step) is Ok
}

/// The storage after an invocation. One that fails changes nothing.
pub open spec fn storage_after(storage: Storage, step: Step) -> Storage {
    if applied(storage, step) {
        committed(
            storage,
            step_accounts(step),
            step_outcome(step)->Ok_0.accounts,
            step_accounts(step).len() as int,
        )
    } else {
        storage
    }
}

/// The storage after the first `n` invocations of a run.
pub open spec fn storage_after_run(storage: Storage, steps: Seq<Step>, n: int) -> Storage
    decreases n,
{
    if n <= 0 {
        storage
    } else {
        storage_after(storage_after_run(storage, steps, n - 1), steps[n - 1])
    }
}

/// After the changes of an invocation have been written back, an address
/// holds what it held, or what one of the changed accounts at that address
/// holds now.
pub proof fn lemma_committed(
    storage: Storage,
    before: Seq<AccountView>,
    after: Seq<AccountView>,
    upto: int,
    key: Pubkey,
)
    requires
        0 <= upto <= before.len() == after.len(),
        loaded(storage, before),
        storage.contains_key(key),
    ensures
        committed(storage, before, after, upto).contains_key(key),
        committed(storage, before, after, upto)[key] == storage[key] || exists|i: int|
            0 <= i < upto && (#[trigger] before[i]).key == key && after[i].data != before[i].data
                && committed(storage, before, after, upto)[key] == after[i].data,
        (exists|i: int|
            0 <= i < upto && (#[trigger] before[i]).key == key && after[i].data != before[i].data)
            ==> committed(storage, before, after, upto)[key] != storage[key],
    decreases upto,
{
    if upto > 0 {
        lemma_committed(storage, before, after, upto - 1, key);
        let last = before[upto - 1];
        if after[upto - 1].data != last.data && last.key == key {
            assert(last.data == storage[key]);
        }
    }
}

/// An invocation changes what an address holds only as allowed.
pub proof fn lemma_storage_step(storage: Storage, step: Step, key: Pubkey)
    requires
        storage.contains_key(key),
    ensures
        storage_after(storage, step).contains_key(key),
        changes_as_allowed(storage[key], storage_after(storage, step)[key]),
{
    if applied(storage, step) {
        let before = step_accounts(step);
        let after = step_outcome(step)->Ok_0.accounts;
        if before.len() > 0 {
            lemma_step_changes(step, 0);
        }
        lemma_committed(storage, before, after, before.len() as int, key);
        let now = storage_after(storage, step)[key];
        if now != storage[key] {
            let i = choose|i: int|
                0 <= i < before.len() && (#[trigger] before[i]).key == key && after[i].data
                    != before[i].data && now == after[i].data;
            lemma_step_changes(step, i);
        }
    }
}

/// Over a run of invocations, what an address holds changes only as allowed.
pub proof fn lemma_storage_run(
    storage: Storage,
    steps: Seq<Step>,
    from: int,
    to: int,
    key: Pubkey,
)
    requires
        0 <= from <= to,
        storage_after_run(storage, steps, from).contains_key(key),
    ensures
        storage_after_run(storage, steps, to).contains_key(key),
        changes_as_allowed(
            storage_after_run(storage, steps, from)[key],
            storage_after_run(storage, steps, to)[key],
        ),
    decreases to,
{
    if from < to {
        lemma_storage_run(storage, steps, from, to - 1, key);
        lemma_storage_step(storage_after_run(storage, steps, to - 1), steps[to - 1], key);
        lemma_changes_compose(
            storage_after_run(storage, steps, from)[key],
            storage_after_run(storage, steps, to - 1)[key],
            storage_after_run(storage, steps, to)[key],
        );
    }
}

/// The message hash that an invocation posts, if it posts one.
pub open spec fn posted_hash(step: Step) -> Option<[u8; 32]> {
    match step {
        Step::PostVaa { hash, .. } => Some(hash),
        _ => None,
    }
}

/// The address of the claim record of a message of a program's bridge.
pub open spec fn claim_address(program_id: Pubkey, hash: [u8; 32]) -> Pubkey {
    crate::address::derive_spec(
        crate::address::claim_seeds(
            crate::address::derive_spec(crate::address::bridge_seeds(), program_id)->Ok_0,
            hash,
        ),
        program_id,
    )->Ok_0
}

/// Once a message has taken effect, its claim record is written at its
/// address.
pub proof fn lemma_applied_message_is_claimed(storage: Storage, step: Step)
    requires
        applied(storage, step),
        posted_hash(step) is Some,
    ensures
        storage.contains_key(claim_address(step_program(step), posted_hash(step)->Some_0)),
        storage_after(storage, step).contains_key(
            claim_address(step_program(step), posted_hash(step)->Some_0),
        ),
        is_empty_slot::<ClaimedVAA>(
            storage[claim_address(step_program(step), posted_hash(step)->Some_0)],
        ),
        is_written::<ClaimedVAA>(
            storage_after(storage, step)[claim_address(
                step_program(step),
                posted_hash(step)->Some_0,
            )],
        ),
{
    let before = step_accounts(step);
    let after = step_outcome(step)->Ok_0.accounts;
    let address = claim_address(step_program(step), posted_hash(step)->Some_0);
    assert(before[2].key == address);
    lemma_storage_step(storage, step, address);
    lemma_step_changes(step, 2);
    lemma_committed(storage, before, after, before.len() as int, address);
    let now = storage_after(storage, step)[address];
    assert(after[2].data != before[2].data);
    let i = choose|i: int|
        0 <= i < before.len() && (#[trigger] before[i]).key == address && after[i].data
            != before[i].data && now == after[i].data;
    lemma_step_changes(step, i);
}

/// No message takes effect twice: once an invocation that posts a message
/// has taken effect, no later invocation of the run that posts a message with
/// the same hash to the same program does, whatever happens in between.
pub proof fn lemma_replay_free(storage: Storage, steps: Seq<Step>, first: int, second: int)
    requires
        0 <= first < second < steps.len(),
        posted_hash(steps[first]) is Some,
        posted_hash(steps[second]) == posted_hash(steps[first]),
        step_program(steps[second]) == step_program(steps[first]),
        applied(storage_after_run(storage, steps, first), steps[first]),
    ensures
        !applied(storage_after_run(storage, steps, second), steps[second]),
{
    let address = claim_address(step_program(steps[first]), posted_hash(steps[first])->Some_0);
    let then = storage_after_run(storage, steps, first);
    lemma_applied_message_is_claimed(then, steps[first]);
    lemma_storage_step(then, steps[first], address);
    assert(storage_after_run(storage, steps, first + 1) == storage_after(then, steps[first]));
    lemma_storage_run(storage, steps, first + 1, second, address);
    let later = storage_after_run(storage, steps, second);
    lemma_lifecycle(storage_after_run(storage, steps, first + 1)[address], later[address]);
    if applied(later, steps[second]) {
        assert(step_accounts(steps[second])[2].key == address);
    }
}

/// The address of a program's bridge.
pub open spec fn bridge_address(program_id: Pubkey) -> Pubkey {
    crate::address::derive_spec(crate::address::bridge_seeds(), program_id)->Ok_0
}

/// The address of the guardian set with an index of a program's bridge.
pub open spec fn guardian_set_address(program_id: Pubkey, index: u32) -> Pubkey {
    crate::address::derive_spec(
        crate::address::guardian_set_seeds(bridge_address(program_id), index),
        program_id,
    )->Ok_0
}

/// The guardian set update that an invocation posts, if it posts one.
pub open spec fn posted_update(step: Step) -> Option<crate::vaa::BodyUpdateGuardianSet> {
    match step {
        Step::PostVaa { v, .. } => match v.payload {
            Some(crate::vaa::VAABody::UpdateGuardianSet(b)) => Some(b),
            _ => None,
        },
        _ => None,
    }
}

/// The index of the guardian set that signed the message that an invocation
/// posts.
pub open spec fn signing_index(step: Step) -> u32 {
    match step {
        Step::PostVaa { v, .. } => v.guardian_set_index,
        _ => 0,
    }
}

/// The time of an invocation.
pub open spec fn step_time(step: Step) -> int {
    match step {
        Step::Initialize { clock, .. } => clock.unix_timestamp as int,
        Step::TransferOut { clock, .. } => clock.unix_timestamp as int,
        Step::PostVaa { clock, .. } => clock.unix_timestamp as int,
    }
}

/// Two accounts of a successful invocation that hold the same data before it
/// and are both changed by it hold the same data after it.
pub proof fn lemma_one_change_per_address(step: Step, i: int, j: int)
    requires
        step_outcome(step) is Ok,
        0 <= i < step_accounts(step).len(),
        0 <= j < step_accounts(step).len(),
        step_accounts(step)[i].data == step_accounts(step)[j].data,
        step_outcome(step)->Ok_0.accounts[i].data != step_accounts(step)[i].data,
        step_outcome(step)->Ok_0.accounts[j].data != step_accounts(step)[j].data,
    ensures
        step_outcome(step)->Ok_0.accounts[i].data == step_outcome(step)->Ok_0.accounts[j].data,
{
    lemma_step_changes(step, i);
    lemma_step_changes(step, j);
    match step {
        Step::Initialize { .. } => {
            assert(i == j);
        },
        Step::TransferOut { .. } => {
            assert(i == j);
        },
        Step::PostVaa { .. } => {
            assert(i == j);
        },
    }
}

/// Once a successful invocation's changes are written back, the address of
/// an account that it changed holds what that account holds.
pub proof fn lemma_written_back(storage: Storage, step: Step, at: int)
    requires
        applied(storage, step),
        0 <= at < step_accounts(step).len(),
        step_outcome(step)->Ok_0.accounts[at].data != step_accounts(step)[at].data,
    ensures
        storage_after(storage, step)[step_accounts(step)[at].key] == step_outcome(
            step,
        )->Ok_0.accounts[at].data,
{
    let before = step_accounts(step);
    let after = step_outcome(step)->Ok_0.accounts;
    let key = before[at].key;
    lemma_committed(storage, before, after, before.len() as int, key);
    let now = storage_after(storage, step)[key];
    let i = choose|i: int|
        0 <= i < before.len() && (#[trigger] before[i]).key == key && after[i].data
            != before[i].data && now == after[i].data;
    lemma_one_change_per_address(step, at, i);
}

/// A guardian set update that takes effect moves the bridge from the set that
/// signed, which is the active one, to the new one, which has the next index;
/// writes the new set at its address, which held none; and lets the
/// superseded set expire one window after the update.
pub proof fn lemma_applied_rotation(storage: Storage, step: Step)
    requires
        applied(storage, step),
        posted_update(step) is Some,
    ensures
        ({
            let program = step_program(step);
            let update = posted_update(step)->Some_0;
            let bridge = record_in::<Bridge>(storage[bridge_address(program)]);
            let old_address = guardian_set_address(program, signing_index(step));
            let new_address = guardian_set_address(program, update.new_index);
            let later = storage_after(storage, step);
            &&& storage.contains_key(bridge_address(program))
            &&& storage.contains_key(old_address)
            &&& storage.contains_key(new_address)
            &&& later.contains_key(bridge_address(program))
            &&& later.contains_key(old_address)
            &&& later.contains_key(new_address)
            &&& is_written::<Bridge>(storage[bridge_address(program)])
            &&& is_written::<Bridge>(later[bridge_address(program)])
            &&& update.new_index == bridge.guardian_set_index + 1
            &&& record_in::<Bridge>(later[bridge_address(program)]).guardian_set_index
                == update.new_index
            &&& is_empty_slot::<GuardianSet>(storage[new_address])
            &&& is_written::<GuardianSet>(later[new_address])
            &&& record_in::<GuardianSet>(later[new_address]).index == update.new_index
            &&& record_in::<GuardianSet>(later[new_address]).pubkey == update.new_key
            &&& record_in::<GuardianSet>(later[new_address]).creation_time == step_time(step)
            &&& record_in::<GuardianSet>(later[new_address]).expiration_time == 0
            &&& is_written::<GuardianSet>(storage[old_address])
            &&& record_in::<GuardianSet>(storage[old_address]).index == bridge.guardian_set_index
            &&& is_written::<GuardianSet>(later[old_address])
            &&& record_in::<GuardianSet>(later[old_address]).index == bridge.guardian_set_index
            &&& record_in::<GuardianSet>(later[old_address]).expiration_time == step_time(step)
                + bridge.config.vaa_expiration_time
        }),
{
    let program = step_program(step);
    let before = step_accounts(step);
    let after = step_outcome(step)->Ok_0.accounts;
    let old_address = guardian_set_address(program, signing_index(step));
    let new_address = guardian_set_address(program, posted_update(step)->Some_0.new_index);
    match step {
        Step::PostVaa { program_id, accounts, v, hash, clock, accepted } => {
            let checked = crate::inbound::vaa_checked(program_id, accounts, v, hash, clock)->Ok_0;
            let rotation = crate::inbound::set_update_spec(
                program_id,
                accounts,
                checked.now,
                checked.bridge,
                checked.guardian_set,
                posted_update(step)->Some_0,
            )->Ok_0;
            rotation.bridge.lemma_round_trip();
            rotation.old_set.lemma_round_trip();
            rotation.new_set.lemma_round_trip();
            assert(after[0].data == rotation.bridge.encode());
            assert(after[1].data == rotation.old_set.encode());
            assert(after[3].data == rotation.new_set.encode());
        },
        _ => {},
    }
    assert(before[0].key == bridge_address(program));
    assert(before[1].key == old_address);
    assert(before[3].key == new_address);
    lemma_storage_step(storage, step, bridge_address(program));
    lemma_storage_step(storage, step, old_address);
    lemma_storage_step(storage, step, new_address);
    lemma_written_back(storage, step, 0);
    lemma_written_back(storage, step, 3);
    if after[1].data != before[1].data {
        lemma_written_back(storage, step, 1);
    } else {
        lemma_committed(storage, before, after, before.len() as int, old_address);
        let now = storage_after(storage, step)[old_address];
        if now != storage[old_address] {
            let i = choose|i: int|
                0 <= i < before.len() && (#[trigger] before[i]).key == old_address
                    && after[i].data != before[i].data && now == after[i].data;
            lemma_step_changes(step, i);
            assert(i == 0 || i == 2 || i == 3);
        }
    }
}

/// What makes a transfer out the transfer it is: the program, the asset and
/// the destination as the sender names them, the owner of the sender's token
/// account, and the slot.
pub struct TransferKey {
    pub program_id: Pubkey,
    pub t: crate::instruction::TransferOutPayload,
    pub sender: Pubkey,
    pub slot: u64,
}

/// The transfer out that an invocation asks for, if it asks for one and names
/// a sender's token account.
pub open spec fn transfer_key(step: Step) -> Option<TransferKey> {
    match step {
        Step::TransferOut { program_id, accounts, t, clock } => match crate::token::token_account_deserialize_spec(
            accounts[0].data,
        ) {
            Ok(sender) => Some(
                TransferKey { program_id, t, sender: sender.owner, slot: clock.slot },
            ),
            Err(_) => None,
        },
        _ => None,
    }
}

/// The address of the proposal of a transfer out.
pub open spec fn proposal_address(key: TransferKey) -> Pubkey {
    crate::address::derive_spec(
        crate::address::transfer_seeds(
            key.t.asset.chain,
            key.t.asset.address,
            key.t.chain_id,
            key.t.target,
            key.sender,
            key.slot,
        ),
        key.program_id,
    )->Ok_0
}

/// Once a transfer out has taken effect, its proposal is written at its
/// address, which held none.
pub proof fn lemma_applied_transfer_is_recorded(storage: Storage, step: Step)
    requires
        applied(storage, step),
        step is TransferOut,
    ensures
        transfer_key(step) is Some,
        storage.contains_key(proposal_address(transfer_key(step)->Some_0)),
        storage_after(storage, step).contains_key(proposal_address(transfer_key(step)->Some_0)),
        is_empty_slot::<TransferOutProposal>(
            storage[proposal_address(transfer_key(step)->Some_0)],
        ),
        is_written::<TransferOutProposal>(
            storage_after(storage, step)[proposal_address(transfer_key(step)->Some_0)],
        ),
        record_in::<TransferOutProposal>(
            storage_after(storage, step)[proposal_address(transfer_key(step)->Some_0)],
        ).amount == transfer_key(step)->Some_0.t.amount,
{
    let before = step_accounts(step);
    let after = step_outcome(step)->Ok_0.accounts;
    let address = proposal_address(transfer_key(step)->Some_0);
    assert(before[2].key == address);
    lemma_storage_step(storage, step, address);
    lemma_step_changes(step, 2);
    match step {
        Step::TransferOut { program_id, accounts, t, clock } => {
            if t.asset.chain == crate::keys::CHAIN_ID_SOLANA {
                let written = crate::outbound::transfer_native_out_spec(
                    program_id,
                    accounts,
                    t,
                    crate::outbound::native_out_facts(program_id, accounts, t, clock),
                    crate::outbound::create_custody_spec(program_id, accounts),
                )->Ok_0.0;
                written.lemma_round_trip();
            } else {
                let written = crate::outbound::transfer_out_spec(
                    program_id,
                    accounts,
                    t,
                    crate::outbound::transfer_out_facts(program_id, accounts, t, clock),
                )->Ok_0.0;
                written.lemma_round_trip();
            }
        },
        _ => {},
    }
    lemma_written_back(storage, step, 2);
}

/// No transfer out is recorded twice: once one has taken effect, no later
/// invocation of the run that asks for the same transfer does, whatever
/// happens in between.
pub proof fn lemma_transfer_once(storage: Storage, steps: Seq<Step>, first: int, second: int)
    requires
        0 <= first < second < steps.len(),
        steps[first] is TransferOut,
        applied(storage_after_run(storage, steps, first), steps[first]),
        transfer_key(steps[second]) == transfer_key(steps[first]),
    ensures
        !applied(storage_after_run(storage, steps, second), steps[second]),
{
    let then = storage_after_run(storage, steps, first);
    lemma_applied_transfer_is_recorded(then, steps[first]);
    let address = proposal_address(transfer_key(steps[first])->Some_0);
    assert(storage_after_run(storage, steps, first + 1) == storage_after(then, steps[first]));
    lemma_storage_run(storage, steps, first + 1, second, address);
    let later = storage_after_run(storage, steps, second);
    lemma_lifecycle(storage_after_run(storage, steps, first + 1)[address], later[address]);
    if applied(later, steps[second]) {
        assert(step_accounts(steps[second])[2].key == address);
    }
}

} // verus!

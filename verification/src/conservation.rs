//! Conservation of locked tokens.
//!
//! The bridge does not keep the token ledger; it issues calls to it. What is
//! shown here is that those calls move into a custody account exactly what
//! the proposals that reference it record, and out of it exactly what inbound
//! transfers release.

use crate::account::InvocationView;
use crate::address::{custody_seeds, derive_spec};
use crate::codec::{lemma_u64_at, u64_at};
use crate::error::Error;
use crate::keys::{Pubkey, CHAIN_ID_SOLANA};
use crate::run::{step_outcome, Step};
use crate::state::{unpack_unchecked_spec, Record, TransferOutProposal};
use crate::vaa::VAABody;
use vstd::prelude::*;

verus! {

/// The tokens that a call moves into a token account, negative where it moves
/// them out. Only a token transfer moves any.
pub open spec fn moved_into(call: InvocationView, account: Pubkey) -> int {
    let ix = call.instruction;
    if ix.data.len() == 9 && ix.data[0] == 3 && ix.accounts.len() >= 2 {
        let amount = u64_at(ix.data, 1) as int;
        (if ix.accounts[1].pubkey == account {
            amount
        } else {
            0
        }) - (if ix.accounts[0].pubkey == account {
            amount
        } else {
            0
        })
    } else {
        0
    }
}

/// The tokens that the first `upto` calls move into a token account.
pub open spec fn moved_by(calls: Seq<InvocationView>, account: Pubkey, upto: int) -> int
    decreases upto,
{
    if upto <= 0 {
        0
    } else {
        moved_by(calls, account, upto - 1) + moved_into(calls[upto - 1], account)
    }
}

/// The custody account of an asset of the local chain.
pub open spec fn custody_of(program_id: Pubkey, bridge: Pubkey, mint: [u8; 32]) -> Result<
    Pubkey,
    Error,
> {
    derive_spec(custody_seeds(bridge, Pubkey { bytes: mint }), program_id)
}

/// The tokens that the calls of an invocation move into a custody account.
pub open spec fn step_locked(step: Step, custody: Pubkey) -> int {
    match step_outcome(step) {
        Ok(out) => moved_by(out.calls, custody, out.calls.len() as int),
        Err(_) => 0,
    }
}

/// The amount of the proposal that an invocation records, where the proposal
/// references the custody account.
pub open spec fn step_proposed(step: Step, custody: Pubkey) -> int {
    match (step, step_outcome(step)) {
        (Step::TransferOut { program_id, accounts, t, clock }, Ok(out)) => {
            let proposal = unpack_unchecked_spec::<TransferOutProposal>(out.accounts[2].data)->Ok_0;
            if proposal.asset.chain == CHAIN_ID_SOLANA && custody_of(
                program_id,
                accounts[1].key,
                proposal.asset.address,
            ) == Ok::<Pubkey, Error>(custody) {
                proposal.amount as int
            } else {
                0
            }
        },
        _ => 0,
    }
}

/// The amount that an invocation releases from the custody account by an
/// inbound transfer.
pub open spec fn step_released(step: Step, custody: Pubkey) -> int {
    match (step, step_outcome(step)) {
        (Step::PostVaa { program_id, accounts, v, hash, clock, accepted }, Ok(out)) => match v.payload {
            Some(VAABody::Transfer(b)) => if b.asset.chain == CHAIN_ID_SOLANA && custody_of(
                program_id,
                accounts[0].key,
                b.asset.address,
            ) == Ok::<Pubkey, Error>(custody) {
                b.amount as int
            } else {
                0
            },
            _ => 0,
        },
        _ => 0,
    }
}

/// Whether the other side of an invocation's transfer is the custody account
/// itself: the sender's token account of a transfer out, or the recipient's of
/// an inbound transfer.
pub open spec fn is_counterparty(step: Step, custody: Pubkey) -> bool {
    match step {
        Step::Initialize { .. } => false,
        Step::TransferOut { accounts, .. } => accounts[0].key == custody,
        Step::PostVaa { accounts, .. } => accounts[5].key == custody,
    }
}

/// The tokens that the first `upto` invocations move into a custody account.
pub open spec fn locked_total(steps: Seq<Step>, custody: Pubkey, upto: int) -> int
    decreases upto,
{
    if upto <= 0 {
        0
    } else {
        locked_total(steps, custody, upto - 1) + step_locked(steps[upto - 1], custody)
    }
}

/// The sum of the amounts of the proposals that the first `upto` invocations
/// record and that reference a custody account.
pub open spec fn proposed_total(steps: Seq<Step>, custody: Pubkey, upto: int) -> int
    decreases upto,
{
    if upto <= 0 {
        0
    } else {
        proposed_total(steps, custody, upto - 1) + step_proposed(steps[upto - 1], custody)
    }
}

/// The sum of the amounts that the inbound transfers among the first `upto`
/// invocations release from a custody account.
pub open spec fn released_total(steps: Seq<Step>, custody: Pubkey, upto: int) -> int
    decreases upto,
{
    if upto <= 0 {
        0
    } else {
        released_total(steps, custody, upto - 1) + step_released(steps[upto - 1], custody)
    }
}

/// One invocation moves into a custody account what its proposal records, and
/// out of it what its inbound transfer releases.
pub proof fn lemma_step_conserves(step: Step, custody: Pubkey)
    requires
        !is_counterparty(step, custody),
    ensures
        step_locked(step, custody) == step_proposed(step, custody) - step_released(
            step,
            custody,
        ),
{
    reveal_with_fuel(moved_by, 3);
    match step {
        Step::Initialize { .. } => {},
        Step::TransferOut { program_id, accounts, t, clock } => {
            if let Ok(out) = step_outcome(step) {
                let proposal = TransferOutProposal::decode(out.accounts[2].data);
                if t.asset.chain == CHAIN_ID_SOLANA {
                    let written = crate::outbound::transfer_native_out_spec(
                        program_id,
                        accounts,
                        t,
                        crate::outbound::native_out_facts(program_id, accounts, t, clock),
                        crate::outbound::create_custody_spec(program_id, accounts),
                    )->Ok_0.0;
                    written.lemma_round_trip();
                    lemma_u64_at(seq![3u8], t.amount, Seq::empty());
                    let lock = out.calls.last();
                    assert(lock.instruction.data =~= seq![3u8] + crate::codec::u64_le(
                        t.amount,
                    ) + Seq::<u8>::empty());
                } else {
                    let written = crate::outbound::transfer_out_spec(
                        program_id,
                        accounts,
                        t,
                        crate::outbound::transfer_out_facts(program_id, accounts, t, clock),
                    )->Ok_0.0;
                    written.lemma_round_trip();
                }
            }
        },
        Step::PostVaa { program_id, accounts, v, hash, clock, accepted } => {
            if let Ok(out) = step_outcome(step) {
                match v.payload {
                    Some(VAABody::Transfer(b)) => {
                        lemma_u64_at(seq![3u8], b.amount, Seq::empty());
                        let call = out.calls[0];
                        if b.asset.chain == CHAIN_ID_SOLANA {
                            assert(call.instruction.data =~= seq![3u8]
                                + crate::codec::u64_le(b.amount) + Seq::<u8>::empty());
                            assert(Pubkey { bytes: b.asset.address } == accounts[3].key);
                        }
                    },
                    _ => {},
                }
            }
        },
    }
}

/// Over any sequence of invocations, the tokens moved into a custody account
/// are the sum of the amounts of the proposals that reference it, less the
/// amounts released from it by inbound transfers. The custody account must be
/// on neither the sending side of a transfer out nor the receiving side of an
/// inbound transfer.
pub proof fn lemma_conservation(steps: Seq<Step>, custody: Pubkey, n: int)
    requires
        0 <= n <= steps.len(),
        forall|k: int| 0 <= k < n ==> !is_counterparty(#[trigger] steps[k], custody),
    ensures
        locked_total(steps, custody, n) == proposed_total(steps, custody, n) - released_total(
            steps,
            custody,
            n,
        ),
    decreases n,
{
    if n > 0 {
        lemma_conservation(steps, custody, n - 1);
        lemma_step_conserves(steps[n - 1], custody);
    }
}

} // verus!

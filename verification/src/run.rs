//! Invocations of the bridge as values, to speak of runs of them.

use crate::account::AccountView;
use crate::error::Error;
use crate::inbound::vaa_outcome;
use crate::instruction::TransferOutPayload;
use crate::keys::{Clock, Pubkey, RawKey, CHAIN_ID_SOLANA};
use crate::outbound::{transfer_native_out_outcome, transfer_out_outcome};
use crate::instruction::BridgeInstruction;
use crate::processor::{initialize_outcome, posted_vaa, process_outcome, Outcome};
use crate::state::BridgeConfig;
use crate::vaa::VAA;
use vstd::prelude::*;

verus! {

/// One invocation of the bridge.
pub enum Step {
    /// The bridge is initialized.
    Initialize {
        program_id: Pubkey,
        accounts: Seq<AccountView>,
        key: RawKey,
        config: BridgeConfig,
        clock: Clock,
    },
    /// Tokens are sent out: an asset of the local chain is locked, any other
    /// is burnt.
    TransferOut {
        program_id: Pubkey,
        accounts: Seq<AccountView>,
        t: TransferOutPayload,
        clock: Clock,
    },
    /// A message of the guardians is posted; `accepted` is the signature
    /// primitive's answer.
    PostVaa {
        program_id: Pubkey,
        accounts: Seq<AccountView>,
        v: VAA,
        hash: [u8; 32],
        clock: Clock,
        accepted: bool,
    },
}

/// What an invocation leaves behind.
pub open spec fn step_outcome(step: Step) -> Result<Outcome, Error> {
    match step {
        Step::Initialize { program_id, accounts, key, config, clock } => initialize_outcome(
            program_id,
            accounts,
            key,
            config,
            clock,
        ),
        Step::TransferOut { program_id, accounts, t, clock } => if t.asset.chain
            == CHAIN_ID_SOLANA {
            transfer_native_out_outcome(program_id, accounts, t, clock)
        } else {
            transfer_out_outcome(program_id, accounts, t, clock)
        },
        Step::PostVaa { program_id, accounts, v, hash, clock, accepted } => vaa_outcome(
            program_id,
            accounts,
            v,
            hash,
            clock,
            accepted,
        ),
    }
}

/// The accounts that an invocation is handed.
pub open spec fn step_accounts(step: Step) -> Seq<AccountView> {
    match step {
        Step::Initialize { accounts, .. } => accounts,
        Step::TransferOut { accounts, .. } => accounts,
        Step::PostVaa { accounts, .. } => accounts,
    }
}

/// The program that an invocation runs as.
pub open spec fn step_program(step: Step) -> Pubkey {
    match step {
        Step::Initialize { program_id, .. } => program_id,
        Step::TransferOut { program_id, .. } => program_id,
        Step::PostVaa { program_id, .. } => program_id,
    }
}

/// The invocation that an encoded instruction stands for, where `accepted`
/// is the signature primitive's answer if it is asked.
pub open spec fn step_of(
    program_id: Pubkey,
    accounts: Seq<AccountView>,
    input: Seq<u8>,
    clock: Clock,
    accepted: bool,
) -> Result<Step, Error> {
    match crate::instruction::deserialize_spec(input) {
        Err(e) => Err(e),
        Ok(BridgeInstruction::Initialize(p)) => Ok(
            Step::Initialize {
                program_id,
                accounts,
                key: p.initial_guardian,
                config: p.config,
                clock,
            },
        ),
        Ok(BridgeInstruction::TransferOut(t)) => Ok(
            Step::TransferOut { program_id, accounts, t, clock },
        ),
        Ok(BridgeInstruction::PostVAA(body)) => match posted_vaa(body) {
            Err(e) => Err(e),
            Ok((v, hash)) => Ok(Step::PostVaa { program_id, accounts, v, hash, clock, accepted }),
        },
    }
}

/// Processing an encoded instruction is the invocation that it stands for.
pub proof fn lemma_process_is_a_step(
    program_id: Pubkey,
    accounts: Seq<AccountView>,
    input: Seq<u8>,
    clock: Clock,
    accepted: bool,
)
    ensures
        process_outcome(program_id, accounts, input, clock, accepted) == match step_of(
            program_id,
            accounts,
            input,
            clock,
            accepted,
        ) {
            Ok(step) => step_outcome(step),
            Err(e) => Err(e),
        },
{
}

} // verus!

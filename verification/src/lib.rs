//! A custodial vault for native ledger value: one controlling identity
//! deposits and withdraws units of value in a balance-holding account it does
//! not own directly. Both account addresses are derived deterministically
//! from the identity and two single-byte bumps; a two-byte state record keeps
//! the bumps; a threshold-close policy drains and releases both accounts
//! rather than leave a sub-threshold balance behind.

use vstd::prelude::*;

pub mod account;
pub mod error;
pub mod pda;
pub mod instructions;
pub mod state;

use vstd::slice::{slice_subrange, slice_to_vec};

use crate::account::{bytes_eq, config_wf, snaps, Account, AccountSnap, Config, ConfigSnap};
use crate::error::VaultError;
use crate::instructions::deposit::{
    deposit_feasible, process_deposit_instruction, spec_deposit, DepositOutcome,
};
use crate::instructions::withdraw::{
    process_withdraw_instruction, spec_withdraw, withdraw_feasible, WithdrawOutcome,
};
use crate::instructions::VaultInstructions;

verus! {

/// What a routed instruction did, by operation.
#[derive(Clone, Copy, Debug, PartialEq, Eq)]
pub enum InstructionOutcome {
    Deposit(DepositOutcome),
    Withdraw(WithdrawOutcome),
}

/// Dispatch as a function on the model: a call for another subsystem
/// identity is refused, an empty payload is refused, and the leading
/// discriminator byte routes the rest of the payload to one of the two
/// handlers.
pub open spec fn spec_process(
    program_id: Seq<u8>,
    accts: Seq<AccountSnap>,
    instruction_data: Seq<u8>,
    cfg: ConfigSnap,
) -> Result<InstructionOutcome, VaultError> {
    if program_id != cfg.program_id {
        Err(VaultError::AuthorizationError)
    } else if instruction_data.len() == 0 {
        Err(VaultError::MalformedInput)
    } else {
        let rest = instruction_data.subrange(1, instruction_data.len() as int);
        if instruction_data[0] == 0 {
            match spec_deposit(accts, rest, cfg) {
                Ok(o) => Ok(InstructionOutcome::Deposit(o)),
                Err(e) => Err(e),
            }
        } else if instruction_data[0] == 1 {
            match spec_withdraw(accts, rest, cfg) {
                Ok(o) => Ok(InstructionOutcome::Withdraw(o)),
                Err(e) => Err(e),
            }
        } else {
            Err(VaultError::MalformedInput)
        }
    }
}

/// The host-primitive domain of whichever handler the discriminator byte
/// selects.
pub open spec fn instruction_feasible(
    accts: Seq<AccountSnap>,
    instruction_data: Seq<u8>,
    cfg: ConfigSnap,
) -> bool {
    let rest = instruction_data.subrange(1, instruction_data.len() as int);
    &&& instruction_data.len() >= 1 && instruction_data[0] == 0 ==> deposit_feasible(
        accts,
        rest,
        cfg,
    )
    &&& instruction_data.len() >= 1 && instruction_data[0] == 1 ==> withdraw_feasible(accts, cfg)
}

/// Routes an incoming call: checks that it is addressed to this subsystem,
/// splits off the discriminator byte, and hands the rest to the deposit or
/// withdraw handler.
pub fn process_instruction(
    program_id: &Vec<u8>,
    accounts: &Vec<Account>,
    instruction_data: &Vec<u8>,
    cfg: &Config,
) -> (r: Result<InstructionOutcome, VaultError>)
    requires
        config_wf(cfg@),
        instruction_feasible(snaps(accounts@), instruction_data@, cfg@),
    ensures
        r == spec_process(program_id@, snaps(accounts@), instruction_data@, cfg@),
{
    if !bytes_eq(program_id, &cfg.program_id) {
        return Err(VaultError::AuthorizationError);
    }
    if instruction_data.len() == 0 {
        return Err(VaultError::MalformedInput);
    }
    let discriminator = instruction_data[0];
    let rest = slice_to_vec(
        slice_subrange(instruction_data.as_slice(), 1, instruction_data.len()),
    );
    match VaultInstructions::try_from(discriminator) {
        Ok(VaultInstructions::Deposit) => match process_deposit_instruction(
            accounts,
            &rest,
            cfg,
        ) {
            Ok(o) => Ok(InstructionOutcome::Deposit(o)),
            Err(e) => Err(e),
        },
        Ok(VaultInstructions::Withdraw) => match process_withdraw_instruction(
            accounts,
            &rest,
            cfg,
        ) {
            Ok(o) => Ok(InstructionOutcome::Withdraw(o)),
            Err(e) => Err(e),
        },
        Err(e) => Err(e),
    }
}

} // verus!

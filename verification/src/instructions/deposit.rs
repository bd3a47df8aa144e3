use vstd::prelude::*;

use vstd::bytes::{spec_u64_from_le_bytes, u64_from_le_bytes};
use vstd::slice::slice_subrange;

use crate::account::{bytes_eq, config_wf, snaps, Account, AccountSnap, Config, ConfigSnap};
use crate::error::VaultError;
use crate::pda::{derive_address, pda_of, state_seeds, state_tag, vault_seeds, vault_tag};
use crate::state::Vault;

verus! {

/// What a successful deposit leaves behind: the three accounts' final
/// balances, and the record written when this was the vault's first use.
#[derive(Clone, Copy, Debug, PartialEq, Eq)]
pub struct DepositOutcome {
    /// The depositor's balance afterwards.
    pub user_lamports: u64,
    /// The vault account's balance afterwards.
    pub vault_lamports: u64,
    /// The state account's balance afterwards.
    pub state_lamports: u64,
    /// The record written on first use; `None` when the vault was already
    /// initialized, whose record is then left untouched.
    pub created: Option<Vault>,
}

/// The deposit handler as a function on the model. The checks stand in
/// order: account arity, signer, vault ownership, payload length, state
/// address derivation, vault address derivation; then the init-if-needed
/// branch with its amount rule, and the unconditional transfer.
pub open spec fn spec_deposit(
    accts: Seq<AccountSnap>,
    data: Seq<u8>,
    cfg: ConfigSnap,
) -> Result<DepositOutcome, VaultError> {
    if accts.len() < 4 {
        Err(VaultError::AccountArityError)
    } else if !accts[0].is_signer {
        Err(VaultError::AuthorizationError)
    } else if accts[1].owner != cfg.system_program_id {
        Err(VaultError::AuthorizationError)
    } else if data.len() != 10 {
        Err(VaultError::MalformedInput)
    } else {
        let vault_bump = data[0];
        let state_bump = data[1];
        let amount = spec_u64_from_le_bytes(data.subrange(2, 10));
        let state_pda = pda_of(state_seeds(accts[0].key, state_bump), cfg.program_id);
        if state_pda != accts[2].key {
            Err(VaultError::AddressDerivationMismatch)
        } else if pda_of(vault_seeds(state_pda, vault_bump), cfg.program_id) != accts[1].key {
            Err(VaultError::AddressDerivationMismatch)
        } else if accts[2].owner != cfg.program_id {
            // First use: create and fund the state account, write the record,
            // and require the deposit to clear the dust threshold.
            if amount < cfg.min_balance_zero {
                Err(VaultError::PolicyViolation)
            } else {
                Ok(DepositOutcome {
                    user_lamports: (accts[0].lamports - cfg.min_balance_record - amount) as u64,
                    vault_lamports: (accts[1].lamports + amount) as u64,
                    state_lamports: cfg.min_balance_record,
                    created: Some(Vault { vault_bump, state_bump }),
                })
            }
        } else {
            // Already initialized: nothing is created or rewritten.
            if amount == 0 {
                Err(VaultError::PolicyViolation)
            } else {
                Ok(DepositOutcome {
                    user_lamports: (accts[0].lamports - amount) as u64,
                    vault_lamports: (accts[1].lamports + amount) as u64,
                    state_lamports: accts[2].lamports,
                    created: None,
                })
            }
        }
    }
}

/// The domain of the host's account-creation and native-transfer primitives,
/// which the deposit hands work to: the depositor can pay what the deposit
/// moves, the vault's balance stays within the native-value type, and a
/// not-yet-created state account is empty. The host ledger keeps the total
/// supply within these bounds, so every caller can establish this.
pub open spec fn deposit_feasible(accts: Seq<AccountSnap>, data: Seq<u8>, cfg: ConfigSnap) -> bool {
    accts.len() >= 4 && data.len() == 10 ==> {
        let amount = spec_u64_from_le_bytes(data.subrange(2, 10));
        &&& accts[1].lamports + amount <= u64::MAX
        &&& if accts[2].owner != cfg.program_id {
            &&& accts[0].lamports >= cfg.min_balance_record + amount
            &&& accts[2].lamports == 0
        } else {
            accts[0].lamports >= amount
        }
    }
}

/// Validates a deposit and computes its effect: on first use the state
/// account is created, funded with the record-sized minimum balance and
/// given the record; in both branches `amount` moves from the depositor to
/// the vault account.
pub fn process_deposit_instruction(
    accounts: &Vec<Account>,
    data: &Vec<u8>,
    cfg: &Config,
) -> (r: Result<DepositOutcome, VaultError>)
    requires
        config_wf(cfg@),
        deposit_feasible(snaps(accounts@), data@, cfg@),
    ensures
        r == spec_deposit(snaps(accounts@), data@, cfg@),
{
    proof {
        assert(snaps(accounts@).len() == accounts@.len());
    }
    if accounts.len() < 4 {
        return Err(VaultError::AccountArityError);
    }
    let user = &accounts[0];
    let vault = &accounts[1];
    let vault_state = &accounts[2];
    proof {
        assert(snaps(accounts@)[0] == user@);
        assert(snaps(accounts@)[1] == vault@);
        assert(snaps(accounts@)[2] == vault_state@);
    }
    if !user.is_signer {
        return Err(VaultError::AuthorizationError);
    }
    if !bytes_eq(&vault.owner, &cfg.system_program_id) {
        return Err(VaultError::AuthorizationError);
    }
    if data.len() != 10 {
        return Err(VaultError::MalformedInput);
    }
    let vault_bump = data[0];
    let state_bump = data[1];
    let amount = u64_from_le_bytes(slice_subrange(data.as_slice(), 2, 10));
    let tag_state = state_tag();
    let state_pda = derive_address(&tag_state, &user.key, state_bump, &cfg.program_id);
    if !bytes_eq(&state_pda, &vault_state.key) {
        return Err(VaultError::AddressDerivationMismatch);
    }
    let tag_vault = vault_tag();
    let vault_pda = derive_address(&tag_vault, &state_pda, vault_bump, &cfg.program_id);
    if !bytes_eq(&vault_pda, &vault.key) {
        return Err(VaultError::AddressDerivationMismatch);
    }
    if !bytes_eq(&vault_state.owner, &cfg.program_id) {
        if amount < cfg.min_balance_zero {
            return Err(VaultError::PolicyViolation);
        }
        let mut record = Vault { vault_bump: 0, state_bump: 0 };
        record.set_inner(vault_bump, state_bump);
        Ok(DepositOutcome {
            user_lamports: user.lamports - cfg.min_balance_record - amount,
            vault_lamports: vault.lamports + amount,
            state_lamports: cfg.min_balance_record,
            created: Some(record),
        })
    } else {
        if amount == 0 {
            return Err(VaultError::PolicyViolation);
        }
        Ok(DepositOutcome {
            user_lamports: user.lamports - amount,
            vault_lamports: vault.lamports + amount,
            state_lamports: vault_state.lamports,
            created: None,
        })
    }
}

/// Idempotent re-entry: a deposit to an already-initialized vault — one
/// whose state account this subsystem owns — creates nothing, leaves the
/// state account's balance alone, and is subject only to the `amount > 0`
/// rule, never to the first-use threshold rule: no lower bound on the amount
/// stands among what this lemma asks.
pub proof fn lemma_deposit_reentry(accts: Seq<AccountSnap>, data: Seq<u8>, cfg: ConfigSnap)
    requires
        accts.len() >= 4,
        accts[0].is_signer,
        accts[1].owner == cfg.system_program_id,
        data.len() == 10,
        pda_of(state_seeds(accts[0].key, data[1]), cfg.program_id) == accts[2].key,
        pda_of(vault_seeds(accts[2].key, data[0]), cfg.program_id) == accts[1].key,
        accts[2].owner == cfg.program_id,
        spec_u64_from_le_bytes(data.subrange(2, 10)) > 0,
    ensures
        spec_deposit(accts, data, cfg) matches Ok(o) && {
            &&& o.created is None
            &&& o.state_lamports == accts[2].lamports
            &&& o.vault_lamports == (accts[1].lamports + spec_u64_from_le_bytes(
                data.subrange(2, 10),
            )) as u64
        },
{
}

} // verus!

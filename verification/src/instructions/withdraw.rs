use vstd::prelude::*;

use vstd::bytes::{spec_u64_from_le_bytes, u64_from_le_bytes};

use crate::account::{bytes_eq, config_wf, snaps, Account, AccountSnap, Config, ConfigSnap};
use crate::error::VaultError;
use crate::pda::{derive_address, pda_of, state_seeds, state_tag, vault_seeds, vault_tag};
use crate::state::Vault;

verus! {

/// What a successful withdrawal leaves behind: the three accounts' final
/// balances, and whether the vault was closed.
#[derive(Clone, Copy, Debug, PartialEq, Eq)]
pub struct WithdrawOutcome {
    /// The withdrawer's balance afterwards.
    pub user_lamports: u64,
    /// The vault account's balance afterwards; zero when closed.
    pub vault_lamports: u64,
    /// The state account's balance afterwards; zero when closed.
    pub state_lamports: u64,
    /// Whether the threshold-close policy drained both accounts.
    pub closed: bool,
}

/// The withdraw handler as a function on the model. The checks stand in
/// order: account arity, signer, vault ownership, state ownership, payload
/// length, record length; the bumps are then read from the stored record,
/// never from the caller, both addresses are re-derived and checked, and the
/// amount rules and the threshold-close decision follow.
pub open spec fn spec_withdraw(
    accts: Seq<AccountSnap>,
    data: Seq<u8>,
    cfg: ConfigSnap,
) -> Result<WithdrawOutcome, VaultError> {
    if accts.len() < 4 {
        Err(VaultError::AccountArityError)
    } else if !accts[0].is_signer {
        Err(VaultError::AuthorizationError)
    } else if accts[1].owner != cfg.system_program_id {
        Err(VaultError::AuthorizationError)
    } else if accts[2].owner != cfg.program_id {
        Err(VaultError::AuthorizationError)
    } else if data.len() != 8 {
        Err(VaultError::MalformedInput)
    } else if accts[2].data.len() != 2 {
        Err(VaultError::MalformedInput)
    } else {
        let vault_bump = accts[2].data[0];
        let state_bump = accts[2].data[1];
        let state_pda = pda_of(state_seeds(accts[0].key, state_bump), cfg.program_id);
        if state_pda != accts[2].key {
            Err(VaultError::AddressDerivationMismatch)
        } else if pda_of(vault_seeds(state_pda, vault_bump), cfg.program_id) != accts[1].key {
            Err(VaultError::AddressDerivationMismatch)
        } else {
            let amount = spec_u64_from_le_bytes(data);
            if amount > accts[1].lamports {
                Err(VaultError::PolicyViolation)
            } else if amount == 0 {
                Err(VaultError::PolicyViolation)
            } else if accts[1].lamports - amount < cfg.min_balance_zero {
                // Threshold close: the whole combined balance goes to the
                // withdrawer, and both accounts end empty.
                Ok(WithdrawOutcome {
                    user_lamports: (accts[0].lamports + accts[1].lamports
                        + accts[2].lamports) as u64,
                    vault_lamports: 0,
                    state_lamports: 0,
                    closed: true,
                })
            } else {
                Ok(WithdrawOutcome {
                    user_lamports: (accts[0].lamports + amount) as u64,
                    vault_lamports: (accts[1].lamports - amount) as u64,
                    state_lamports: accts[2].lamports,
                    closed: false,
                })
            }
        }
    }
}

/// The domain of the host's native-transfer primitive and balance
/// accounting: the withdrawer's credit stays within the native-value type
/// even when the close path hands over both accounts' balances. The host
/// ledger keeps the total supply within this bound, so every caller can
/// establish it.
pub open spec fn withdraw_feasible(accts: Seq<AccountSnap>, cfg: ConfigSnap) -> bool {
    accts.len() >= 4
        ==> accts[0].lamports + accts[1].lamports + accts[2].lamports <= u64::MAX
}

/// Validates a withdrawal and computes its effect: the bumps come from the
/// stored record, both addresses are re-derived and checked, and a
/// withdrawal that would leave the vault below the dust threshold drains and
/// closes both accounts instead.
pub fn process_withdraw_instruction(
    accounts: &Vec<Account>,
    data: &Vec<u8>,
    cfg: &Config,
) -> (r: Result<WithdrawOutcome, VaultError>)
    requires
        config_wf(cfg@),
        withdraw_feasible(snaps(accounts@), cfg@),
    ensures
        r == spec_withdraw(snaps(accounts@), data@, cfg@),
{
    proof {
        assert(snaps(accounts@).len() == accounts@.len());
    }
    if accounts.len() < 4 {
        return Err(VaultError::AccountArityError);
    }
    let user = &accounts[0];
    let vault = &accounts[1];
    let vault_state = &accounts[2];
    proof {
        assert(snaps(accounts@)[0] == user@);
        assert(snaps(accounts@)[1] == vault@);
        assert(snaps(accounts@)[2] == vault_state@);
    }
    if !user.is_signer {
        return Err(VaultError::AuthorizationError);
    }
    if !bytes_eq(&vault.owner, &cfg.system_program_id) {
        return Err(VaultError::AuthorizationError);
    }
    if !bytes_eq(&vault_state.owner, &cfg.program_id) {
        return Err(VaultError::AuthorizationError);
    }
    if data.len() != 8 {
        return Err(VaultError::MalformedInput);
    }
    let record = match Vault::from_account_info(vault_state) {
        Ok(record) => record,
        Err(e) => {
            return Err(e);
        },
    };
    let tag_state = state_tag();
    let state_pda = derive_address(&tag_state, &user.key, record.state_bump, &cfg.program_id);
    if !bytes_eq(&state_pda, &vault_state.key) {
        return Err(VaultError::AddressDerivationMismatch);
    }
    let tag_vault = vault_tag();
    let vault_pda = derive_address(&tag_vault, &state_pda, record.vault_bump, &cfg.program_id);
    if !bytes_eq(&vault_pda, &vault.key) {
        return Err(VaultError::AddressDerivationMismatch);
    }
    let amount = u64_from_le_bytes(data.as_slice());
    if amount > vault.lamports {
        return Err(VaultError::PolicyViolation);
    }
    if amount == 0 {
        return Err(VaultError::PolicyViolation);
    }
    if vault.lamports - amount < cfg.min_balance_zero {
        Ok(WithdrawOutcome {
            user_lamports: user.lamports + vault.lamports + vault_state.lamports,
            vault_lamports: 0,
            state_lamports: 0,
            closed: true,
        })
    } else {
        Ok(WithdrawOutcome {
            user_lamports: user.lamports + amount,
            vault_lamports: vault.lamports - amount,
            state_lamports: vault_state.lamports,
            closed: false,
        })
    }
}

/// Threshold-close correctness: a withdrawal that succeeds while leaving
/// less than the dust threshold in the vault always ends with both the vault
/// and the state account at zero, and the full combined balance credited to
/// the withdrawer.
pub proof fn lemma_threshold_close(accts: Seq<AccountSnap>, data: Seq<u8>, cfg: ConfigSnap)
    requires
        withdraw_feasible(accts, cfg),
        spec_withdraw(accts, data, cfg) is Ok,
        accts.len() >= 4,
        data.len() == 8,
        accts[1].lamports - spec_u64_from_le_bytes(data) < cfg.min_balance_zero,
    ensures
        spec_withdraw(accts, data, cfg) matches Ok(w) && {
            &&& w.closed
            &&& w.vault_lamports == 0
            &&& w.state_lamports == 0
            &&& w.user_lamports == accts[0].lamports + accts[1].lamports + accts[2].lamports
        },
{
}

/// The non-negative balance rule: when every check up to the amount rules
/// passes but the requested amount exceeds the vault's balance, the
/// withdrawal fails with exactly `PolicyViolation` — and, the handler being a
/// pure transition, an error changes no balance and no record.
pub proof fn lemma_overdraw_refused(accts: Seq<AccountSnap>, data: Seq<u8>, cfg: ConfigSnap)
    requires
        accts.len() >= 4,
        accts[0].is_signer,
        accts[1].owner == cfg.system_program_id,
        accts[2].owner == cfg.program_id,
        data.len() == 8,
        accts[2].data.len() == 2,
        pda_of(state_seeds(accts[0].key, accts[2].data[1]), cfg.program_id) == accts[2].key,
        pda_of(vault_seeds(accts[2].key, accts[2].data[0]), cfg.program_id) == accts[1].key,
        spec_u64_from_le_bytes(data) > accts[1].lamports,
    ensures
        spec_withdraw(accts, data, cfg) == Err::<WithdrawOutcome, VaultError>(
            VaultError::PolicyViolation,
        ),
{
}

} // verus!

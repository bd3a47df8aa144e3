use vstd::prelude::*;

use vstd::bytes::spec_u64_from_le_bytes;

use crate::account::{AccountSnap, ConfigSnap};
use crate::error::VaultError;
use crate::pda::{pda_of, state_seeds, vault_seeds};

pub mod deposit;
pub mod withdraw;

use crate::instructions::deposit::{deposit_feasible, spec_deposit, DepositOutcome};
use crate::instructions::withdraw::{spec_withdraw, WithdrawOutcome};

verus! {

/// The two operations the vault serves, told apart on the wire by a leading
/// discriminator byte.
#[derive(Clone, Copy, Debug, PartialEq, Eq, Structural)]
pub enum VaultInstructions {
    Deposit,
    Withdraw,
}

impl VaultInstructions {
    /// What a discriminator byte selects: 0 the deposit, 1 the withdraw, and
    /// any other value is refused.
    pub open spec fn spec_try_from(value: u8) -> Result<VaultInstructions, VaultError> {
        if value == 0 {
            Ok(VaultInstructions::Deposit)
        } else if value == 1 {
            Ok(VaultInstructions::Withdraw)
        } else {
            Err(VaultError::MalformedInput)
        }
    }

    /// Selects the operation a discriminator byte names.
    pub fn try_from(value: u8) -> (r: Result<VaultInstructions, VaultError>)
        ensures
            r == Self::spec_try_from(value),
    {
        match value {
            0 => Ok(VaultInstructions::Deposit),
            1 => Ok(VaultInstructions::Withdraw),
            _ => Err(VaultError::MalformedInput),
        }
    }
}

/// The account set after the host applies a deposit outcome: the three
/// balances take their final values, and on first use the state account
/// passes to this subsystem with the record as its payload.
pub open spec fn apply_deposit(
    accts: Seq<AccountSnap>,
    o: DepositOutcome,
    cfg: ConfigSnap,
) -> Seq<AccountSnap> {
    let user = AccountSnap { lamports: o.user_lamports, ..accts[0] };
    let vault = AccountSnap { lamports: o.vault_lamports, ..accts[1] };
    let state = match o.created {
        Some(rec) => AccountSnap {
            lamports: o.state_lamports,
            owner: cfg.program_id,
            data: rec.spec_bytes(),
            ..accts[2]
        },
        None => AccountSnap { lamports: o.state_lamports, ..accts[2] },
    };
    accts.update(0, user).update(1, vault).update(2, state)
}

/// The account set after the host applies a withdraw outcome: only the three
/// balances change; the record's payload is never rewritten.
pub open spec fn apply_withdraw(accts: Seq<AccountSnap>, o: WithdrawOutcome) -> Seq<AccountSnap> {
    accts.update(0, AccountSnap { lamports: o.user_lamports, ..accts[0] }).update(
        1,
        AccountSnap { lamports: o.vault_lamports, ..accts[1] },
    ).update(2, AccountSnap { lamports: o.state_lamports, ..accts[2] })
}

/// An initialized vault's binding invariants: the state account belongs to
/// this subsystem and holds exactly the two bumps; its address derives from
/// the controlling identity and the stored state bump; and the vault
/// account's address derives from the state account's address and the
/// stored vault bump.
pub open spec fn vault_well_formed(
    user: AccountSnap,
    vault: AccountSnap,
    state: AccountSnap,
    cfg: ConfigSnap,
) -> bool {
    &&& state.owner == cfg.program_id
    &&& state.data.len() == 2
    &&& state.key == pda_of(state_seeds(user.key, state.data[1]), cfg.program_id)
    &&& vault.key == pda_of(vault_seeds(state.key, state.data[0]), cfg.program_id)
}

/// A first deposit initializes the vault: afterwards the binding invariants
/// hold, the state account carries exactly the record-sized minimum balance,
/// and the vault account's balance clears the dust threshold.
pub proof fn lemma_first_deposit_initializes(
    accts: Seq<AccountSnap>,
    data: Seq<u8>,
    cfg: ConfigSnap,
    d: DepositOutcome,
)
    requires
        deposit_feasible(accts, data, cfg),
        spec_deposit(accts, data, cfg) == Ok::<DepositOutcome, VaultError>(d),
        d.created is Some,
    ensures
        ({
            let ap = apply_deposit(accts, d, cfg);
            &&& vault_well_formed(ap[0], ap[1], ap[2], cfg)
            &&& ap[1].lamports >= cfg.min_balance_zero
            &&& ap[2].lamports == cfg.min_balance_record
        }),
{
}

/// Round trip: after a deposit of some amount into an already-initialized
/// vault whose record matches the supplied bumps, a withdrawal of the same
/// amount — one that leaves the prior vault balance, itself at least the
/// dust threshold, behind — succeeds as a partial withdrawal and restores
/// every balance exactly: the vault, the state account and the identity's
/// own balance end where they began, and the record is untouched.
pub proof fn lemma_round_trip(
    accts: Seq<AccountSnap>,
    dep_data: Seq<u8>,
    wd_data: Seq<u8>,
    cfg: ConfigSnap,
    d: DepositOutcome,
)
    requires
        deposit_feasible(accts, dep_data, cfg),
        spec_deposit(accts, dep_data, cfg) == Ok::<DepositOutcome, VaultError>(d),
        d.created is None,
        dep_data.len() == 10,
        wd_data.len() == 8,
        spec_u64_from_le_bytes(wd_data) == spec_u64_from_le_bytes(dep_data.subrange(2, 10)),
        accts[2].data == seq![dep_data[0], dep_data[1]],
        accts[1].lamports >= cfg.min_balance_zero,
    ensures
        spec_withdraw(apply_deposit(accts, d, cfg), wd_data, cfg) matches Ok(w) && {
            &&& !w.closed
            &&& w.user_lamports == accts[0].lamports
            &&& w.vault_lamports == accts[1].lamports
            &&& w.state_lamports == accts[2].lamports
        },
        apply_deposit(accts, d, cfg)[2].data == accts[2].data,
{
    let ap = apply_deposit(accts, d, cfg);
    assert(ap[0].key == accts[0].key);
    assert(ap[2].data == accts[2].data);
    assert(ap[2].data[1] == dep_data[1] && ap[2].data[0] == dep_data[0]);
}

/// A partial withdrawal keeps the vault initialized: the binding invariants
/// still hold afterwards, and the vault's remaining balance still clears the
/// dust threshold.
pub proof fn lemma_partial_withdraw_preserves(
    accts: Seq<AccountSnap>,
    data: Seq<u8>,
    cfg: ConfigSnap,
    w: WithdrawOutcome,
)
    requires
        accts.len() >= 4,
        spec_withdraw(accts, data, cfg) == Ok::<WithdrawOutcome, VaultError>(w),
        !w.closed,
        vault_well_formed(accts[0], accts[1], accts[2], cfg),
    ensures
        ({
            let ap = apply_withdraw(accts, w);
            &&& vault_well_formed(ap[0], ap[1], ap[2], cfg)
            &&& ap[1].lamports >= cfg.min_balance_zero
        }),
{
}

} // verus!

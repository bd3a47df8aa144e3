use vstd::prelude::*;

verus! {

/// A snapshot of a ledger account, as plain values: the pieces of the host
/// ledger's account model that the vault logic reads or changes.
#[derive(Debug, Clone)]
pub struct Account {
    /// The account's 32-byte address.
    pub key: Vec<u8>,
    /// The account's native-value balance.
    pub lamports: u64,
    /// The 32-byte identity of the program that owns the account.
    pub owner: Vec<u8>,
    /// Whether this account authorized the transaction.
    pub is_signer: bool,
    /// The account's payload.
    pub data: Vec<u8>,
}

/// The mathematical model of an account snapshot.
pub ghost struct AccountSnap {
    pub key: Seq<u8>,
    pub lamports: u64,
    pub owner: Seq<u8>,
    pub is_signer: bool,
    pub data: Seq<u8>,
}

impl View for Account {
    type V = AccountSnap;

    open spec fn view(&self) -> AccountSnap {
        AccountSnap {
            key: self.key@,
            lamports: self.lamports,
            owner: self.owner@,
            is_signer: self.is_signer,
            data: self.data@,
        }
    }
}

/// The models of a sequence of accounts.
pub open spec fn snaps(s: Seq<Account>) -> Seq<AccountSnap> {
    s.map_values(|a: Account| a@)
}

/// Host parameters fixed at registration time: the subsystem's own identity,
/// the identity of the native-transfer mechanism, and the host ledger's
/// minimum-balance thresholds.
pub struct Config {
    /// This subsystem's 32-byte identity; derived addresses are bound to it.
    pub program_id: Vec<u8>,
    /// The 32-byte identity of the native-transfer mechanism, which owns
    /// every plain value-holding account.
    pub system_program_id: Vec<u8>,
    /// The smallest balance a zero-payload account may hold without being
    /// reclaimable dust.
    pub min_balance_zero: u64,
    /// The smallest balance an account sized for the vault state record may
    /// hold; the first deposit funds the state account with exactly this.
    pub min_balance_record: u64,
}

/// The mathematical model of the host parameters.
pub ghost struct ConfigSnap {
    pub program_id: Seq<u8>,
    pub system_program_id: Seq<u8>,
    pub min_balance_zero: u64,
    pub min_balance_record: u64,
}

impl View for Config {
    type V = ConfigSnap;

    open spec fn view(&self) -> ConfigSnap {
        ConfigSnap {
            program_id: self.program_id@,
            system_program_id: self.system_program_id@,
            min_balance_zero: self.min_balance_zero,
            min_balance_record: self.min_balance_record,
        }
    }
}

/// Well-formed host parameters: both identities are 32-byte addresses.
pub open spec fn config_wf(c: ConfigSnap) -> bool {
    &&& c.program_id.len() == 32
    &&& c.system_program_id.len() == 32
}

/// Byte-for-byte equality of two byte strings.
pub fn bytes_eq(a: &Vec<u8>, b: &Vec<u8>) -> (r: bool)
    ensures
        r == (a@ == b@),
{
    if a.len() != b.len() {
        return false;
    }
    let mut i: usize = 0;
    while i < a.len()
        invariant
            i <= a@.len(),
            a@.len() == b@.len(),
            forall|j: int| 0 <= j < i ==> a@[j] == b@[j],
        decreases a@.len() - i,
    {
        if a[i] != b[i] {
            return false;
        }
        i += 1;
    }
    proof {
        assert(a@ =~= b@);
    }
    true
}

} // verus!

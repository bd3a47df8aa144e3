use vstd::prelude::*;

use crate::account::Account;
use crate::error::VaultError;

verus! {

/// The vault state record: the two bumps needed to reconstruct both derived
/// addresses. Written once, when the vault is initialized, and never
/// rewritten afterwards.
#[derive(Clone, Copy, Debug, PartialEq, Eq, Structural)]
pub struct Vault {
    /// The bump of the vault account's derivation.
    pub vault_bump: u8,
    /// The bump of the state account's derivation.
    pub state_bump: u8,
}

impl Vault {
    /// The exact encoded length of the record.
    pub const LEN: usize = 2;

    /// The record's fixed byte layout: byte 0 the vault bump, byte 1 the
    /// state bump.
    pub open spec fn spec_bytes(self) -> Seq<u8> {
        seq![self.vault_bump, self.state_bump]
    }

    /// What decoding a payload yields: the record when the payload is exactly
    /// two bytes, and `MalformedInput` on any other length.
    pub open spec fn spec_decode(data: Seq<u8>) -> Result<Vault, VaultError> {
        if data.len() == 2 {
            Ok(Vault { vault_bump: data[0], state_bump: data[1] })
        } else {
            Err(VaultError::MalformedInput)
        }
    }

    /// Decodes a record from a payload, with an exact-length check.
    pub fn from_bytes(data: &Vec<u8>) -> (r: Result<Vault, VaultError>)
        ensures
            r == Self::spec_decode(data@),
    {
        if data.len() != 2 {
            return Err(VaultError::MalformedInput);
        }
        Ok(Vault { vault_bump: data[0], state_bump: data[1] })
    }

    /// Encodes the record back into its fixed byte layout.
    pub fn to_bytes(&self) -> (r: Vec<u8>)
        ensures
            r@ == self.spec_bytes(),
    {
        let mut v: Vec<u8> = Vec::new();
        v.push(self.vault_bump);
        v.push(self.state_bump);
        proof {
            assert(v@ =~= self.spec_bytes());
        }
        v
    }

    /// Reads the record held in a state account's payload.
    pub fn from_account_info(account: &Account) -> (r: Result<Vault, VaultError>)
        ensures
            r == Self::spec_decode(account@.data),
    {
        Self::from_bytes(&account.data)
    }

    /// Overwrites both bumps at once, as record initialization does.
    pub fn set_inner(&mut self, vault_bump: u8, state_bump: u8)
        ensures
            final(self).vault_bump == vault_bump,
            final(self).state_bump == state_bump,
    {
        self.vault_bump = vault_bump;
        self.state_bump = state_bump;
    }
}

/// Encoding then decoding a record gives the record back: the persisted
/// layout loses nothing.
pub proof fn lemma_record_round_trip(v: Vault)
    ensures
        Vault::spec_decode(v.spec_bytes()) == Ok::<Vault, VaultError>(v),
{
}

} // verus!

use vstd::prelude::*;

verus! {

/// The ASCII bytes of the tag `"state"`, the first seed of a state account.
pub open spec fn state_tag_bytes() -> Seq<u8> {
    seq![115u8, 116u8, 97u8, 116u8, 101u8]
}

/// The ASCII bytes of the tag `"vault"`, the first seed of a vault account.
pub open spec fn vault_tag_bytes() -> Seq<u8> {
    seq![118u8, 97u8, 117u8, 108u8, 116u8]
}

/// The address that the host ledger's derivation scheme maps an ordered seed
/// tuple and a subsystem identity to. The mapping is a hash of the seeds and
/// the identity: it depends on them alone, and nothing short of the hash
/// itself states its value.
pub uninterp spec fn pda_of(seeds: Seq<Seq<u8>>, program_id: Seq<u8>) -> Seq<u8>;

/// The seed tuple of a state account: the tag `"state"`, the controlling
/// identity, and the state bump.
pub open spec fn state_seeds(user_key: Seq<u8>, state_bump: u8) -> Seq<Seq<u8>> {
    seq![state_tag_bytes(), user_key, seq![state_bump]]
}

/// The seed tuple of a vault account: the tag `"vault"`, the state account's
/// address, and the vault bump.
pub open spec fn vault_seeds(state_key: Seq<u8>, vault_bump: u8) -> Seq<Seq<u8>> {
    seq![vault_tag_bytes(), state_key, seq![vault_bump]]
}

/// The tag `"state"` as bytes.
pub fn state_tag() -> (r: Vec<u8>)
    ensures
        r@ == state_tag_bytes(),
{
    let mut v: Vec<u8> = Vec::new();
    v.push(115);
    v.push(116);
    v.push(97);
    v.push(116);
    v.push(101);
    proof {
        assert(v@ =~= state_tag_bytes());
    }
    v
}

/// The tag `"vault"` as bytes.
pub fn vault_tag() -> (r: Vec<u8>)
    ensures
        r@ == vault_tag_bytes(),
{
    let mut v: Vec<u8> = Vec::new();
    v.push(118);
    v.push(97);
    v.push(117);
    v.push(108);
    v.push(116);
    proof {
        assert(v@ =~= vault_tag_bytes());
    }
    v
}

/// Relies on `pinocchio_pubkey::derive_address_const`: it computes the derived
/// address as the SHA-256 hash of the seeds, the program id and a fixed
/// marker, a pure function of its arguments alone (direct mode: the bump
/// stands inside the seed tuple and is not searched for).
#[verifier::external_body]
pub(crate) fn derive_address(tag: &Vec<u8>, key: &Vec<u8>, bump: u8, program_id: &Vec<u8>) -> (r: Vec<u8>)
    requires
        program_id@.len() == 32,
    ensures
        r@ == pda_of(seq![tag@, key@, seq![bump]], program_id@),
        r@.len() == 32,
{
    let pid: [u8; 32] = program_id.as_slice().try_into().unwrap();
    let bump_seed: [u8; 1] = [bump];
    let seeds: [&[u8]; 3] = [tag.as_slice(), key.as_slice(), &bump_seed];
    pinocchio_pubkey::derive_address_const(&seeds, None, &pid).to_vec()
}

/// Determinism of the deriver: any two addresses derived from identical seed
/// tuples and the same subsystem identity are identical.
pub proof fn lemma_derive_deterministic(
    seeds: Seq<Seq<u8>>,
    program_id: Seq<u8>,
    a: Seq<u8>,
    b: Seq<u8>,
)
    requires
        a == pda_of(seeds, program_id),
        b == pda_of(seeds, program_id),
    ensures
        a == b,
{
}

} // verus!

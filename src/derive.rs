use vstd::prelude::*;
use crate::key::Key;

verus! {

/// The program-derived address, with its bump seed, that the token runtime
/// finds for `seeds` under `program`, or `None` where it finds none.
pub uninterp spec fn program_address_of(seeds: Seq<Seq<u8>>, program: Seq<u8>) -> Option<(Seq<u8>, u8)>;

/// The view of a derived address and its bump seed.
pub open spec fn found_view(r: Option<(Key, u8)>) -> Option<(Seq<u8>, u8)> {
    match r {
        Some((k, b)) => Some((k@, b)),
        None => None,
    }
}

/// Relies on `Pubkey::try_find_program_address` of solana-program (through
/// anchor-lang): the address and bump seed depend on the seeds and the
/// program id alone, and the call returns `None` instead of panicking.
#[verifier::external_body]
fn try_find_program_address(seeds: &Vec<Vec<u8>>, program: &Key) -> (r: Option<(Key, u8)>)
    ensures
        found_view(r) == program_address_of(seeds.deep_view(), program@),
{
    let slices: Vec<&[u8]> = seeds.iter().map(|s| s.as_slice()).collect();
    let program_id = anchor_lang::prelude::Pubkey::new_from_array(program.bytes);
    anchor_lang::prelude::Pubkey::try_find_program_address(&slices, &program_id)
        .map(|(address, bump)| (Key { bytes: address.to_bytes() }, bump))
}

/// The namespace tag under which each mint's vault record is derived.
pub open spec fn vault_seed() -> Seq<u8> {
    seq![118u8, 97u8, 117u8, 108u8, 116u8]
}

/// The vault record's address and bump seed for `mint` under `program`.
pub open spec fn vault_address_spec(program: Seq<u8>, mint: Seq<u8>) -> Option<(Seq<u8>, u8)> {
    program_address_of(seq![vault_seed(), mint], program)
}

/// The associated token account of `wallet` for `mint`: the address derived
/// under the associated-token program from the wallet, the token program and
/// the mint.
pub open spec fn associated_address_spec(
    token_program: Seq<u8>,
    associated_program: Seq<u8>,
    wallet: Seq<u8>,
    mint: Seq<u8>,
) -> Option<Seq<u8>> {
    match program_address_of(seq![wallet, token_program, mint], associated_program) {
        Some((a, _)) => Some(a),
        None => None,
    }
}

/// Derives the vault record's address and bump seed for `mint`.
pub fn find_vault_address(program: &Key, mint: &Key) -> (r: Option<(Key, u8)>)
    ensures
        found_view(r) == vault_address_spec(program@, mint@),
{
    let tag: Vec<u8> = vec![118u8, 97u8, 117u8, 108u8, 116u8];
    let key: Vec<u8> = mint.to_vec();
    assert(tag.deep_view() =~= vault_seed());
    assert(key.deep_view() =~= mint@);
    let seeds: Vec<Vec<u8>> = vec![tag, key];
    assert(seeds.deep_view() =~= seq![vault_seed(), mint@]);
    try_find_program_address(&seeds, program)
}

/// Derives the associated token account of `wallet` for `mint`.
pub fn find_associated_address(
    token_program: &Key,
    associated_program: &Key,
    wallet: &Key,
    mint: &Key,
) -> (r: Option<Key>)
    ensures
        match r {
            Some(k) => associated_address_spec(token_program@, associated_program@, wallet@, mint@)
                == Some(k@),
            None => associated_address_spec(token_program@, associated_program@, wallet@, mint@)
                is None,
        },
{
    let w: Vec<u8> = wallet.to_vec();
    let t: Vec<u8> = token_program.to_vec();
    let m: Vec<u8> = mint.to_vec();
    assert(w.deep_view() =~= wallet@);
    assert(t.deep_view() =~= token_program@);
    assert(m.deep_view() =~= mint@);
    let seeds: Vec<Vec<u8>> = vec![w, t, m];
    assert(seeds.deep_view() =~= seq![wallet@, token_program@, mint@]);
    match try_find_program_address(&seeds, associated_program) {
        Some((address, _)) => Some(address),
        None => None,
    }
}

/// Deriving a vault's address twice from the same program and mint gives the
/// same address and bump seed.
pub proof fn lemma_vault_address_deterministic(program: Seq<u8>, mint1: Seq<u8>, mint2: Seq<u8>)
    requires
        mint1 == mint2,
    ensures
        vault_address_spec(program, mint1) == vault_address_spec(program, mint2),
{
}

} // verus!

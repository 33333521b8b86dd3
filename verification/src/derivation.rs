//! Deterministic address derivation.
//!
//! An address is a 32-byte identifier. A derived address is computed from a
//! short namespace tag plus seed bytes by a deterministic search over bump
//! values: the search hashes `(tag, seed, bump, program_id)` and keeps the
//! first result that is not a valid curve point, so the resulting address is
//! program-controlled and has no corresponding private key.

use vstd::prelude::*;

use crate::ledger::VaultError;

verus! {

/// The result of the bump search for `(tag, seed)` under `program`: the first
/// `(address, bump)`, searching bumps downward, whose derived address is off
/// the curve, or `None` when the search space is exhausted.
pub uninterp spec fn pda_find(tag: Seq<u8>, seed: Seq<u8>, program: Seq<u8>) -> Option<(Seq<u8>, u8)>;

/// The address derived from `(tag, seed, bump)` under `program`, or `None`
/// when that combination hashes onto the curve (or the seeds are malformed).
pub uninterp spec fn pda_create(tag: Seq<u8>, seed: Seq<u8>, bump: u8, program: Seq<u8>) -> Option<Seq<u8>>;

/// Relies on `Pubkey::try_find_program_address` (anchor_lang's re-export of
/// solana_pubkey): a deterministic search over bump values, highest first,
/// that returns the first derived address not on the ed25519 curve, together
/// with its bump; the result depends on the arguments alone. Its source shows
/// that a returned pair re-derives under `create_program_address` with the
/// returned bump, and that a returned address is 32 bytes.
#[verifier::external_body]
fn find_program_address(tag: &Vec<u8>, seed: &Vec<u8>, program: &Vec<u8>) -> (r: Option<(Vec<u8>, u8)>)
    requires
        program@.len() == 32,
    ensures
        match r {
            Some(ab) => pda_find(tag@, seed@, program@) == Some((ab.0@, ab.1))
                && ab.0@.len() == 32
                && pda_create(tag@, seed@, ab.1, program@) == Some(ab.0@),
            None => pda_find(tag@, seed@, program@) is None,
        },
{
    let mut program_bytes = [0u8; 32];
    program_bytes.copy_from_slice(program.as_slice());
    let program_id = anchor_lang::prelude::Pubkey::new_from_array(program_bytes);
    let found = anchor_lang::prelude::Pubkey::try_find_program_address(
        &[tag.as_slice(), seed.as_slice()],
        &program_id,
    );
    found.map(|(address, bump)| (address.to_bytes().to_vec(), bump))
}

/// Relies on `Pubkey::create_program_address` (anchor_lang's re-export of
/// solana_pubkey): hashes `(tag, seed, [bump], program_id)` and returns the
/// 32-byte result, or an error when the seeds are malformed or the result is
/// a valid curve point; the result depends on the arguments alone.
#[verifier::external_body]
fn create_program_address(tag: &Vec<u8>, seed: &Vec<u8>, bump: u8, program: &Vec<u8>) -> (r: Option<Vec<u8>>)
    requires
        program@.len() == 32,
    ensures
        match r {
            Some(a) => pda_create(tag@, seed@, bump, program@) == Some(a@) && a@.len() == 32,
            None => pda_create(tag@, seed@, bump, program@) is None,
        },
{
    let mut program_bytes = [0u8; 32];
    program_bytes.copy_from_slice(program.as_slice());
    let program_id = anchor_lang::prelude::Pubkey::new_from_array(program_bytes);
    let made = anchor_lang::prelude::Pubkey::create_program_address(
        &[tag.as_slice(), seed.as_slice(), &[bump]],
        &program_id,
    );
    made.ok().map(|address| address.to_bytes().to_vec())
}

/// What `derive_address` returns: the found pair, or `DerivationExhausted`
/// when the bump search space is exhausted.
pub open spec fn derive_spec(tag: Seq<u8>, seed: Seq<u8>, program: Seq<u8>) -> Result<(Seq<u8>, u8), VaultError> {
    match pda_find(tag, seed, program) {
        Some(ab) => Ok(ab),
        None => Err(VaultError::DerivationExhausted),
    }
}

/// The view of a derivation result: the address as a byte sequence.
pub open spec fn derived_view(r: Result<(Vec<u8>, u8), VaultError>) -> Result<(Seq<u8>, u8), VaultError> {
    match r {
        Ok(ab) => Ok((ab.0@, ab.1)),
        Err(e) => Err(e),
    }
}

/// Derive the deterministic address for `(tag, seed)` under `program_id`,
/// together with its bump. Same inputs always yield the same pair; the search
/// can fail only by exhausting the bump space, reported as
/// `DerivationExhausted`.
pub fn derive_address(tag: &Vec<u8>, seed: &Vec<u8>, program_id: &Vec<u8>) -> (r: Result<(Vec<u8>, u8), VaultError>)
    requires
        program_id@.len() == 32,
    ensures
        derived_view(r) == derive_spec(tag@, seed@, program_id@),
        r matches Ok(ab) ==> ab.0@.len() == 32
            && pda_create(tag@, seed@, ab.1, program_id@) == Some(ab.0@),
{
    match find_program_address(tag, seed, program_id) {
        Some(ab) => Ok(ab),
        None => Err(VaultError::DerivationExhausted),
    }
}

/// Derivation is deterministic: the results of two calls of `derive_address`
/// on identical inputs, which its contract pins to `derive_spec`, are equal.
pub proof fn lemma_derive_deterministic(
    tag: Seq<u8>,
    seed: Seq<u8>,
    program: Seq<u8>,
    r1: Result<(Seq<u8>, u8), VaultError>,
    r2: Result<(Seq<u8>, u8), VaultError>,
)
    requires
        r1 == derive_spec(tag, seed, program),
        r2 == derive_spec(tag, seed, program),
    ensures
        r1 == r2,
{
}

/// Verify a supplied address against its derivation: true exactly when
/// `(tag, seed, bump)` derives under `program_id` to `supplied`.
pub fn check_derived(tag: &Vec<u8>, seed: &Vec<u8>, bump: u8, program_id: &Vec<u8>, supplied: &Vec<u8>) -> (r: bool)
    requires
        program_id@.len() == 32,
    ensures
        r == (pda_create(tag@, seed@, bump, program_id@) == Some(supplied@)),
{
    match create_program_address(tag, seed, bump, program_id) {
        Some(address) => crate::bytes_eq(&address, supplied),
        None => false,
    }
}

} // verus!

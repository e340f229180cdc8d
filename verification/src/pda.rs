//! Program addresses: the addresses that a program derives from seeds.
use vstd::prelude::*;
use crate::error::Error;
use crate::key::Pubkey;

verus! {

/// The program address of `program_id` for `seeds` (the last of which is
/// usually a bump), as `Pubkey::create_program_address` computes it; `None`
/// where it refuses the seeds or the address falls on the curve.
pub uninterp spec fn program_address(seeds: Seq<Seq<u8>>, program_id: Seq<u8>) -> Option<Seq<u8>>;

/// The program address of `program_id` for `seeds` with the highest bump
/// that gives one, and that bump, as `Pubkey::try_find_program_address`
/// computes them; `None` where no bump gives one.
pub uninterp spec fn found_program_address(seeds: Seq<Seq<u8>>, program_id: Seq<u8>) -> Option<
    (Seq<u8>, u8),
>;

/// Calls solana-program's `Pubkey::create_program_address`.
///
/// Trusted: the call hashes the seeds and the program id and is a function of
/// them alone; the contract names its result and says nothing more of it.
#[verifier::external_body]
pub(crate) fn create_program_address(seeds: &Vec<Vec<u8>>, program_id: &Pubkey) -> (r: Option<
    Pubkey,
>)
    ensures
        r is Some <==> program_address(seeds.deep_view(), program_id@) is Some,
        r is Some ==> r->0@ == program_address(seeds.deep_view(), program_id@)->0,
{
    let refs: Vec<&[u8]> = seeds.iter().map(|s| s.as_slice()).collect();
    let id = solana_program::pubkey::Pubkey::new_from_array(program_id.bytes);
    solana_program::pubkey::Pubkey::create_program_address(&refs, &id).ok().map(
        |k| Pubkey { bytes: k.to_bytes() },
    )
}

/// Calls solana-program's `Pubkey::try_find_program_address`, which
/// `Pubkey::find_program_address` calls and unwraps.
///
/// Trusted: the call tries the bumps from 255 down with
/// `create_program_address` and is a function of the seeds and the program id
/// alone; the contract names its result and says nothing more of it.
#[verifier::external_body]
pub(crate) fn find_program_address(seeds: &Vec<Vec<u8>>, program_id: &Pubkey) -> (r: Option<
    (Pubkey, u8),
>)
    ensures
        r is Some <==> found_program_address(seeds.deep_view(), program_id@) is Some,
        r is Some ==> ((r->0).0@, (r->0).1) == found_program_address(seeds.deep_view(), program_id@)->0,
{
    let refs: Vec<&[u8]> = seeds.iter().map(|s| s.as_slice()).collect();
    let id = solana_program::pubkey::Pubkey::new_from_array(program_id.bytes);
    solana_program::pubkey::Pubkey::try_find_program_address(&refs, &id).map(
        |(k, bump)| (Pubkey { bytes: k.to_bytes() }, bump),
    )
}

/// What a `seeds = .., bump = ..` constraint gives for an account at `key`:
/// `seeds` end with the stored bump, and the account must be at the program
/// address they give.
pub open spec fn seeds_check(key: Pubkey, seeds: Seq<Seq<u8>>, program_id: Pubkey) -> Result<
    (),
    Error,
> {
    match program_address(seeds, program_id@) {
        Some(address) => if address == key@ {
            Ok(())
        } else {
            Err(Error::ConstraintSeeds)
        },
        None => Err(Error::ConstraintSeeds),
    }
}

/// Checks a `seeds = .., bump = ..` constraint.
pub(crate) fn check_seeds(key: &Pubkey, seeds: &Vec<Vec<u8>>, program_id: &Pubkey) -> (r: Result<
    (),
    Error,
>)
    ensures
        r == seeds_check(*key, seeds.deep_view(), *program_id),
{
    match create_program_address(seeds, program_id) {
        Some(address) => if address.same_as(key) {
            Ok(())
        } else {
            Err(Error::ConstraintSeeds)
        },
        None => Err(Error::ConstraintSeeds),
    }
}

/// What a `seeds = .., bump` constraint (no stored bump) gives for an
/// account at `key`: the bump found for `seeds` when the account is at the
/// address found, else `ConstraintSeeds`; `None` where no bump gives an
/// address, where the check panics.
pub open spec fn found_check(key: Pubkey, seeds: Seq<Seq<u8>>, program_id: Pubkey) -> Option<
    Result<u8, Error>,
> {
    match found_program_address(seeds, program_id@) {
        None => None,
        Some((address, bump)) => if address == key@ {
            Some(Ok(bump))
        } else {
            Some(Err(Error::ConstraintSeeds))
        },
    }
}

/// Checks a `seeds = .., bump` constraint.
pub(crate) fn check_found(key: &Pubkey, seeds: &Vec<Vec<u8>>, program_id: &Pubkey) -> (r: Option<
    Result<u8, Error>,
>)
    ensures
        r == found_check(*key, seeds.deep_view(), *program_id),
{
    match find_program_address(seeds, program_id) {
        None => None,
        Some((address, bump)) => if address.same_as(key) {
            Some(Ok(bump))
        } else {
            Some(Err(Error::ConstraintSeeds))
        },
    }
}

/// The seeds `parts` followed by the one-byte seed `bump`.
pub(crate) fn with_bump(parts: Vec<Vec<u8>>, bump: u8) -> (r: Vec<Vec<u8>>)
    ensures
        r.deep_view() =~= parts.deep_view().push(seq![bump]),
{
    let mut r = parts;
    let ghost before = r.deep_view();
    let mut b: Vec<u8> = Vec::new();
    b.push(bump);
    r.push(b);
    proof {
        assert(r.deep_view() =~= before.push(seq![bump])) by {
            assert(r@[r@.len() - 1].deep_view() =~= seq![bump]);
        }
    }
    r
}

} // verus!

//! Minting a game token of a collection.
use vstd::prelude::*;
use crate::action::Action;
use crate::error::Error;
use crate::key::Pubkey;
use crate::parse::{decimal_i64, parse_i64};
use crate::run::Run;
use super::state::{BurgerSeeds, ProgramDelegate, and_then, check_operator, operator_check};
use crate::key::{copy_bytes, holds_key, key_bytes};
use crate::pda::{
    check_found, check_seeds, found_check, found_program_address, program_address, seeds_check,
    with_bump,
};
use vstd::bytes::{spec_u64_to_le_bytes, u64_to_le_bytes};

verus! {

/// The accounts of a collection mint. `token_metadata_bump` is the bump of
/// the burger metadata address that the mint creates, as `check_constraints`
/// finds it.
#[derive(Clone, Copy, Debug, PartialEq, Eq)]
pub struct CollectionMint {
    pub mint: Pubkey,
    pub token_account: Pubkey,
    pub token_metadata: Pubkey,
    pub token_metadata_bump: u8,
    pub collection_config: Pubkey,
    pub permanent_delegate: ProgramDelegate,
    pub payer: Pubkey,
    pub rent: Pubkey,
    pub system_program: Pubkey,
    pub token22_program: Pubkey,
    pub associated_token: Pubkey,
    pub epplex_core: Pubkey,
}

/// The token to mint: its expiry date (a decimal Unix time), name, symbol,
/// URI and the counter of its collection.
#[derive(Clone, Debug, PartialEq, Eq)]
pub struct CollectionMintParams {
    pub expiry_date: String,
    pub name: String,
    pub symbol: String,
    pub uri: String,
    pub collection_counter: u64,
}

/// Whether a collection whose expiry date is the text `expiry_date` may be
/// minted at time `now`: only when that date is later than `now`. It reads
/// nothing else, so two validations with the same date and time agree.
pub open spec fn expiry_check(expiry_date: Seq<char>, now: i64) -> Result<(), Error> {
    if now >= decimal_i64(expiry_date)->0 {
        Err(Error::DateMustBeInTheFuture)
    } else {
        Ok(())
    }
}

/// The bumps that the account constraints of a collection mint find.
#[derive(Clone, Copy, Debug, PartialEq, Eq)]
pub struct CollectionMintBumps {
    pub token_metadata: u8,
    pub collection_config: u8,
}

impl CollectionMint {
    /// The actions of a collection mint: write the burger metadata, then mint
    /// the token through the core program, signed by the permanent delegate,
    /// which is also the token's update authority and the authority of the
    /// collection.
    pub open spec fn actuate_plan(&self, params: CollectionMintParams) -> Seq<Action> {
        seq![
            Action::WriteBurgerMetadata { bump: self.token_metadata_bump },
            Action::MintCollectionToken {
                core_program: self.epplex_core,
                mint: self.mint,
                token_account: self.token_account,
                permanent_delegate: self.permanent_delegate.key,
                update_authority: self.permanent_delegate.key,
                payer: self.payer,
                rent: self.rent,
                authority: self.permanent_delegate.key,
                collection_config: self.collection_config,
                system_program: self.system_program,
                token_program: self.token22_program,
                associated_token_program: self.associated_token,
                delegate_bump: self.permanent_delegate.bump,
                name: params.name,
                symbol: params.symbol,
                uri: params.uri,
                collection_id: params.collection_counter,
                expiry_date: params.expiry_date,
            },
        ]
    }

    /// What the account constraints of a collection mint give, in the order
    /// in which they are checked (the account that the instruction creates
    /// first, then the others in the order of the accounts), the first that
    /// fails giving its error: the burger metadata is at the address found for
    /// its prefix and the mint; the collection configuration is at the
    /// address found for `collection_seed` and the collection counter in
    /// little-endian bytes under the core program; the permanent delegate is
    /// at its address (its prefix, its bump); and the payer is one of
    /// `admins`. On success, the bumps found. `None` where no bump gives an
    /// address, where the check panics. `program_id` is the burger program's
    /// address.
    pub open spec fn constraints_check(
        &self,
        params: CollectionMintParams,
        admins: Seq<Pubkey>,
        program_id: Pubkey,
        metadata_seed: Seq<u8>,
        collection_seed: Seq<u8>,
        delegate_seed: Seq<u8>,
    ) -> Option<Result<CollectionMintBumps, Error>> {
        match found_check(self.token_metadata, seq![metadata_seed, self.mint@], program_id) {
            None => None,
            Some(Err(e)) => Some(Err(e)),
            Some(Ok(metadata_bump)) => match found_check(
                self.collection_config,
                seq![collection_seed, spec_u64_to_le_bytes(params.collection_counter)],
                self.epplex_core,
            ) {
                None => None,
                Some(Err(e)) => Some(Err(e)),
                Some(Ok(config_bump)) => match and_then(
                    seeds_check(
                        self.permanent_delegate.key,
                        seq![delegate_seed, seq![self.permanent_delegate.bump]],
                        program_id,
                    ),
                    operator_check(self.payer, admins),
                ) {
                    Err(e) => Some(Err(e)),
                    Ok(()) => Some(
                        Ok(
                            CollectionMintBumps {
                                token_metadata: metadata_bump,
                                collection_config: config_bump,
                            },
                        ),
                    ),
                },
            },
        }
    }

    /// Checks the account constraints of a collection mint; `seeds` holds
    /// the burger program's prefixes and `collection_seed` the core
    /// program's prefix of collection configurations.
    pub fn check_constraints(
        &self,
        params: &CollectionMintParams,
        admins: &Vec<Pubkey>,
        program_id: &Pubkey,
        seeds: &BurgerSeeds,
        collection_seed: &Vec<u8>,
    ) -> (r: Option<Result<CollectionMintBumps, Error>>)
        ensures
            r == self.constraints_check(
                *params,
                admins@,
                *program_id,
                seeds.burger_metadata@,
                collection_seed@,
                seeds.program_delegate@,
            ),
    {
        let mut metadata_seeds: Vec<Vec<u8>> = Vec::new();
        metadata_seeds.push(copy_bytes(&seeds.burger_metadata));
        metadata_seeds.push(key_bytes(&self.mint));
        proof {
            assert(metadata_seeds.deep_view() =~= seq![seeds.burger_metadata@, self.mint@]);
        }
        let metadata_bump = match check_found(&self.token_metadata, &metadata_seeds, program_id) {
            None => {
                return None;
            },
            Some(Err(e)) => {
                return Some(Err(e));
            },
            Some(Ok(b)) => b,
        };
        let mut config_seeds: Vec<Vec<u8>> = Vec::new();
        config_seeds.push(copy_bytes(collection_seed));
        let le = u64_to_le_bytes(params.collection_counter);
        proof {
            assert(le.deep_view() =~= le@);
        }
        config_seeds.push(le);
        proof {
            assert(config_seeds.deep_view() =~= seq![
                collection_seed@,
                spec_u64_to_le_bytes(params.collection_counter),
            ]);
        }
        let config_bump = match check_found(&self.collection_config, &config_seeds, &self.epplex_core) {
            None => {
                return None;
            },
            Some(Err(e)) => {
                return Some(Err(e));
            },
            Some(Ok(b)) => b,
        };
        let mut delegate_seeds: Vec<Vec<u8>> = Vec::new();
        delegate_seeds.push(copy_bytes(&seeds.program_delegate));
        proof {
            assert(delegate_seeds.deep_view() =~= seq![seeds.program_delegate@]);
        }
        let delegate_seeds = with_bump(delegate_seeds, self.permanent_delegate.bump);
        proof {
            assert(delegate_seeds.deep_view() =~= seq![
                seeds.program_delegate@,
                seq![self.permanent_delegate.bump],
            ]);
        }
        if let Err(e) = check_seeds(&self.permanent_delegate.key, &delegate_seeds, program_id) {
            return Some(Err(e));
        }
        if let Err(e) = check_operator(&self.payer, admins) {
            return Some(Err(e));
        }
        Some(Ok(CollectionMintBumps { token_metadata: metadata_bump, collection_config: config_bump }))
    }

    /// Whether the mint may go on at time `now`: the expiry date must be
    /// later than `now`. The expiry date must be a decimal `i64` (the
    /// instruction panics on any other text).
    pub fn validate(&self, params: &CollectionMintParams, now: i64) -> (r: Result<(), Error>)
        requires
            decimal_i64(params.expiry_date@) is Some,
        ensures
            r == expiry_check(params.expiry_date@, now),
    {
        let expiry_date = match parse_i64(params.expiry_date.as_str()) {
            Some(v) => v,
            None => {
                return Err(Error::DateMustBeInTheFuture);
            },
        };
        if now >= expiry_date {
            return Err(Error::DateMustBeInTheFuture);
        }
        Ok(())
    }

    /// The run of a collection mint.
    pub fn actuate(&self, params: CollectionMintParams) -> (r: Run)
        ensures
            r.well_formed(),
            r.plan() == self.actuate_plan(params),
            r.plan()[1]->collection_id == params.collection_counter,
            r.issued() == 0,
            !r.is_over(),
    {
        let ghost p = params;
        let mut plan: Vec<Action> = Vec::new();
        plan.push(Action::WriteBurgerMetadata { bump: self.token_metadata_bump });
        plan.push(
            Action::MintCollectionToken {
                core_program: self.epplex_core,
                mint: self.mint,
                token_account: self.token_account,
                permanent_delegate: self.permanent_delegate.key,
                update_authority: self.permanent_delegate.key,
                payer: self.payer,
                rent: self.rent,
                authority: self.permanent_delegate.key,
                collection_config: self.collection_config,
                system_program: self.system_program,
                token_program: self.token22_program,
                associated_token_program: self.associated_token,
                delegate_bump: self.permanent_delegate.bump,
                name: params.name,
                symbol: params.symbol,
                uri: params.uri,
                collection_id: params.collection_counter,
                expiry_date: params.expiry_date,
            },
        );
        proof {
            assert(plan@ =~= self.actuate_plan(p));
        }
        Run::new(plan)
    }
}

} // verus!

verus! {

/// Every collection mint first writes the burger metadata with the bump
/// found for it, then mints through the core program a token of the
/// collection whose counter the parameters give, with the parameters' name,
/// symbol, URI and expiry date, the permanent delegate being the token's
/// permanent delegate, update authority and signing authority.
pub proof fn law_collection_mint_mints_into_the_given_collection(
    mint: CollectionMint,
    params: CollectionMintParams,
)
    ensures
        ({
            let p = mint.actuate_plan(params);
            &&& p.len() == 2
            &&& p[0] == (Action::WriteBurgerMetadata { bump: mint.token_metadata_bump })
            &&& p[1] matches Action::MintCollectionToken {
                core_program,
                mint: m,
                token_account,
                permanent_delegate,
                update_authority,
                payer,
                rent,
                authority,
                collection_config,
                system_program,
                token_program,
                associated_token_program,
                delegate_bump,
                name,
                symbol,
                uri,
                collection_id,
                expiry_date,
            } && collection_id == params.collection_counter && name == params.name && symbol
                == params.symbol && uri == params.uri && expiry_date == params.expiry_date
                && core_program == mint.epplex_core && m == mint.mint && token_account
                == mint.token_account && permanent_delegate == mint.permanent_delegate.key
                && update_authority == mint.permanent_delegate.key && authority
                == mint.permanent_delegate.key && delegate_bump == mint.permanent_delegate.bump
                && payer == mint.payer && collection_config == mint.collection_config && rent
                == mint.rent && system_program == mint.system_program && token_program
                == mint.token22_program && associated_token_program == mint.associated_token
        }),
{
}

/// A collection is accepted for minting exactly when its expiry date is
/// later than the time of the check; moving the check later never turns a
/// refusal into an acceptance.
pub proof fn law_collection_mint_expiry(expiry_date: Seq<char>, now: i64, later: i64)
    requires
        decimal_i64(expiry_date) is Some,
        now <= later,
    ensures
        expiry_check(expiry_date, now) is Ok <==> now < decimal_i64(expiry_date)->0,
        expiry_check(expiry_date, now) is Err ==> expiry_check(expiry_date, now) == Err::<(), Error>(
            Error::DateMustBeInTheFuture,
        ),
        expiry_check(expiry_date, now) is Err ==> expiry_check(expiry_date, later) is Err,
{
}

} // verus!

verus! {

/// The account constraints accept a collection mint exactly when all of
/// them hold, and then give the bumps found: the burger metadata is at the
/// address found for its prefix and the mint; the collection configuration
/// is at the address found for its prefix and the parameters' collection
/// counter under the core program; the permanent delegate is at the program
/// address of its seeds; and the payer is an operator.
pub proof fn law_collection_mint_constraints_accept_exactly_when_all_hold(
    mint: CollectionMint,
    params: CollectionMintParams,
    admins: Seq<Pubkey>,
    program_id: Pubkey,
    metadata_seed: Seq<u8>,
    collection_seed: Seq<u8>,
    delegate_seed: Seq<u8>,
)
    ensures
        ({
            let r = mint.constraints_check(
                params,
                admins,
                program_id,
                metadata_seed,
                collection_seed,
                delegate_seed,
            );
            let meta = found_program_address(seq![metadata_seed, mint.mint@], program_id@);
            let config = found_program_address(
                seq![collection_seed, spec_u64_to_le_bytes(params.collection_counter)],
                mint.epplex_core@,
            );
            let all_hold = {
                &&& meta is Some
                &&& (meta->0).0 == mint.token_metadata@
                &&& config is Some
                &&& (config->0).0 == mint.collection_config@
                &&& program_address(
                    seq![delegate_seed, seq![mint.permanent_delegate.bump]],
                    program_id@,
                ) == Some(mint.permanent_delegate.key@)
                &&& holds_key(admins, mint.payer)
            };
            &&& all_hold ==> r == Some(
                Ok::<CollectionMintBumps, Error>(
                    CollectionMintBumps {
                        token_metadata: (meta->0).1,
                        collection_config: (config->0).1,
                    },
                ),
            )
            &&& (r is Some && r->0 is Ok) ==> all_hold
        }),
{
}

} // verus!

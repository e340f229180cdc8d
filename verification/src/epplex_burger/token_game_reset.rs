//! Resetting a token's game state between rounds.
use vstd::prelude::*;
use crate::action::{Action, MetadataField};
use crate::error::Error;
use crate::key::Pubkey;
use crate::run::Run;
use super::state::{
    BurgerSeeds, GameConfig, GameStatus, MintAccount, ProgramDelegate, and_then, check_nft_mint,
    check_operator, nft_mint_check, operator_check,
};
use crate::key::{copy_bytes, holds_key, key_bytes};
use crate::pda::{
    check_found, check_seeds, found_check, found_program_address, program_address, seeds_check,
    with_bump,
};

verus! {

/// The accounts of a game reset.
#[derive(Clone, Copy, Debug, PartialEq, Eq)]
pub struct TokenGameReset {
    pub mint: MintAccount,
    pub group_member: Pubkey,
    pub payer: Pubkey,
    pub game_config: GameConfig,
    pub update_authority: ProgramDelegate,
    pub token22_program: Pubkey,
    pub system_program: Pubkey,
}

/// The reset takes no parameters.
#[derive(Clone, Copy, Debug, PartialEq, Eq)]
pub struct TokenGameResetParams {}

impl TokenGameReset {
    /// The update of one key of the token metadata, signed by the program's
    /// delegate.
    pub open spec fn update_of(&self, field: MetadataField, value: &'static str) -> Action {
        Action::UpdateTokenMetadata {
            token_program: self.token22_program,
            mint: self.mint.key,
            update_authority: self.update_authority.key,
            delegate_bump: self.update_authority.bump,
            field,
            value,
        }
    }

    /// The actions of a reset up to reading the clock: the game state and the
    /// voting timestamp are set to the empty string and the new immunity to
    /// `"false"`, in that order.
    pub open spec fn actuate_plan(&self) -> Seq<Action> {
        seq![
            self.update_of(MetadataField::GameState, ""),
            self.update_of(MetadataField::VotingTimestamp, ""),
            self.update_of(MetadataField::NewImmunity, "false"),
        ]
    }

    /// The rest of a reset at time `now`: announce the reset of the token in
    /// the current round at that time, then top the mint up to its
    /// rent-exempt minimum, paid by the payer.
    pub open spec fn finish_plan(&self, now: i64) -> Seq<Action> {
        seq![
            Action::EmitTokenGameReset {
                nft: self.mint.key,
                game_round_id: self.game_config.game_round,
                reset_timestamp: now,
            },
            Action::TopUpToMinimumBalance {
                account: self.mint.key,
                payer: self.payer,
                system_program: self.system_program,
            },
        ]
    }

    /// What the account constraints of a reset give, in the order of the
    /// accounts, the first that fails giving its error: the mint is a
    /// one-of-one token (no decimals, a supply of one) owned by the token-2022
    /// program; the group member is at the address found for `member_seed`
    /// and the mint under the group program `group_program`; the payer is one
    /// of `admins`; the game configuration is at its address (its prefix, its
    /// bump); and so is the update authority (the program delegate's prefix,
    /// its bump). `None` where no bump gives the group member an address,
    /// where the check panics. `program_id` is the burger program's address.
    pub open spec fn constraints_check(
        &self,
        admins: Seq<Pubkey>,
        program_id: Pubkey,
        group_program: Pubkey,
        member_seed: Seq<u8>,
        game_seed: Seq<u8>,
        delegate_seed: Seq<u8>,
    ) -> Option<Result<(), Error>> {
        if nft_mint_check(self.mint, self.token22_program) is Err {
            Some(nft_mint_check(self.mint, self.token22_program))
        } else {
            match found_check(self.group_member, seq![member_seed, self.mint.key@], group_program) {
                None => None,
                Some(Err(e)) => Some(Err(e)),
                Some(Ok(_)) => Some(
                    and_then(
                        operator_check(self.payer, admins),
                        and_then(
                            seeds_check(
                                self.game_config.key,
                                seq![game_seed, seq![self.game_config.bump]],
                                program_id,
                            ),
                            seeds_check(
                                self.update_authority.key,
                                seq![delegate_seed, seq![self.update_authority.bump]],
                                program_id,
                            ),
                        ),
                    ),
                ),
            }
        }
    }

    /// Checks the account constraints of a reset.
    pub fn check_constraints(
        &self,
        admins: &Vec<Pubkey>,
        program_id: &Pubkey,
        group_program: &Pubkey,
        member_seed: &Vec<u8>,
        seeds: &BurgerSeeds,
    ) -> (r: Option<Result<(), Error>>)
        ensures
            r == self.constraints_check(
                admins@,
                *program_id,
                *group_program,
                member_seed@,
                seeds.game_config@,
                seeds.program_delegate@,
            ),
    {
        let mint = check_nft_mint(&self.mint, &self.token22_program);
        if mint.is_err() {
            return Some(mint);
        }
        let mut member_seeds: Vec<Vec<u8>> = Vec::new();
        member_seeds.push(copy_bytes(member_seed));
        member_seeds.push(key_bytes(&self.mint.key));
        proof {
            assert(member_seeds.deep_view() =~= seq![member_seed@, self.mint.key@]);
        }
        match check_found(&self.group_member, &member_seeds, group_program) {
            None => {
                return None;
            },
            Some(Err(e)) => {
                return Some(Err(e));
            },
            Some(Ok(_)) => {},
        }
        let operator = check_operator(&self.payer, admins);
        if operator.is_err() {
            return Some(operator);
        }
        let mut game_seeds: Vec<Vec<u8>> = Vec::new();
        game_seeds.push(copy_bytes(&seeds.game_config));
        proof {
            assert(game_seeds.deep_view() =~= seq![seeds.game_config@]);
        }
        let game_seeds = with_bump(game_seeds, self.game_config.bump);
        proof {
            assert(game_seeds.deep_view() =~= seq![seeds.game_config@, seq![self.game_config.bump]]);
        }
        let game = check_seeds(&self.game_config.key, &game_seeds, program_id);
        if game.is_err() {
            return Some(game);
        }
        let mut delegate_seeds: Vec<Vec<u8>> = Vec::new();
        delegate_seeds.push(copy_bytes(&seeds.program_delegate));
        proof {
            assert(delegate_seeds.deep_view() =~= seq![seeds.program_delegate@]);
        }
        let delegate_seeds = with_bump(delegate_seeds, self.update_authority.bump);
        proof {
            assert(delegate_seeds.deep_view() =~= seq![
                seeds.program_delegate@,
                seq![self.update_authority.bump],
            ]);
        }
        Some(check_seeds(&self.update_authority.key, &delegate_seeds, program_id))
    }

    /// Whether the reset may go on: the game must be able to evaluate
    /// (`can_evaluate`, the outcome of the game's own check), and, when a
    /// game is set up, the token must belong to the game's collection
    /// (`valid_collection`, the outcome of that check on the group member and
    /// the mint). The first check that fails gives the error.
    pub fn validate(
        &self,
        _params: &TokenGameResetParams,
        can_evaluate: Result<(), Error>,
        valid_collection: Result<(), Error>,
    ) -> (r: Result<(), Error>)
        ensures
            r == (match can_evaluate {
                Err(e) => Err(e),
                Ok(()) => if self.game_config.game_status is NoGame {
                    Ok(())
                } else {
                    valid_collection
                },
            }),
    {
        can_evaluate?;
        match self.game_config.game_status {
            GameStatus::NoGame => Ok(()),
            GameStatus::Other(_) => valid_collection,
        }
    }

    /// The run of a reset up to reading the clock.
    pub fn actuate(&self, _params: &TokenGameResetParams) -> (r: Run)
        ensures
            r.well_formed(),
            r.plan() == self.actuate_plan(),
            r.issued() == 0,
            !r.is_over(),
    {
        let mut plan: Vec<Action> = Vec::new();
        plan.push(self.update(MetadataField::GameState, ""));
        plan.push(self.update(MetadataField::VotingTimestamp, ""));
        plan.push(self.update(MetadataField::NewImmunity, "false"));
        proof {
            assert(plan@ =~= self.actuate_plan());
        }
        Run::new(plan)
    }

    /// The run of the rest of a reset, once the clock reads `now`.
    pub fn actuate_finish(&self, now: i64) -> (r: Run)
        ensures
            r.well_formed(),
            r.plan() == self.finish_plan(now),
            r.issued() == 0,
            !r.is_over(),
    {
        let mut plan: Vec<Action> = Vec::new();
        plan.push(
            Action::EmitTokenGameReset {
                nft: self.mint.key,
                game_round_id: self.game_config.game_round,
                reset_timestamp: now,
            },
        );
        plan.push(
            Action::TopUpToMinimumBalance {
                account: self.mint.key,
                payer: self.payer,
                system_program: self.system_program,
            },
        );
        proof {
            assert(plan@ =~= self.finish_plan(now));
        }
        Run::new(plan)
    }

    fn update(&self, field: MetadataField, value: &'static str) -> (a: Action)
        ensures
            a == self.update_of(field, value),
    {
        Action::UpdateTokenMetadata {
            token_program: self.token22_program,
            mint: self.mint.key,
            update_authority: self.update_authority.key,
            delegate_bump: self.update_authority.bump,
            field,
            value,
        }
    }
}

} // verus!

verus! {

/// Every reset, whatever the state of the game, sets the token's game state
/// and voting timestamp to the empty string and its new immunity to
/// `"false"`, in that order, each update signed by the program's delegate as
/// update authority of the token's metadata.
pub proof fn law_reset_clears_the_token_game_keys(reset: TokenGameReset, game: GameConfig)
    ensures
        ({
            let p = reset.actuate_plan();
            &&& p.len() == 3
            &&& p[0] == (Action::UpdateTokenMetadata {
                token_program: reset.token22_program,
                mint: reset.mint.key,
                update_authority: reset.update_authority.key,
                delegate_bump: reset.update_authority.bump,
                field: MetadataField::GameState,
                value: "",
            })
            &&& p[1] == (Action::UpdateTokenMetadata {
                token_program: reset.token22_program,
                mint: reset.mint.key,
                update_authority: reset.update_authority.key,
                delegate_bump: reset.update_authority.bump,
                field: MetadataField::VotingTimestamp,
                value: "",
            })
            &&& p[2] == (Action::UpdateTokenMetadata {
                token_program: reset.token22_program,
                mint: reset.mint.key,
                update_authority: reset.update_authority.key,
                delegate_bump: reset.update_authority.bump,
                field: MetadataField::NewImmunity,
                value: "false",
            })
            &&& TokenGameReset::actuate_plan(&(TokenGameReset { game_config: game, ..reset })) == p
        }),
{
}

/// Every reset then announces the reset of the token in the game's current
/// round at the time read, and tops the mint up to its rent-exempt minimum at
/// the payer's expense.
pub proof fn law_reset_announces_then_tops_up(reset: TokenGameReset, now: i64)
    ensures
        ({
            let p = reset.finish_plan(now);
            &&& p.len() == 2
            &&& p[0] == (Action::EmitTokenGameReset {
                nft: reset.mint.key,
                game_round_id: reset.game_config.game_round,
                reset_timestamp: now,
            })
            &&& p[1] == (Action::TopUpToMinimumBalance {
                account: reset.mint.key,
                payer: reset.payer,
                system_program: reset.system_program,
            })
        }),
{
}

} // verus!

verus! {

/// The account constraints accept a reset exactly when all of them hold:
/// the mint has no decimals, a supply of one and the token program as owner;
/// an address is found for the group member's seeds under the group program
/// and the group member is there; the payer is an operator; and the game
/// configuration and the update authority are at the program addresses of
/// their seeds. A mint that fails its constraints is refused with their
/// error, whatever the other accounts.
pub proof fn law_reset_constraints_accept_exactly_when_all_hold(
    reset: TokenGameReset,
    admins: Seq<Pubkey>,
    program_id: Pubkey,
    group_program: Pubkey,
    member_seed: Seq<u8>,
    game_seed: Seq<u8>,
    delegate_seed: Seq<u8>,
)
    ensures
        ({
            let r = reset.constraints_check(
                admins,
                program_id,
                group_program,
                member_seed,
                game_seed,
                delegate_seed,
            );
            let found = found_program_address(seq![member_seed, reset.mint.key@], group_program@);
            &&& r == Some(Ok::<(), Error>(())) <==> {
                &&& reset.mint.decimals == 0
                &&& reset.mint.supply == 1
                &&& reset.mint.owner@ == reset.token22_program@
                &&& found is Some
                &&& (found->0).0 == reset.group_member@
                &&& holds_key(admins, reset.payer)
                &&& program_address(seq![game_seed, seq![reset.game_config.bump]], program_id@)
                    == Some(reset.game_config.key@)
                &&& program_address(
                    seq![delegate_seed, seq![reset.update_authority.bump]],
                    program_id@,
                ) == Some(reset.update_authority.key@)
            }
            &&& reset.mint.decimals != 0 ==> r == Some(Err::<(), Error>(Error::ConstraintRaw))
            &&& reset.mint.decimals == 0 && reset.mint.supply != 1 ==> r == Some(
                Err::<(), Error>(Error::ConstraintRaw),
            )
            &&& reset.mint.decimals == 0 && reset.mint.supply == 1 && reset.mint.owner@
                != reset.token22_program@ ==> r == Some(
                Err::<(), Error>(Error::ConstraintMintTokenProgram),
            )
        }),
{
}

} // verus!

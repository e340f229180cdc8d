//! Burning a game token.
use vstd::prelude::*;
use crate::action::{Action, balances_after, closed_by};
use crate::error::Error;
use crate::key::{Pubkey, copy_bytes, holds_key, key_bytes};
use crate::pda::{check_seeds, program_address, seeds_check, with_bump};
use crate::run::Run;
use super::state::{
    BurgerMetadata, BurgerSeeds, GameConfig, MintAccount, ProgramDelegate, TokenAccount, and_then,
    check_nft_mint, check_operator, nft_mint_check, operator_check,
};

verus! {

/// The accounts of a burn. `game_config` is present when a game is set up.
#[derive(Clone, Copy, Debug, PartialEq, Eq)]
pub struct TokenBurn {
    pub mint: MintAccount,
    pub token_account: TokenAccount,
    pub token_metadata: BurgerMetadata,
    pub game_config: Option<GameConfig>,
    pub permanent_delegate: ProgramDelegate,
    pub payer: Pubkey,
    pub token22_program: Pubkey,
}

/// The burn takes no parameters.
#[derive(Clone, Copy, Debug, PartialEq, Eq)]
pub struct TokenBurnParams {}

impl TokenBurn {
    /// What the constraints on the token account give, in order: it holds
    /// tokens of the mint (`token::mint`) and is owned by the token-2022
    /// program (`token::token_program`).
    pub open spec fn token_account_check(&self) -> Result<(), Error> {
        if self.token_account.mint@ != self.mint.key@ {
            Err(Error::ConstraintTokenMint)
        } else if self.token_account.owner@ != self.token22_program@ {
            Err(Error::ConstraintTokenTokenProgram)
        } else {
            Ok(())
        }
    }

    /// What the account constraints of a burn give, in the order of the
    /// accounts, the first that fails giving its error: the mint is a
    /// one-of-one token owned by the token-2022 program; the token account
    /// holds that mint's tokens and is owned by the token-2022 program; the
    /// burger metadata is at its program address (seeds: its prefix, the
    /// mint, its bump) and is not the payer, to whom it is closed; the game
    /// configuration, when present, is at its program address (its prefix,
    /// its bump); so is the permanent delegate; and the payer is one of
    /// `admins`. `program_id` is the burger program's address.
    pub open spec fn constraints_check(
        &self,
        admins: Seq<Pubkey>,
        program_id: Pubkey,
        metadata_seed: Seq<u8>,
        game_seed: Seq<u8>,
        delegate_seed: Seq<u8>,
    ) -> Result<(), Error> {
        and_then(
            nft_mint_check(self.mint, self.token22_program),
            and_then(
                self.token_account_check(),
                and_then(
                    seeds_check(
                        self.token_metadata.key,
                        seq![metadata_seed, self.mint.key@, seq![self.token_metadata.bump]],
                        program_id,
                    ),
                    and_then(
                        if self.token_metadata.key@ == self.payer@ {
                            Err(Error::ConstraintClose)
                        } else {
                            Ok(())
                        },
                        and_then(
                            match self.game_config {
                                Some(game) => seeds_check(
                                    game.key,
                                    seq![game_seed, seq![game.bump]],
                                    program_id,
                                ),
                                None => Ok(()),
                            },
                            and_then(
                                seeds_check(
                                    self.permanent_delegate.key,
                                    seq![delegate_seed, seq![self.permanent_delegate.bump]],
                                    program_id,
                                ),
                                operator_check(self.payer, admins),
                            ),
                        ),
                    ),
                ),
            ),
        )
    }

    /// The actions of a burn up to reading the token account's owner: burn
    /// the token and close the mint (its lamports going to the payer), both
    /// signed by the permanent delegate, then read the owner.
    pub open spec fn actuate_plan(&self) -> Seq<Action> {
        seq![
            Action::BurnToken {
                mint: self.mint.key,
                token_account: self.token_account.key,
                token_program: self.token22_program,
                authority: self.permanent_delegate.key,
                delegate_bump: Some(self.permanent_delegate.bump),
            },
            Action::CloseMint {
                token_program: self.token22_program,
                mint: self.mint.key,
                destination: self.payer,
                authority: self.permanent_delegate.key,
                delegate_bump: Some(self.permanent_delegate.bump),
            },
            Action::ReadTokenAccountOwner { token_account: self.token_account.key },
        ]
    }

    /// The rest of a burn once the token account's owner is known: the token
    /// account is closed to the payer exactly when the payer owns it; the
    /// game counts the burn exactly when a game is set up; and, as the
    /// instruction ends, the burger metadata is closed to the payer.
    pub open spec fn finish_plan(&self, owner: Pubkey) -> Seq<Action> {
        let close: Seq<Action> = if owner@ == self.payer@ {
            seq![
                Action::CloseTokenAccount {
                    token_program: self.token22_program,
                    account: self.token_account.key,
                    destination: self.payer,
                    authority: self.payer,
                },
            ]
        } else {
            Seq::empty()
        };
        let count: Seq<Action> = if self.game_config is Some {
            seq![Action::BumpBurnAmount]
        } else {
            Seq::empty()
        };
        close + count + seq![
            Action::CloseProgramAccount {
                account: self.token_metadata.key,
                destination: self.payer,
            },
        ]
    }

    /// Checks the account constraints of a burn.
    pub fn check_constraints(&self, admins: &Vec<Pubkey>, program_id: &Pubkey, seeds: &BurgerSeeds) -> (r:
        Result<(), Error>)
        ensures
            r == self.constraints_check(
                admins@,
                *program_id,
                seeds.burger_metadata@,
                seeds.game_config@,
                seeds.program_delegate@,
            ),
    {
        check_nft_mint(&self.mint, &self.token22_program)?;
        if !self.token_account.mint.same_as(&self.mint.key) {
            return Err(Error::ConstraintTokenMint);
        }
        if !self.token_account.owner.same_as(&self.token22_program) {
            return Err(Error::ConstraintTokenTokenProgram);
        }
        let mut metadata_seeds: Vec<Vec<u8>> = Vec::new();
        metadata_seeds.push(copy_bytes(&seeds.burger_metadata));
        metadata_seeds.push(key_bytes(&self.mint.key));
        proof {
            assert(metadata_seeds.deep_view() =~= seq![seeds.burger_metadata@, self.mint.key@]);
        }
        let metadata_seeds = with_bump(metadata_seeds, self.token_metadata.bump);
        proof {
            assert(metadata_seeds.deep_view() =~= seq![
                seeds.burger_metadata@,
                self.mint.key@,
                seq![self.token_metadata.bump],
            ]);
        }
        check_seeds(&self.token_metadata.key, &metadata_seeds, program_id)?;
        if self.token_metadata.key.same_as(&self.payer) {
            return Err(Error::ConstraintClose);
        }
        match &self.game_config {
            Some(game) => {
                let mut game_seeds: Vec<Vec<u8>> = Vec::new();
                game_seeds.push(copy_bytes(&seeds.game_config));
                proof {
                    assert(game_seeds.deep_view() =~= seq![seeds.game_config@]);
                }
                let game_seeds = with_bump(game_seeds, game.bump);
                proof {
                    assert(game_seeds.deep_view() =~= seq![seeds.game_config@, seq![game.bump]]);
                }
                check_seeds(&game.key, &game_seeds, program_id)?;
            },
            None => {},
        }
        let mut delegate_seeds: Vec<Vec<u8>> = Vec::new();
        delegate_seeds.push(copy_bytes(&seeds.program_delegate));
        proof {
            assert(delegate_seeds.deep_view() =~= seq![seeds.program_delegate@]);
        }
        let delegate_seeds = with_bump(delegate_seeds, self.permanent_delegate.bump);
        proof {
            assert(delegate_seeds.deep_view() =~= seq![
                seeds.program_delegate@,
                seq![self.permanent_delegate.bump],
            ]);
        }
        check_seeds(&self.permanent_delegate.key, &delegate_seeds, program_id)?;
        check_operator(&self.payer, admins)
    }

    /// Whether the burn may go on. With a game set up, that is the outcome
    /// `game_can_evaluate` of the game's own check; without one, the outcome
    /// `token_has_expired` of the check that the token has expired.
    pub fn validate(
        &self,
        _params: &TokenBurnParams,
        game_can_evaluate: Result<(), Error>,
        token_has_expired: Result<(), Error>,
    ) -> (r: Result<(), Error>)
        ensures
            r == (if self.game_config is Some {
                game_can_evaluate
            } else {
                token_has_expired
            }),
    {
        match &self.game_config {
            Some(_) => game_can_evaluate,
            None => token_has_expired,
        }
    }

    /// The run of a burn up to reading the token account's owner.
    pub fn actuate(&self, _params: &TokenBurnParams) -> (r: Run)
        ensures
            r.well_formed(),
            r.plan() == self.actuate_plan(),
            r.issued() == 0,
            !r.is_over(),
    {
        let mut plan: Vec<Action> = Vec::new();
        plan.push(
            Action::BurnToken {
                mint: self.mint.key,
                token_account: self.token_account.key,
                token_program: self.token22_program,
                authority: self.permanent_delegate.key,
                delegate_bump: Some(self.permanent_delegate.bump),
            },
        );
        plan.push(
            Action::CloseMint {
                token_program: self.token22_program,
                mint: self.mint.key,
                destination: self.payer,
                authority: self.permanent_delegate.key,
                delegate_bump: Some(self.permanent_delegate.bump),
            },
        );
        plan.push(Action::ReadTokenAccountOwner { token_account: self.token_account.key });
        proof {
            assert(plan@ =~= self.actuate_plan());
        }
        Run::new(plan)
    }

    /// The run of the rest of a burn, once the token account's owner has
    /// been read.
    pub fn actuate_finish(&self, owner: Pubkey) -> (r: Run)
        ensures
            r.well_formed(),
            r.plan() == self.finish_plan(owner),
            r.issued() == 0,
            !r.is_over(),
    {
        let mut plan: Vec<Action> = Vec::new();
        if owner.same_as(&self.payer) {
            plan.push(
                Action::CloseTokenAccount {
                    token_program: self.token22_program,
                    account: self.token_account.key,
                    destination: self.payer,
                    authority: self.payer,
                },
            );
        }
        if self.game_config.is_some() {
            plan.push(Action::BumpBurnAmount);
        }
        plan.push(
            Action::CloseProgramAccount {
                account: self.token_metadata.key,
                destination: self.payer,
            },
        );
        proof {
            assert(plan@ =~= self.finish_plan(owner));
        }
        Run::new(plan)
    }
}

/// A burn closes the token account (to the payer) exactly when the payer
/// owns it, counts the burn in the game exactly when a game is set up, and
/// always closes the burger metadata to the payer as it ends; it does
/// nothing else once the owner is known.
pub proof fn law_burn_closes_only_the_payers_account(burn: TokenBurn, owner: Pubkey)
    ensures
        burn.finish_plan(owner).contains(
            Action::CloseTokenAccount {
                token_program: burn.token22_program,
                account: burn.token_account.key,
                destination: burn.payer,
                authority: burn.payer,
            },
        ) <==> owner@ == burn.payer@,
        burn.finish_plan(owner).contains(Action::BumpBurnAmount) <==> burn.game_config is Some,
        burn.finish_plan(owner).last() == (Action::CloseProgramAccount {
            account: burn.token_metadata.key,
            destination: burn.payer,
        }),
        forall|i: int|
            0 <= i < burn.finish_plan(owner).len() ==> (#[trigger] burn.finish_plan(owner)[i]
                is CloseTokenAccount || burn.finish_plan(owner)[i] is BumpBurnAmount
                || burn.finish_plan(owner)[i] is CloseProgramAccount),
{
    let close = Action::CloseTokenAccount {
        token_program: burn.token22_program,
        account: burn.token_account.key,
        destination: burn.payer,
        authority: burn.payer,
    };
    let plan = burn.finish_plan(owner);
    if owner@ == burn.payer@ {
        assert(plan[0] == close);
    }
    if burn.game_config is Some {
        assert(plan[plan.len() - 2] == Action::BumpBurnAmount);
    }
}

/// The closes of `a` then `b` leave what the closes of `b` leave after those
/// of `a`.
proof fn lemma_balances_after_concat(a: Seq<Action>, b: Seq<Action>, m: Map<Seq<u8>, int>)
    ensures
        balances_after(a + b, m) == balances_after(b, balances_after(a, m)),
    decreases a.len(),
{
    if a.len() > 0 {
        assert((a + b).drop_first() =~= a.drop_first() + b);
        let next = match closed_by(a[0]) {
            Some((account, destination)) => if account@ == destination@ {
                m
            } else {
                m.insert(destination@, m[destination@] + m[account@]).insert(account@, 0)
            },
            None => m,
        };
        lemma_balances_after_concat(a.drop_first(), b, next);
    } else {
        assert(a + b =~= b);
    }
}

/// A burn whose actions all succeed pays the payer what the mint, the burger
/// metadata and (when the payer owns it) the token account held, and leaves
/// those accounts with no lamports. `b` holds the balances before the burn,
/// and `owner` is the token account's owner read during it.
pub proof fn law_burn_pays_the_payer(burn: TokenBurn, owner: Pubkey, b: Map<Seq<u8>, int>)
    requires
        burn.mint.key@ != burn.payer@,
        burn.mint.key@ != burn.token_metadata.key@,
        burn.mint.key@ != burn.token_account.key@,
        burn.token_account.key@ != burn.payer@,
        burn.token_account.key@ != burn.token_metadata.key@,
        burn.token_metadata.key@ != burn.payer@,
    ensures
        ({
            let after = balances_after(burn.actuate_plan() + burn.finish_plan(owner), b);
            &&& after[burn.payer@] == b[burn.payer@] + b[burn.mint.key@] + b[burn.token_metadata.key@]
                + (if owner@ == burn.payer@ {
                b[burn.token_account.key@]
            } else {
                0
            })
            &&& after[burn.mint.key@] == 0
            &&& after[burn.token_metadata.key@] == 0
            &&& after[burn.token_account.key@] == (if owner@ == burn.payer@ {
                0
            } else {
                b[burn.token_account.key@]
            })
        }),
{
    let first = burn.actuate_plan();
    let rest = burn.finish_plan(owner);
    lemma_balances_after_concat(first, rest, b);
    let (p, m, t, a) = (burn.payer@, burn.mint.key@, burn.token_metadata.key@, burn.token_account.key@);
    reveal_with_fuel(balances_after, 4);
    let b1 = b.insert(p, b[p] + b[m]).insert(m, 0);
    assert(balances_after(first, b) == b1) by {
        assert(first.drop_first().drop_first().drop_first() =~= Seq::<Action>::empty());
        assert(balances_after(first.drop_first().drop_first(), b1) == b1) by {
            assert(first.drop_first().drop_first() =~= seq![first[2]]);
        }
    }
    let close_meta = Action::CloseProgramAccount { account: burn.token_metadata.key, destination: burn.payer };
    let close_ata = Action::CloseTokenAccount {
        token_program: burn.token22_program,
        account: burn.token_account.key,
        destination: burn.payer,
        authority: burn.payer,
    };
    let b2 = if owner@ == p { b1.insert(p, b1[p] + b1[a]).insert(a, 0) } else { b1 };
    let count: Seq<Action> = if burn.game_config is Some { seq![Action::BumpBurnAmount] } else { Seq::empty() };
    let close: Seq<Action> = if owner@ == p { seq![close_ata] } else { Seq::empty() };
    assert(rest =~= close + (count + seq![close_meta]));
    lemma_balances_after_concat(close, count + seq![close_meta], b1);
    assert(balances_after(close, b1) == b2) by {
        if owner@ == p {
            assert(close.drop_first() =~= Seq::<Action>::empty());
        }
    }
    lemma_balances_after_concat(count, seq![close_meta], b2);
    assert(balances_after(count, b2) == b2) by {
        if burn.game_config is Some {
            assert(count.drop_first() =~= Seq::<Action>::empty());
        }
    }
    assert(seq![close_meta].drop_first() =~= Seq::<Action>::empty());
}

} // verus!

verus! {

/// Every burn, whether or not a game is set up, first burns the token held
/// in the token account and then closes the mint to the payer, both signed
/// by the permanent delegate with its bump, and then reads the token
/// account's owner: the game configuration has no part in these actions.
pub proof fn law_burn_is_signed_by_the_permanent_delegate(burn: TokenBurn, game: Option<GameConfig>)
    ensures
        burn.actuate_plan().len() == 3,
        burn.actuate_plan()[0] == (Action::BurnToken {
            mint: burn.mint.key,
            token_account: burn.token_account.key,
            token_program: burn.token22_program,
            authority: burn.permanent_delegate.key,
            delegate_bump: Some(burn.permanent_delegate.bump),
        }),
        burn.actuate_plan()[1] == (Action::CloseMint {
            token_program: burn.token22_program,
            mint: burn.mint.key,
            destination: burn.payer,
            authority: burn.permanent_delegate.key,
            delegate_bump: Some(burn.permanent_delegate.bump),
        }),
        burn.actuate_plan()[2] == (Action::ReadTokenAccountOwner {
            token_account: burn.token_account.key,
        }),
        TokenBurn::actuate_plan(&(TokenBurn { game_config: game, ..burn })) == burn.actuate_plan(),
{
}

} // verus!

verus! {

/// The account constraints accept a burn exactly when all of them hold: the
/// mint has no decimals, a supply of one and the token program as owner; the
/// token account holds that mint's tokens and has the token program as owner;
/// the burger metadata, the game configuration (when present) and the
/// permanent delegate are at the program addresses of their seeds; the
/// burger metadata is not the payer; and the payer is an operator.
pub proof fn law_burn_constraints_accept_exactly_when_all_hold(
    burn: TokenBurn,
    admins: Seq<Pubkey>,
    program_id: Pubkey,
    metadata_seed: Seq<u8>,
    game_seed: Seq<u8>,
    delegate_seed: Seq<u8>,
)
    ensures
        burn.constraints_check(admins, program_id, metadata_seed, game_seed, delegate_seed) is Ok
            <==> {
            &&& burn.mint.decimals == 0
            &&& burn.mint.supply == 1
            &&& burn.mint.owner@ == burn.token22_program@
            &&& burn.token_account.mint@ == burn.mint.key@
            &&& burn.token_account.owner@ == burn.token22_program@
            &&& program_address(
                seq![metadata_seed, burn.mint.key@, seq![burn.token_metadata.bump]],
                program_id@,
            ) == Some(burn.token_metadata.key@)
            &&& burn.token_metadata.key@ != burn.payer@
            &&& burn.game_config matches Some(game) ==> program_address(
                seq![game_seed, seq![game.bump]],
                program_id@,
            ) == Some(game.key@)
            &&& program_address(
                seq![delegate_seed, seq![burn.permanent_delegate.bump]],
                program_id@,
            ) == Some(burn.permanent_delegate.key@)
            &&& holds_key(admins, burn.payer)
        },
{
}

} // verus!

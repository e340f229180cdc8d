//! Burning an ephemeral token and closing its mint.
use vstd::prelude::*;
use crate::action::Action;
use crate::error::Error;
use crate::key::{Pubkey, copy_bytes};
use crate::pda::{find_program_address, found_program_address};
use crate::run::Run;

verus! {

/// The accounts of a burn: the mint and the program that owns it, the
/// program's delegate address, the token account and the token-2022 program.
#[derive(Clone, Copy, Debug, PartialEq, Eq)]
pub struct TokenBurn {
    pub mint: Pubkey,
    pub mint_owner: Pubkey,
    pub program_delegate: Pubkey,
    pub token_account: Pubkey,
    pub token22_program: Pubkey,
}

/// The burn takes no parameters.
#[derive(Clone, Copy, Debug, PartialEq, Eq)]
pub struct TokenBurnParams {}

impl TokenBurn {
    /// The actions of a burn: burn the token, then close the mint, its
    /// lamports going to the program's delegate address.
    pub open spec fn actuate_plan(&self) -> Seq<Action> {
        seq![
            Action::BurnToken {
                mint: self.mint,
                token_account: self.token_account,
                token_program: self.token22_program,
                authority: self.program_delegate,
                delegate_bump: None,
            },
            Action::CloseMint {
                token_program: self.token22_program,
                mint: self.mint,
                destination: self.program_delegate,
                authority: self.program_delegate,
                delegate_bump: None,
            },
        ]
    }

    /// What the account constraints of a burn give, in the order of the
    /// accounts: the mint is owned by the token-2022 program
    /// (`owner = token22_program`), and the program delegate is at the
    /// program address found for the seed `delegate_seed` under the
    /// ephemerality program `program_id` (`seeds = [..], bump`). `None` where
    /// no bump gives an address, where the instruction panics.
    pub open spec fn constraints_check(&self, program_id: Pubkey, delegate_seed: Seq<u8>) -> Option<
        Result<(), Error>,
    > {
        if self.mint_owner@ != self.token22_program@ {
            Some(Err(Error::ConstraintOwner))
        } else {
            match found_program_address(seq![delegate_seed], program_id@) {
                None => None,
                Some((address, _)) => if address == self.program_delegate@ {
                    Some(Ok(()))
                } else {
                    Some(Err(Error::ConstraintSeeds))
                },
            }
        }
    }

    /// Checks the account constraints of a burn.
    pub fn check_constraints(&self, program_id: &Pubkey, delegate_seed: &Vec<u8>) -> (r: Option<
        Result<(), Error>,
    >)
        ensures
            r == self.constraints_check(*program_id, delegate_seed@),
            self.mint_owner@ != self.token22_program@ ==> r == Some(
                Err::<(), Error>(Error::ConstraintOwner),
            ),
    {
        if !self.mint_owner.same_as(&self.token22_program) {
            return Some(Err(Error::ConstraintOwner));
        }
        let mut seeds: Vec<Vec<u8>> = Vec::new();
        seeds.push(copy_bytes(delegate_seed));
        proof {
            assert(seeds.deep_view() =~= seq![delegate_seed@]);
        }
        match find_program_address(&seeds, program_id) {
            None => None,
            Some((address, _bump)) => if address.same_as(&self.program_delegate) {
                Some(Ok(()))
            } else {
                Some(Err(Error::ConstraintSeeds))
            },
        }
    }

    /// Any burn is valid.
    pub fn validate(&self, _params: &TokenBurnParams) -> (r: Result<(), Error>)
        ensures
            r == Ok::<(), Error>(()),
    {
        Ok(())
    }

    /// The run of a burn, not started yet.
    pub fn actuate(&self, _params: &TokenBurnParams) -> (r: Run)
        ensures
            r.well_formed(),
            r.plan() == self.actuate_plan(),
            r.issued() == 0,
            !r.is_over(),
    {
        let mut plan: Vec<Action> = Vec::new();
        plan.push(
            Action::BurnToken {
                mint: self.mint,
                token_account: self.token_account,
                token_program: self.token22_program,
                authority: self.program_delegate,
                delegate_bump: None,
            },
        );
        plan.push(
            Action::CloseMint {
                token_program: self.token22_program,
                mint: self.mint,
                destination: self.program_delegate,
                authority: self.program_delegate,
                delegate_bump: None,
            },
        );
        proof {
            assert(plan@ =~= self.actuate_plan());
        }
        Run::new(plan)
    }
}

} // verus!

verus! {

/// Every ephemeral burn burns the token held in the token account and then
/// closes the mint, its lamports going to the program's delegate address,
/// both with that address as authority and no signing seeds.
pub proof fn law_ephemeral_burn_burns_then_closes(burn: TokenBurn)
    ensures
        burn.actuate_plan().len() == 2,
        burn.actuate_plan()[0] == (Action::BurnToken {
            mint: burn.mint,
            token_account: burn.token_account,
            token_program: burn.token22_program,
            authority: burn.program_delegate,
            delegate_bump: None,
        }),
        burn.actuate_plan()[1] == (Action::CloseMint {
            token_program: burn.token22_program,
            mint: burn.mint,
            destination: burn.program_delegate,
            authority: burn.program_delegate,
            delegate_bump: None,
        }),
{
}

/// The account constraints of an ephemeral burn refuse a mint owned by any
/// program other than the token program given, with `ConstraintOwner`,
/// whatever the delegate; they accept the burn exactly when the mint is owned
/// by that program and the delegate is at the address found for its seed;
/// otherwise, when an address is found, they refuse it with
/// `ConstraintSeeds`.
pub proof fn law_ephemeral_burn_constraints(
    burn: TokenBurn,
    program_id: Pubkey,
    delegate_seed: Seq<u8>,
)
    ensures
        ({
            let r = burn.constraints_check(program_id, delegate_seed);
            let found = found_program_address(seq![delegate_seed], program_id@);
            &&& burn.mint_owner@ != burn.token22_program@ ==> r == Some(
                Err::<(), Error>(Error::ConstraintOwner),
            )
            &&& r == Some(Ok::<(), Error>(())) <==> burn.mint_owner@ == burn.token22_program@
                && found is Some && (found->0).0 == burn.program_delegate@
            &&& burn.mint_owner@ == burn.token22_program@ && found is Some && (found->0).0
                != burn.program_delegate@ ==> r == Some(Err::<(), Error>(Error::ConstraintSeeds))
        }),
{
}

} // verus!

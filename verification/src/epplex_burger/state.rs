//! The burger program's accounts, as its actions read them, and the account
//! constraints that they share.
use vstd::prelude::*;
use crate::error::Error;
use crate::key::{Pubkey, contains_key, holds_key};

verus! {

/// The state of the game.
#[derive(Clone, Copy, Debug, PartialEq, Eq, Structural)]
pub enum GameStatus {
    /// No game is set up: the status that the program names `None`.
    NoGame,
    /// Any other status, by its index among the program's game statuses.
    Other(u8),
}

/// The game configuration account.
#[derive(Clone, Copy, Debug, PartialEq, Eq)]
pub struct GameConfig {
    pub key: Pubkey,
    pub game_status: GameStatus,
    pub game_round: u64,
    pub bump: u8,
}

/// The program's delegate account, a program address with its bump.
#[derive(Clone, Copy, Debug, PartialEq, Eq)]
pub struct ProgramDelegate {
    pub key: Pubkey,
    pub bump: u8,
}

/// A token's burger metadata account, a program address with its bump.
#[derive(Clone, Copy, Debug, PartialEq, Eq)]
pub struct BurgerMetadata {
    pub key: Pubkey,
    pub bump: u8,
}

/// A token mint, as the account constraints read it; `owner` is the program
/// that owns the account.
#[derive(Clone, Copy, Debug, PartialEq, Eq)]
pub struct MintAccount {
    pub key: Pubkey,
    pub owner: Pubkey,
    pub decimals: u8,
    pub supply: u64,
}

/// A token account, as the account constraints read it: the mint whose
/// tokens it holds, and the program that owns the account.
#[derive(Clone, Copy, Debug, PartialEq, Eq)]
pub struct TokenAccount {
    pub key: Pubkey,
    pub mint: Pubkey,
    pub owner: Pubkey,
}

/// The seed prefixes of the burger program's addresses: those of the burger
/// metadata, the game configuration and the program delegate.
#[derive(Clone, Debug, PartialEq, Eq)]
pub struct BurgerSeeds {
    pub burger_metadata: Vec<u8>,
    pub game_config: Vec<u8>,
    pub program_delegate: Vec<u8>,
}

/// `first` when it is an error, else `second`: checks in turn, the first
/// that fails giving its error.
pub open spec fn and_then(first: Result<(), Error>, second: Result<(), Error>) -> Result<
    (),
    Error,
> {
    if first is Err {
        first
    } else {
        second
    }
}

/// What the constraints on a game token's mint give, in order:
/// `mint.decimals == 0`, `mint.supply == 1`, and `mint::token_program`
/// (the mint is owned by `token_program`).
pub open spec fn nft_mint_check(mint: MintAccount, token_program: Pubkey) -> Result<(), Error> {
    if mint.decimals != 0 {
        Err(Error::ConstraintRaw)
    } else if mint.supply != 1 {
        Err(Error::ConstraintRaw)
    } else if mint.owner@ != token_program@ {
        Err(Error::ConstraintMintTokenProgram)
    } else {
        Ok(())
    }
}

/// What the constraint `ADMINS.contains(&payer.key()) @ NonOperator` gives.
pub open spec fn operator_check(payer: Pubkey, admins: Seq<Pubkey>) -> Result<(), Error> {
    if holds_key(admins, payer) {
        Ok(())
    } else {
        Err(Error::NonOperator)
    }
}

/// Checks the constraints on a game token's mint.
pub(crate) fn check_nft_mint(mint: &MintAccount, token_program: &Pubkey) -> (r: Result<(), Error>)
    ensures
        r == nft_mint_check(*mint, *token_program),
{
    if mint.decimals != 0 {
        return Err(Error::ConstraintRaw);
    }
    if mint.supply != 1 {
        return Err(Error::ConstraintRaw);
    }
    if !mint.owner.same_as(token_program) {
        return Err(Error::ConstraintMintTokenProgram);
    }
    Ok(())
}

/// Checks that the payer is an operator.
pub(crate) fn check_operator(payer: &Pubkey, admins: &Vec<Pubkey>) -> (r: Result<(), Error>)
    ensures
        r == operator_check(*payer, admins@),
{
    if contains_key(admins, payer) {
        Ok(())
    } else {
        Err(Error::NonOperator)
    }
}

} // verus!

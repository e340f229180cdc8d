//! Errors returned by the account rules and the instruction plans.
use vstd::prelude::*;

verus! {

/// Why an instruction was refused or failed.
#[derive(Clone, Copy, Debug, PartialEq, Eq, Structural)]
pub enum Error {
    /// The collection's expiry date is not later than the current time.
    DateMustBeInTheFuture,
    /// The payer is not one of the operators.
    NonOperator,
    /// The signer is not the creator of the rule.
    EscalatedAuthority,
    /// A `constraint = ..` expression on an account does not hold.
    ConstraintRaw,
    /// An account is not owned by the program that an `owner = ..`
    /// constraint names.
    ConstraintOwner,
    /// An account is not at the program address that its seeds give.
    ConstraintSeeds,
    /// An account is not at the address that an `address = ..` constraint
    /// names.
    ConstraintAddress,
    /// An account closed at the end of the instruction would be closed to
    /// itself.
    ConstraintClose,
    /// A token account does not hold tokens of the mint named by its
    /// `token::mint` constraint.
    ConstraintTokenMint,
    /// A token account is not owned by the token program named by its
    /// `token::token_program` constraint.
    ConstraintTokenTokenProgram,
    /// A mint is not owned by the token program named by its
    /// `mint::token_program` constraint.
    ConstraintMintTokenProgram,
    /// An error raised by another program or by the runtime, by its code.
    Program(u64),
}

} // verus!

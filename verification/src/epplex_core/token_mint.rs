//! Minting an ephemeral token.
use vstd::prelude::*;
use crate::action::{Action, MintExtension};
use crate::error::Error;
use crate::key::Pubkey;
use crate::run::Run;

verus! {

/// The accounts of a token mint.
#[derive(Clone, Copy, Debug, PartialEq, Eq)]
pub struct TokenMint {
    pub mint: Pubkey,
    pub ata: Pubkey,
    pub token_metadata: Pubkey,
    pub permanent_delegate: Pubkey,
    pub payer: Pubkey,
    pub rent: Pubkey,
    pub system_program: Pubkey,
    pub token22_program: Pubkey,
    pub associated_token: Pubkey,
    pub metadata_program: Pubkey,
}

/// The token to mint. A mint does not read these yet.
#[derive(Clone, Debug, PartialEq, Eq)]
pub struct TokenCreateParams {
    pub destroy_timestamp_offset: i64,
    pub name: String,
    pub symbol: String,
    pub uri: String,
}

impl TokenMint {
    /// Whether `plan` is the mint's: create the mint account with room for
    /// the permanent delegate, mint close authority and metadata pointer
    /// extensions; point its metadata at the mint itself under the permanent
    /// delegate's authority; initialize the mint with the payer as mint and
    /// freeze authority; create the payer's associated token account (the
    /// invocation goes to the token-2022 program); and mint one token to it.
    pub open spec fn is_actuate_plan(&self, plan: Seq<Action>) -> bool {
        &&& plan.len() == 5
        &&& plan[0] matches Action::InitMintAccount { payer, mint, rent, extensions }
            && payer == self.payer && mint == self.mint && rent == self.rent
            && extensions@ == seq![
                MintExtension::PermanentDelegate,
                MintExtension::MintCloseAuthority,
                MintExtension::MetadataPointer,
            ]
        &&& plan[1] == Action::AddMetadataPointer {
            token_program: self.token22_program,
            mint: self.mint,
            authority: self.permanent_delegate,
            metadata_address: self.mint,
        }
        &&& plan[2] == Action::InitializeMint {
            mint: self.mint,
            rent: self.rent,
            token_program: self.token22_program,
            mint_authority: self.payer,
            freeze_authority: self.payer,
        }
        &&& plan[3] == Action::CreateAssociatedTokenAccount {
            program: self.token22_program,
            payer: self.payer,
            associated_token: self.ata,
            authority: self.payer,
            mint: self.mint,
            system_program: self.system_program,
            token_program: self.token22_program,
        }
        &&& plan[4] == Action::MintTo {
            token_program: self.token22_program,
            mint: self.mint,
            to: self.ata,
            authority: self.payer,
            amount: 1,
        }
    }

    /// Any mint is valid.
    pub fn validate(&self, _params: &TokenCreateParams) -> (r: Result<(), Error>)
        ensures
            r == Ok::<(), Error>(()),
    {
        Ok(())
    }

    /// The run of a token mint.
    pub fn actuate(&self, _params: &TokenCreateParams) -> (r: Run)
        ensures
            r.well_formed(),
            self.is_actuate_plan(r.plan()),
            r.issued() == 0,
            !r.is_over(),
    {
        let mut extensions: Vec<MintExtension> = Vec::new();
        extensions.push(MintExtension::PermanentDelegate);
        extensions.push(MintExtension::MintCloseAuthority);
        extensions.push(MintExtension::MetadataPointer);
        let ghost ext = extensions@;
        let mut plan: Vec<Action> = Vec::new();
        plan.push(
            Action::InitMintAccount {
                payer: self.payer,
                mint: self.mint,
                rent: self.rent,
                extensions,
            },
        );
        plan.push(
            Action::AddMetadataPointer {
                token_program: self.token22_program,
                mint: self.mint,
                authority: self.permanent_delegate,
                metadata_address: self.mint,
            },
        );
        plan.push(
            Action::InitializeMint {
                mint: self.mint,
                rent: self.rent,
                token_program: self.token22_program,
                mint_authority: self.payer,
                freeze_authority: self.payer,
            },
        );
        plan.push(
            Action::CreateAssociatedTokenAccount {
                program: self.token22_program,
                payer: self.payer,
                associated_token: self.ata,
                authority: self.payer,
                mint: self.mint,
                system_program: self.system_program,
                token_program: self.token22_program,
            },
        );
        plan.push(
            Action::MintTo {
                token_program: self.token22_program,
                mint: self.mint,
                to: self.ata,
                authority: self.payer,
                amount: 1,
            },
        );
        proof {
            assert(ext =~= seq![
                MintExtension::PermanentDelegate,
                MintExtension::MintCloseAuthority,
                MintExtension::MetadataPointer,
            ]);
        }
        Run::new(plan)
    }
}

} // verus!

verus! {

/// Every token mint creates the mint with room for the permanent delegate,
/// close authority and metadata pointer extensions, points its metadata at
/// the mint itself under the permanent delegate's authority, makes the payer
/// its mint and freeze authority, and mints exactly one token, to the
/// associated token account, as its last action.
pub proof fn law_token_mint_mints_one_token(mint: TokenMint, plan: Seq<Action>)
    requires
        mint.is_actuate_plan(plan),
    ensures
        plan[0] matches Action::InitMintAccount { mint: m, extensions, .. } && m == mint.mint
            && extensions@.contains(MintExtension::PermanentDelegate) && extensions@.contains(
            MintExtension::MintCloseAuthority,
        ) && extensions@.contains(MintExtension::MetadataPointer),
        plan[1] matches Action::AddMetadataPointer { authority, metadata_address, .. } && authority
            == mint.permanent_delegate && metadata_address == mint.mint,
        plan[2] matches Action::InitializeMint { mint_authority, freeze_authority, .. }
            && mint_authority == mint.payer && freeze_authority == mint.payer,
        plan[3] == (Action::CreateAssociatedTokenAccount {
            program: mint.token22_program,
            payer: mint.payer,
            associated_token: mint.ata,
            authority: mint.payer,
            mint: mint.mint,
            system_program: mint.system_program,
            token_program: mint.token22_program,
        }),
        plan.last() matches Action::MintTo { mint: m, to, amount, .. } && m == mint.mint && to
            == mint.ata && amount == 1,
        forall|i: int| 0 <= i < plan.len() - 1 ==> !(#[trigger] plan[i] is MintTo),
{
    assert(plan[0]->InitMintAccount_extensions@[0] == MintExtension::PermanentDelegate);
    assert(plan[0]->InitMintAccount_extensions@[1] == MintExtension::MintCloseAuthority);
    assert(plan[0]->InitMintAccount_extensions@[2] == MintExtension::MetadataPointer);
}

} // verus!

//! The instructions and account writes that the programs' actions perform.
use vstd::prelude::*;
use crate::key::Pubkey;

verus! {

/// A token-2022 mint extension.
#[derive(Clone, Copy, Debug, PartialEq, Eq, Structural)]
pub enum MintExtension {
    MintCloseAuthority,
    PermanentDelegate,
    MetadataPointer,
    TransferHook,
}

/// A key of the game's token metadata that a game reset clears.
#[derive(Clone, Copy, Debug, PartialEq, Eq, Structural)]
pub enum MetadataField {
    /// The key `GAME_STATE`.
    GameState,
    /// The key `VOTING_TIMESTAMP`.
    VotingTimestamp,
    /// The key `NEW_IMMUNITY`.
    NewImmunity,
}

/// One step of an instruction: a cross-program invocation, a read of an
/// account, a write of one of the program's own accounts, or an event.
/// `delegate_bump` and `authority_bump` are the bumps of the program address
/// that signs the invocation; `None` where the invocation is not signed by a
/// program address.
#[derive(Debug, PartialEq, Eq)]
#[allow(inconsistent_fields)]
pub enum Action {
    /// Burn the token that `token_account` holds.
    BurnToken {
        mint: Pubkey,
        token_account: Pubkey,
        token_program: Pubkey,
        authority: Pubkey,
        delegate_bump: Option<u8>,
    },
    /// Close the mint, sending its lamports to `destination`.
    CloseMint {
        token_program: Pubkey,
        mint: Pubkey,
        destination: Pubkey,
        authority: Pubkey,
        delegate_bump: Option<u8>,
    },
    /// Read the owner recorded in a token account.
    ReadTokenAccountOwner { token_account: Pubkey },
    /// Close a token account, sending its lamports to `destination`.
    CloseTokenAccount {
        token_program: Pubkey,
        account: Pubkey,
        destination: Pubkey,
        authority: Pubkey,
    },
    /// Close one of the program's own accounts when the instruction ends
    /// (an account marked `close = ..`): all its lamports go to
    /// `destination`, it is handed to the system program and its data is cut
    /// to nothing.
    CloseProgramAccount { account: Pubkey, destination: Pubkey },
    /// Count one more burn in the game configuration.
    BumpBurnAmount,
    /// Set a key of the token metadata to `value`.
    UpdateTokenMetadata {
        token_program: Pubkey,
        mint: Pubkey,
        update_authority: Pubkey,
        delegate_bump: u8,
        field: MetadataField,
        value: &'static str,
    },
    /// Emit the event that a token's game state was reset.
    EmitTokenGameReset { nft: Pubkey, game_round_id: u64, reset_timestamp: i64 },
    /// Top up `account` to its rent-exempt minimum balance, paid by `payer`.
    TopUpToMinimumBalance { account: Pubkey, payer: Pubkey, system_program: Pubkey },
    /// Write a fresh burger metadata account with the given bump.
    WriteBurgerMetadata { bump: u8 },
    /// Mint a token of a collection through the core program.
    MintCollectionToken {
        core_program: Pubkey,
        mint: Pubkey,
        token_account: Pubkey,
        permanent_delegate: Pubkey,
        update_authority: Pubkey,
        payer: Pubkey,
        rent: Pubkey,
        authority: Pubkey,
        collection_config: Pubkey,
        system_program: Pubkey,
        token_program: Pubkey,
        associated_token_program: Pubkey,
        delegate_bump: u8,
        name: String,
        symbol: String,
        uri: String,
        collection_id: u64,
        expiry_date: String,
    },
    /// Create a mint account with room for `extensions`.
    InitMintAccount { payer: Pubkey, mint: Pubkey, rent: Pubkey, extensions: Vec<MintExtension> },
    /// Add a metadata pointer to a mint.
    AddMetadataPointer {
        token_program: Pubkey,
        mint: Pubkey,
        authority: Pubkey,
        metadata_address: Pubkey,
    },
    /// Initialize a mint.
    InitializeMint {
        mint: Pubkey,
        rent: Pubkey,
        token_program: Pubkey,
        mint_authority: Pubkey,
        freeze_authority: Pubkey,
    },
    /// Create the associated token account of `authority` for `mint`.
    CreateAssociatedTokenAccount {
        program: Pubkey,
        payer: Pubkey,
        associated_token: Pubkey,
        authority: Pubkey,
        mint: Pubkey,
        system_program: Pubkey,
        token_program: Pubkey,
    },
    /// Mint `amount` tokens to `to`.
    MintTo { token_program: Pubkey, mint: Pubkey, to: Pubkey, authority: Pubkey, amount: u64 },
    /// Write the ephemeral data account of a membership.
    WriteEphemeralData { bump: u8, mint: Pubkey, rule: Pubkey, expiry_time: i64 },
    /// Create an account of `space` bytes owned by `owner`, funded with `lamports`.
    CreateAccount { from: Pubkey, to: Pubkey, lamports: u64, space: u64, owner: Pubkey },
    /// Initialize the permanent delegate extension of a mint.
    InitializePermanentDelegate { token_program: Pubkey, mint: Pubkey, delegate: Pubkey },
    /// Initialize the transfer hook extension of a mint.
    InitializeTransferHook {
        token_program: Pubkey,
        mint: Pubkey,
        authority: Option<Pubkey>,
        hook_program: Option<Pubkey>,
    },
    /// Initialize the mint close authority extension of a mint.
    InitializeMintCloseAuthority { token_program: Pubkey, mint: Pubkey, close_authority: Option<Pubkey> },
    /// Initialize the metadata pointer extension of a mint.
    InitializeMetadataPointer {
        token_program: Pubkey,
        mint: Pubkey,
        authority: Option<Pubkey>,
        metadata_address: Option<Pubkey>,
    },
    /// Initialize a mint whose extensions are in place.
    InitializeMint2 {
        token_program: Pubkey,
        mint: Pubkey,
        mint_authority: Pubkey,
        freeze_authority: Option<Pubkey>,
        decimals: u8,
    },
    /// Initialize the token metadata stored in a mint.
    InitializeTokenMetadata {
        token_program: Pubkey,
        metadata: Pubkey,
        update_authority: Pubkey,
        mint: Pubkey,
        mint_authority: Pubkey,
        name: String,
        symbol: String,
        uri: String,
        authority_bump: u8,
    },
    /// Remove the mint authority of a mint, so that no more tokens can be minted.
    RemoveMintAuthority { token_program: Pubkey, current_authority: Pubkey, mint: Pubkey },
}

/// The account that an action closes and where its lamports go, for the
/// actions that close an account; `None` for the others.
pub open spec fn closed_by(action: Action) -> Option<(Pubkey, Pubkey)> {
    match action {
        Action::CloseMint { mint, destination, .. } => Some((mint, destination)),
        Action::CloseTokenAccount { account, destination, .. } => Some((account, destination)),
        Action::CloseProgramAccount { account, destination } => Some((account, destination)),
        _ => None,
    }
}

/// The lamport balances, by address, that the closes among `actions` leave
/// when all the actions succeed, from the balances `b`: each close moves the
/// whole balance of the closed account to its destination. (Only closes are
/// counted; an action that pays for an account, such as a top-up, is not.)
pub open spec fn balances_after(actions: Seq<Action>, b: Map<Seq<u8>, int>) -> Map<Seq<u8>, int>
    decreases actions.len(),
{
    if actions.len() == 0 {
        b
    } else {
        let next = match closed_by(actions[0]) {
            Some((account, destination)) => if account@ == destination@ {
                b
            } else {
                b.insert(destination@, b[destination@] + b[account@]).insert(account@, 0)
            },
            None => b,
        };
        balances_after(actions.drop_first(), next)
    }
}

} // verus!

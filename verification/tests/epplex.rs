use epplex::action::{Action, MetadataField, MintExtension};
use epplex::ephemerality::token_burn as eph;
use epplex::epplex_burger::collection_mint::{
    CollectionMint, CollectionMintBumps, CollectionMintParams,
};
use epplex::epplex_burger::state::{
    BurgerMetadata, BurgerSeeds, GameConfig, GameStatus, MintAccount, ProgramDelegate, TokenAccount,
};
use epplex::epplex_burger::token_burn as burger;
use epplex::epplex_burger::token_game_reset::{TokenGameReset, TokenGameResetParams};
use epplex::epplex_core::membership_create::{
    AccountSpace, EphemeralRule, MembershipCreate, MembershipCreateBumps, MembershipSeeds,
};
use epplex::epplex_core::token_mint::{TokenCreateParams, TokenMint};
use epplex::error::Error;
use epplex::key::{contains_key, optional_non_zero, Pubkey};
use epplex::run::{Command, Run};
use epplex::epplex_shared::{close, AccountState};

fn key(b: u8) -> Pubkey {
    Pubkey::new_from_array([b; 32])
}

/// Drives a run, answering each action with the next outcome, and returns
/// the actions performed and the result.
fn drive(mut run: Run, outcomes: &[Result<(), Error>]) -> (Vec<Action>, Result<(), Error>) {
    let mut performed = Vec::new();
    let mut command = run.start();
    let mut i = 0;
    loop {
        match command {
            Command::Finish(r) => return (performed, r),
            Command::Perform(a) => {
                performed.push(a);
                let outcome = outcomes.get(i).copied().unwrap_or(Ok(()));
                i += 1;
                command = run.next(outcome);
            }
        }
    }
}

fn all_ok(run: Run) -> (Vec<Action>, Result<(), Error>) {
    drive(run, &[])
}

// ---------- keys ----------

#[test]
fn keys_compare_by_bytes() {
    let mut bytes = [7u8; 32];
    assert!(key(7).same_as(&Pubkey::new_from_array(bytes)));
    bytes[31] = 8;
    assert!(!key(7).same_as(&Pubkey::new_from_array(bytes)));
}

#[test]
fn default_key_is_all_zero() {
    assert!(key(0).is_default());
    let mut bytes = [0u8; 32];
    bytes[5] = 1;
    assert!(!Pubkey::new_from_array(bytes).is_default());
}

#[test]
fn contains_key_finds_operators() {
    let admins = vec![key(1), key(2), key(3)];
    assert!(contains_key(&admins, &key(2)));
    assert!(!contains_key(&admins, &key(4)));
    assert!(!contains_key(&Vec::new(), &key(1)));
}

#[test]
fn optional_non_zero_refuses_default_key() {
    assert_eq!(optional_non_zero(key(0)), None);
    assert_eq!(optional_non_zero(key(9)), Some(key(9)));
}

// ---------- runs ----------

#[test]
fn empty_run_finishes_ok() {
    let mut run = Run::new(Vec::new());
    assert_eq!(run.start(), Command::Finish(Ok(())));
}

#[test]
fn run_performs_all_actions_when_each_succeeds() {
    let plan = vec![Action::BumpBurnAmount, Action::WriteBurgerMetadata { bump: 3 }];
    let (performed, result) = all_ok(Run::new(plan));
    assert_eq!(performed, vec![Action::BumpBurnAmount, Action::WriteBurgerMetadata { bump: 3 }]);
    assert_eq!(result, Ok(()));
}

#[test]
fn run_stops_at_first_failure() {
    let plan = vec![
        Action::BumpBurnAmount,
        Action::WriteBurgerMetadata { bump: 1 },
        Action::WriteBurgerMetadata { bump: 2 },
    ];
    let mut run = Run::new(plan);
    assert_eq!(run.start(), Command::Perform(Action::BumpBurnAmount));
    assert_eq!(run.next(Ok(())), Command::Perform(Action::WriteBurgerMetadata { bump: 1 }));
    assert_eq!(run.next(Err(Error::Program(6))), Command::Finish(Err(Error::Program(6))));
}

#[test]
fn run_failure_of_last_action_is_the_result() {
    let plan = vec![Action::BumpBurnAmount];
    let (performed, result) = drive(Run::new(plan), &[Err(Error::NonOperator)]);
    assert_eq!(performed.len(), 1);
    assert_eq!(result, Err(Error::NonOperator));
}

// ---------- ephemerality burn ----------

fn eph_burn() -> eph::TokenBurn {
    eph::TokenBurn {
        mint: key(1),
        mint_owner: key(4),
        program_delegate: key(2),
        token_account: key(3),
        token22_program: key(4),
    }
}

#[test]
fn ephemerality_burn_constraints() {
    let program = key(41);
    let (delegate, _) = pda(&[b"program_delegate"], &program);
    let mut b = eph_burn();
    b.program_delegate = delegate;
    let seed = b"program_delegate".to_vec();
    assert_eq!(b.check_constraints(&program, &seed), Some(Ok(())));
    assert_eq!(eph_burn().check_constraints(&program, &seed), Some(Err(Error::ConstraintSeeds)));
    b.mint_owner = key(33);
    assert_eq!(b.check_constraints(&program, &seed), Some(Err(Error::ConstraintOwner)));
}

#[test]
fn ephemerality_burn_validates() {
    assert_eq!(eph_burn().validate(&eph::TokenBurnParams {}), Ok(()));
}

#[test]
fn ephemerality_burn_burns_then_closes_mint() {
    let (performed, result) = all_ok(eph_burn().actuate(&eph::TokenBurnParams {}));
    assert_eq!(result, Ok(()));
    assert_eq!(
        performed,
        vec![
            Action::BurnToken {
                mint: key(1),
                token_account: key(3),
                token_program: key(4),
                authority: key(2),
                delegate_bump: None,
            },
            Action::CloseMint {
                token_program: key(4),
                mint: key(1),
                destination: key(2),
                authority: key(2),
                delegate_bump: None,
            },
        ]
    );
}

#[test]
fn ephemerality_burn_failure_skips_close() {
    let (performed, result) =
        drive(eph_burn().actuate(&eph::TokenBurnParams {}), &[Err(Error::Program(17))]);
    assert_eq!(performed.len(), 1);
    assert_eq!(result, Err(Error::Program(17)));
}

// ---------- burger burn ----------

fn game(status: GameStatus) -> GameConfig {
    GameConfig { key: key(20), game_status: status, game_round: 4, bump: 250 }
}

fn burger_burn(game_config: Option<GameConfig>) -> burger::TokenBurn {
    burger::TokenBurn {
        mint: MintAccount { key: key(1), owner: key(4), decimals: 0, supply: 1 },
        token_account: TokenAccount { key: key(3), mint: key(1), owner: key(4) },
        token_metadata: BurgerMetadata { key: key(5), bump: 252 },
        game_config,
        permanent_delegate: ProgramDelegate { key: key(6), bump: 254 },
        payer: key(7),
        token22_program: key(4),
    }
}

fn pda(seeds: &[&[u8]], program: &Pubkey) -> (Pubkey, u8) {
    let (k, bump) = solana_program::pubkey::Pubkey::find_program_address(
        seeds,
        &solana_program::pubkey::Pubkey::new_from_array(program.bytes),
    );
    (Pubkey::new_from_array(k.to_bytes()), bump)
}

fn burger_seeds() -> BurgerSeeds {
    BurgerSeeds {
        burger_metadata: b"burger_metadata".to_vec(),
        game_config: b"game_config".to_vec(),
        program_delegate: b"program_delegate".to_vec(),
    }
}

/// A burn whose program addresses are the true ones for `key(40)`.
fn placed_burn(game_config: Option<GameConfig>) -> burger::TokenBurn {
    let program = key(40);
    let mut b = burger_burn(game_config);
    let (meta, meta_bump) = pda(&[b"burger_metadata", &b.mint.key.bytes], &program);
    b.token_metadata = BurgerMetadata { key: meta, bump: meta_bump };
    let (delegate, delegate_bump) = pda(&[b"program_delegate"], &program);
    b.permanent_delegate = ProgramDelegate { key: delegate, bump: delegate_bump };
    if let Some(g) = b.game_config.as_mut() {
        let (game, game_bump) = pda(&[b"game_config"], &program);
        g.key = game;
        g.bump = game_bump;
    }
    b
}

#[test]
fn burger_burn_constraints_hold() {
    let admins = vec![key(7)];
    assert_eq!(placed_burn(None).check_constraints(&admins, &key(40), &burger_seeds()), Ok(()));
    let in_game = placed_burn(Some(game(GameStatus::Other(1))));
    assert_eq!(in_game.check_constraints(&admins, &key(40), &burger_seeds()), Ok(()));
}

#[test]
fn burger_burn_constraint_errors() {
    let admins = vec![key(7)];
    let (id, seeds) = (key(40), burger_seeds());
    let mut b = placed_burn(None);
    b.mint.decimals = 2;
    assert_eq!(b.check_constraints(&admins, &id, &seeds), Err(Error::ConstraintRaw));
    let mut b = placed_burn(None);
    b.mint.supply = 2;
    assert_eq!(b.check_constraints(&admins, &id, &seeds), Err(Error::ConstraintRaw));
    let mut b = placed_burn(None);
    b.mint.owner = key(33);
    assert_eq!(b.check_constraints(&admins, &id, &seeds), Err(Error::ConstraintMintTokenProgram));
    let mut b = placed_burn(None);
    b.token_account.mint = key(34);
    assert_eq!(b.check_constraints(&admins, &id, &seeds), Err(Error::ConstraintTokenMint));
    let mut b = placed_burn(None);
    b.token_account.owner = key(33);
    assert_eq!(b.check_constraints(&admins, &id, &seeds), Err(Error::ConstraintTokenTokenProgram));
    let mut b = placed_burn(None);
    b.token_metadata.key = key(35);
    assert_eq!(b.check_constraints(&admins, &id, &seeds), Err(Error::ConstraintSeeds));
    let mut b = placed_burn(None);
    b.payer = b.token_metadata.key;
    assert_eq!(b.check_constraints(&vec![b.payer], &id, &seeds), Err(Error::ConstraintClose));
    let mut b = placed_burn(Some(game(GameStatus::NoGame)));
    b.game_config.as_mut().unwrap().key = key(36);
    assert_eq!(b.check_constraints(&admins, &id, &seeds), Err(Error::ConstraintSeeds));
    let mut b = placed_burn(None);
    b.permanent_delegate.bump = b.permanent_delegate.bump.wrapping_sub(1);
    assert_eq!(b.check_constraints(&admins, &id, &seeds), Err(Error::ConstraintSeeds));
    assert_eq!(
        placed_burn(None).check_constraints(&vec![key(8)], &id, &seeds),
        Err(Error::NonOperator)
    );
    let mut b = placed_burn(None);
    b.mint.decimals = 1;
    assert_eq!(b.check_constraints(&vec![], &id, &seeds), Err(Error::ConstraintRaw));
}

#[test]
fn burger_burn_validate_uses_game_check_in_a_game() {
    let b = burger_burn(Some(game(GameStatus::Other(1))));
    assert_eq!(
        b.validate(&burger::TokenBurnParams {}, Err(Error::Program(6001)), Ok(())),
        Err(Error::Program(6001))
    );
    assert_eq!(b.validate(&burger::TokenBurnParams {}, Ok(()), Err(Error::Program(1))), Ok(()));
}

#[test]
fn burger_burn_validate_uses_expiry_without_game() {
    let b = burger_burn(None);
    assert_eq!(
        b.validate(&burger::TokenBurnParams {}, Ok(()), Err(Error::Program(6002))),
        Err(Error::Program(6002))
    );
    assert_eq!(b.validate(&burger::TokenBurnParams {}, Err(Error::Program(1)), Ok(())), Ok(()));
}

#[test]
fn burger_burn_first_part() {
    let (performed, result) = all_ok(burger_burn(None).actuate(&burger::TokenBurnParams {}));
    assert_eq!(result, Ok(()));
    assert_eq!(
        performed,
        vec![
            Action::BurnToken {
                mint: key(1),
                token_account: key(3),
                token_program: key(4),
                authority: key(6),
                delegate_bump: Some(254),
            },
            Action::CloseMint {
                token_program: key(4),
                mint: key(1),
                destination: key(7),
                authority: key(6),
                delegate_bump: Some(254),
            },
            Action::ReadTokenAccountOwner { token_account: key(3) },
        ]
    );
}

#[test]
fn burger_burn_closes_payers_account_and_counts_in_game() {
    let b = burger_burn(Some(game(GameStatus::Other(1))));
    let (performed, result) = all_ok(b.actuate_finish(key(7)));
    assert_eq!(result, Ok(()));
    assert_eq!(
        performed,
        vec![
            Action::CloseTokenAccount {
                token_program: key(4),
                account: key(3),
                destination: key(7),
                authority: key(7),
            },
            Action::BumpBurnAmount,
            Action::CloseProgramAccount { account: key(5), destination: key(7) },
        ]
    );
}

#[test]
fn burger_burn_leaves_others_account_without_game() {
    let (performed, result) = all_ok(burger_burn(None).actuate_finish(key(9)));
    assert_eq!(result, Ok(()));
    assert_eq!(performed, vec![Action::CloseProgramAccount { account: key(5), destination: key(7) }]);
}

#[test]
fn burger_burn_counts_only_in_game_for_other_owner() {
    let b = burger_burn(Some(game(GameStatus::NoGame)));
    let (performed, _) = all_ok(b.actuate_finish(key(9)));
    assert_eq!(
        performed,
        vec![
            Action::BumpBurnAmount,
            Action::CloseProgramAccount { account: key(5), destination: key(7) },
        ]
    );
}

#[test]
fn burger_burn_failed_count_keeps_metadata() {
    let b = burger_burn(Some(game(GameStatus::NoGame)));
    let (performed, result) = drive(b.actuate_finish(key(9)), &[Err(Error::Program(6005))]);
    assert_eq!(performed, vec![Action::BumpBurnAmount]);
    assert_eq!(result, Err(Error::Program(6005)));
}

// ---------- game reset ----------

fn reset(status: GameStatus) -> TokenGameReset {
    TokenGameReset {
        mint: MintAccount { key: key(1), owner: key(4), decimals: 0, supply: 1 },
        group_member: key(2),
        payer: key(7),
        game_config: game(status),
        update_authority: ProgramDelegate { key: key(6), bump: 253 },
        token22_program: key(4),
        system_program: key(0),
    }
}

#[test]
fn game_reset_validate() {
    let p = TokenGameResetParams {};
    let e1 = Err(Error::Program(6010));
    let e2 = Err(Error::Program(6011));
    assert_eq!(reset(GameStatus::Other(2)).validate(&p, e1, Ok(())), e1);
    assert_eq!(reset(GameStatus::Other(2)).validate(&p, Ok(()), e2), e2);
    assert_eq!(reset(GameStatus::NoGame).validate(&p, Ok(()), e2), Ok(()));
    assert_eq!(reset(GameStatus::NoGame).validate(&p, e1, e2), e1);
    assert_eq!(reset(GameStatus::Other(2)).validate(&p, Ok(()), Ok(())), Ok(()));
}

/// A reset whose program addresses are the true ones for the burger program
/// `key(40)` and the group program `key(42)`.
fn placed_reset(status: GameStatus) -> TokenGameReset {
    let mut r = reset(status);
    let (member, _) = pda(&[b"member", &r.mint.key.bytes], &key(42));
    r.group_member = member;
    let (game, game_bump) = pda(&[b"game_config"], &key(40));
    r.game_config.key = game;
    r.game_config.bump = game_bump;
    let (delegate, delegate_bump) = pda(&[b"program_delegate"], &key(40));
    r.update_authority = ProgramDelegate { key: delegate, bump: delegate_bump };
    r
}

fn reset_check(r: &TokenGameReset, admins: &Vec<Pubkey>) -> Option<Result<(), Error>> {
    r.check_constraints(admins, &key(40), &key(42), &b"member".to_vec(), &burger_seeds())
}

#[test]
fn game_reset_constraints() {
    let admins = vec![key(7)];
    assert_eq!(reset_check(&placed_reset(GameStatus::NoGame), &admins), Some(Ok(())));
    assert_eq!(reset_check(&placed_reset(GameStatus::NoGame), &vec![]), Some(Err(Error::NonOperator)));
    let mut r = placed_reset(GameStatus::NoGame);
    r.mint.supply = 0;
    assert_eq!(reset_check(&r, &vec![]), Some(Err(Error::ConstraintRaw)));
    let mut r = placed_reset(GameStatus::NoGame);
    r.mint.owner = key(33);
    assert_eq!(reset_check(&r, &admins), Some(Err(Error::ConstraintMintTokenProgram)));
    let mut r = placed_reset(GameStatus::NoGame);
    r.group_member = key(2);
    assert_eq!(reset_check(&r, &vec![]), Some(Err(Error::ConstraintSeeds)));
    let mut r = placed_reset(GameStatus::NoGame);
    r.game_config.key = key(20);
    assert_eq!(reset_check(&r, &admins), Some(Err(Error::ConstraintSeeds)));
    let mut r = placed_reset(GameStatus::NoGame);
    r.update_authority.key = key(6);
    assert_eq!(reset_check(&r, &admins), Some(Err(Error::ConstraintSeeds)));
}

#[test]
fn game_reset_clears_game_keys() {
    let (performed, result) = all_ok(reset(GameStatus::NoGame).actuate(&TokenGameResetParams {}));
    assert_eq!(result, Ok(()));
    let update = |field, value| Action::UpdateTokenMetadata {
        token_program: key(4),
        mint: key(1),
        update_authority: key(6),
        delegate_bump: 253,
        field,
        value,
    };
    assert_eq!(
        performed,
        vec![
            update(MetadataField::GameState, ""),
            update(MetadataField::VotingTimestamp, ""),
            update(MetadataField::NewImmunity, "false"),
        ]
    );
}

#[test]
fn game_reset_announces_and_tops_up() {
    let (performed, result) = all_ok(reset(GameStatus::NoGame).actuate_finish(1_700_000_000));
    assert_eq!(result, Ok(()));
    assert_eq!(
        performed,
        vec![
            Action::EmitTokenGameReset {
                nft: key(1),
                game_round_id: 4,
                reset_timestamp: 1_700_000_000,
            },
            Action::TopUpToMinimumBalance { account: key(1), payer: key(7), system_program: key(0) },
        ]
    );
}

// ---------- collection mint ----------

fn collection_mint() -> CollectionMint {
    CollectionMint {
        mint: key(1),
        token_account: key(2),
        token_metadata: key(3),
        token_metadata_bump: 251,
        collection_config: key(8),
        permanent_delegate: ProgramDelegate { key: key(6), bump: 254 },
        payer: key(7),
        rent: key(9),
        system_program: key(0),
        token22_program: key(4),
        associated_token: key(10),
        epplex_core: key(11),
    }
}

fn params(expiry: &str) -> CollectionMintParams {
    CollectionMintParams {
        expiry_date: expiry.to_string(),
        name: "Burger".to_string(),
        symbol: "BRG".to_string(),
        uri: "https://example.com/b.json".to_string(),
        collection_counter: 12,
    }
}

#[test]
fn collection_mint_accepts_future_expiry() {
    assert_eq!(collection_mint().validate(&params("1700000000"), 1_600_000_000), Ok(()));
    assert_eq!(collection_mint().validate(&params("+1700000000"), 1_699_999_999), Ok(()));
}

#[test]
fn collection_mint_refuses_past_or_present_expiry() {
    assert_eq!(
        collection_mint().validate(&params("1700000000"), 1_700_000_000),
        Err(Error::DateMustBeInTheFuture)
    );
    assert_eq!(
        collection_mint().validate(&params("-5"), -6 + 1),
        Err(Error::DateMustBeInTheFuture)
    );
    assert_eq!(collection_mint().validate(&params("-5"), -6), Ok(()));
    assert_eq!(
        collection_mint().validate(&params("9223372036854775807"), i64::MAX),
        Err(Error::DateMustBeInTheFuture)
    );
}

/// A collection mint whose program addresses are the true ones for the
/// burger program `key(40)` and the core program `key(11)`.
fn placed_collection_mint(counter: u64) -> (CollectionMint, CollectionMintBumps) {
    let mut c = collection_mint();
    let (meta, meta_bump) = pda(&[b"burger_metadata", &c.mint.bytes], &key(40));
    c.token_metadata = meta;
    c.token_metadata_bump = meta_bump;
    let (config, config_bump) = pda(&[b"collection_config", &counter.to_le_bytes()], &key(11));
    c.collection_config = config;
    let (delegate, delegate_bump) = pda(&[b"program_delegate"], &key(40));
    c.permanent_delegate = ProgramDelegate { key: delegate, bump: delegate_bump };
    (c, CollectionMintBumps { token_metadata: meta_bump, collection_config: config_bump })
}

fn collection_check(
    c: &CollectionMint,
    counter: u64,
    admins: &Vec<Pubkey>,
) -> Option<Result<CollectionMintBumps, Error>> {
    let mut p = params("1700000000");
    p.collection_counter = counter;
    c.check_constraints(&p, admins, &key(40), &burger_seeds(), &b"collection_config".to_vec())
}

#[test]
fn collection_mint_constraints() {
    let admins = vec![key(1), key(7)];
    let (c, bumps) = placed_collection_mint(12);
    assert_eq!(collection_check(&c, 12, &admins), Some(Ok(bumps)));
    assert_eq!(collection_check(&c, 12, &vec![key(1)]), Some(Err(Error::NonOperator)));
    assert_eq!(collection_check(&c, 13, &admins), Some(Err(Error::ConstraintSeeds)));
    let mut m = c;
    m.token_metadata = key(3);
    assert_eq!(collection_check(&m, 12, &vec![]), Some(Err(Error::ConstraintSeeds)));
    let mut m = c;
    m.permanent_delegate.key = key(6);
    assert_eq!(collection_check(&m, 12, &admins), Some(Err(Error::ConstraintSeeds)));
}

#[test]
fn collection_mint_writes_metadata_then_mints() {
    let (performed, result) = all_ok(collection_mint().actuate(params("1700000000")));
    assert_eq!(result, Ok(()));
    assert_eq!(
        performed,
        vec![
            Action::WriteBurgerMetadata { bump: 251 },
            Action::MintCollectionToken {
                core_program: key(11),
                mint: key(1),
                token_account: key(2),
                permanent_delegate: key(6),
                update_authority: key(6),
                payer: key(7),
                rent: key(9),
                authority: key(6),
                collection_config: key(8),
                system_program: key(0),
                token_program: key(4),
                associated_token_program: key(10),
                delegate_bump: 254,
                name: "Burger".to_string(),
                symbol: "BRG".to_string(),
                uri: "https://example.com/b.json".to_string(),
                collection_id: 12,
                expiry_date: "1700000000".to_string(),
            },
        ]
    );
}

#[test]
fn collection_mint_result_is_the_core_programs() {
    let (performed, result) =
        drive(collection_mint().actuate(params("1")), &[Ok(()), Err(Error::Program(3))]);
    assert_eq!(performed.len(), 2);
    assert_eq!(result, Err(Error::Program(3)));
}

// ---------- token mint ----------

fn token_mint() -> TokenMint {
    TokenMint {
        mint: key(1),
        ata: key(2),
        token_metadata: key(3),
        permanent_delegate: key(6),
        payer: key(7),
        rent: key(9),
        system_program: key(0),
        token22_program: key(4),
        associated_token: key(10),
        metadata_program: key(12),
    }
}

fn create_params() -> TokenCreateParams {
    TokenCreateParams {
        destroy_timestamp_offset: 3600,
        name: "Eph".to_string(),
        symbol: "E".to_string(),
        uri: "u".to_string(),
    }
}

#[test]
fn token_mint_validates() {
    assert_eq!(token_mint().validate(&create_params()), Ok(()));
}

#[test]
fn token_mint_creates_and_mints_one() {
    let (performed, result) = all_ok(token_mint().actuate(&create_params()));
    assert_eq!(result, Ok(()));
    assert_eq!(
        performed,
        vec![
            Action::InitMintAccount {
                payer: key(7),
                mint: key(1),
                rent: key(9),
                extensions: vec![
                    MintExtension::PermanentDelegate,
                    MintExtension::MintCloseAuthority,
                    MintExtension::MetadataPointer,
                ],
            },
            Action::AddMetadataPointer {
                token_program: key(4),
                mint: key(1),
                authority: key(6),
                metadata_address: key(1),
            },
            Action::InitializeMint {
                mint: key(1),
                rent: key(9),
                token_program: key(4),
                mint_authority: key(7),
                freeze_authority: key(7),
            },
            Action::CreateAssociatedTokenAccount {
                program: key(4),
                payer: key(7),
                associated_token: key(2),
                authority: key(7),
                mint: key(1),
                system_program: key(0),
                token_program: key(4),
            },
            Action::MintTo {
                token_program: key(4),
                mint: key(1),
                to: key(2),
                authority: key(7),
                amount: 1,
            },
        ]
    );
}

// ---------- membership ----------

fn membership() -> MembershipCreate {
    MembershipCreate {
        membership: key(1),
        membership_ata: key(2),
        rule_creator: key(13),
        rule: EphemeralRule { key: key(14), rule_creator: key(13), seed: 5, bump: 249 },
        payer: key(7),
        data: key(15),
        epplex_authority: key(16),
        rent: key(9),
        associated_token_program: key(10),
        token22_program: key(4),
        system_program: key(0),
    }
}

fn membership_seeds() -> MembershipSeeds {
    MembershipSeeds {
        ephemeral_data: b"ephemeral_data".to_vec(),
        ephemeral_rule: b"ephemeral_rule".to_vec(),
        ephemeral_auth: b"ephemeral_auth".to_vec(),
    }
}

/// A membership whose addresses are the true ones for the core program
/// `key(43)`, with the rent sysvar.
fn placed_membership() -> (MembershipCreate, MembershipCreateBumps) {
    let program = key(43);
    let mut m = membership();
    let (data, data_bump) = pda(&[b"ephemeral_data", &m.membership.bytes], &program);
    m.data = data;
    let (ata, ata_bump) =
        pda(&[&m.payer.bytes, &m.token22_program.bytes, &m.membership.bytes], &m.associated_token_program);
    m.membership_ata = ata;
    let (rule, rule_bump) = pda(&[b"ephemeral_rule", &m.rule.seed.to_le_bytes()], &program);
    m.rule.key = rule;
    m.rule.bump = rule_bump;
    let (auth, auth_bump) = pda(&[b"ephemeral_auth"], &program);
    m.epplex_authority = auth;
    m.rent = Pubkey::new_from_array(solana_program::sysvar::rent::ID.to_bytes());
    (m, MembershipCreateBumps { membership_ata: ata_bump, data: data_bump, epplex_authority: auth_bump })
}

#[test]
fn membership_constraints() {
    let (m, bumps) = placed_membership();
    let check = |m: &MembershipCreate| m.check_constraints(&key(43), &membership_seeds());
    assert_eq!(check(&m), Some(Ok(bumps)));
    let mut w = m;
    w.rule_creator = key(17);
    assert_eq!(check(&w), Some(Err(Error::EscalatedAuthority)));
    let mut w = m;
    w.data = key(15);
    w.rule_creator = key(17);
    assert_eq!(check(&w), Some(Err(Error::ConstraintSeeds)));
    let mut w = m;
    w.membership_ata = key(2);
    assert_eq!(check(&w), Some(Err(Error::ConstraintSeeds)));
    let mut w = m;
    w.rule.seed = 6;
    assert_eq!(check(&w), Some(Err(Error::ConstraintSeeds)));
    let mut w = m;
    w.epplex_authority = key(16);
    assert_eq!(check(&w), Some(Err(Error::ConstraintSeeds)));
    let mut w = m;
    w.rent = key(9);
    assert_eq!(check(&w), Some(Err(Error::ConstraintAddress)));
}

#[test]
fn membership_space() {
    let space = membership()
        .account_space(&"Gold".to_string(), &"GLD".to_string(), &"https://x".to_string())
        .unwrap();
    // Mint base 165 + account type 1 + (4 + 32) close authority + (4 + 32)
    // permanent delegate + (4 + 64) metadata pointer + (4 + 64) transfer hook.
    assert_eq!(space.mint_len, 374);
    // TLV header 12 + authority 32 + mint 32 + (4 + 4) + (4 + 3) + (4 + 9) + 4.
    assert_eq!(space.metadata_len, 108);
}

#[test]
fn membership_space_grows_with_name() {
    let a = membership().account_space(&"A".to_string(), &"".to_string(), &"".to_string()).unwrap();
    let b =
        membership().account_space(&"ABCDE".to_string(), &"".to_string(), &"".to_string()).unwrap();
    assert_eq!(b.metadata_len, a.metadata_len + 4);
    assert_eq!(a.mint_len, b.mint_len);
}

#[test]
fn membership_create_refuses_default_authority() {
    let mut m = membership();
    m.epplex_authority = key(0);
    let bumps = MembershipCreateBumps { membership_ata: 1, data: 2, epplex_authority: 3 };
    assert!(m.create(0, 1, "A".to_string(), "B".to_string(), "C".to_string(), bumps, 0).is_none());
}

#[test]
fn membership_data_len() {
    assert_eq!(AccountSpace { mint_len: 374, metadata_len: 108 }.data_len(), Some(482));
    assert_eq!(AccountSpace { mint_len: usize::MAX, metadata_len: 1 }.data_len(), None);
}

#[test]
fn membership_space_refuses_default_authority() {
    let mut m = membership();
    m.epplex_authority = key(0);
    assert_eq!(m.account_space(&"A".to_string(), &"B".to_string(), &"C".to_string()), None);
}

#[test]
fn membership_create_plan() {
    let bumps = MembershipCreateBumps { membership_ata: 1, data: 2, epplex_authority: 3 };
    let run = membership()
        .create(
            1_000,
            86_400,
            "Gold".to_string(),
            "GLD".to_string(),
            "https://x".to_string(),
            bumps,
            3_500_000,
        )
        .unwrap();
    let (performed, result) = all_ok(run);
    assert_eq!(result, Ok(()));
    assert_eq!(performed.len(), 11);
    assert_eq!(
        performed[0],
        Action::WriteEphemeralData { bump: 2, mint: key(1), rule: key(14), expiry_time: 87_400 }
    );
    assert_eq!(
        performed[1],
        Action::CreateAccount {
            from: key(7),
            to: key(1),
            lamports: 3_500_000,
            space: 374,
            owner: Pubkey::new_from_array(spl_token_2022::id().to_bytes()),
        }
    );
    assert_eq!(
        performed[3],
        Action::InitializeTransferHook {
            token_program: key(4),
            mint: key(1),
            authority: Some(key(16)),
            hook_program: None,
        }
    );
    assert_eq!(
        performed[7],
        Action::InitializeTokenMetadata {
            token_program: key(4),
            metadata: key(1),
            update_authority: key(16),
            mint: key(1),
            mint_authority: key(7),
            name: "Gold".to_string(),
            symbol: "GLD".to_string(),
            uri: "https://x".to_string(),
            authority_bump: 3,
        }
    );
    assert_eq!(
        performed[8],
        Action::CreateAssociatedTokenAccount {
            program: key(10),
            payer: key(7),
            associated_token: key(2),
            authority: key(7),
            mint: key(1),
            system_program: key(0),
            token_program: key(4),
        }
    );
    assert_eq!(
        performed[10],
        Action::RemoveMintAuthority { token_program: key(4), current_authority: key(7), mint: key(1) }
    );
}

#[test]
fn membership_create_negative_time_expires_earlier() {
    let bumps = MembershipCreateBumps { membership_ata: 1, data: 2, epplex_authority: 3 };
    let run = membership()
        .create(100, -300, String::new(), String::new(), String::new(), bumps, 0)
        .unwrap();
    let (performed, _) = drive(run, &[Err(Error::Program(1))]);
    assert_eq!(
        performed,
        vec![Action::WriteEphemeralData { bump: 2, mint: key(1), rule: key(14), expiry_time: -200 }]
    );
}

// ---------- close ----------

#[test]
fn close_moves_all_lamports_and_empties_account() {
    let mut info = AccountState { key: key(1), lamports: 2_039_280, owner: key(30), data_len: 165 };
    let mut dest = AccountState { key: key(2), lamports: 1_000, owner: key(0), data_len: 0 };
    close(&mut info, &mut dest);
    assert_eq!(dest.lamports, 2_040_280);
    assert_eq!(info.lamports, 0);
    assert_eq!(info.owner, key(0));
    assert_eq!(info.data_len, 0);
    assert_eq!(info.key, key(1));
    assert_eq!(dest.owner, key(0));
    assert_eq!(info.lamports + dest.lamports, 2_039_280 + 1_000);
}

#[test]
fn close_of_empty_account() {
    let mut info = AccountState { key: key(1), lamports: 0, owner: key(30), data_len: 8 };
    let mut dest = AccountState { key: key(2), lamports: u64::MAX, owner: key(31), data_len: 4 };
    close(&mut info, &mut dest);
    assert_eq!(dest.lamports, u64::MAX);
    assert_eq!(dest.owner, key(31));
    assert_eq!(dest.data_len, 4);
    assert!(info.owner.is_default());
}

// ---------- program addresses ----------

#[test]
fn token_2022_address_bytes() {
    assert_eq!(
        spl_token_2022::id().to_bytes(),
        [
            6, 221, 246, 225, 238, 117, 143, 222, 24, 66, 93, 188, 228, 108, 205, 218, 182, 26,
            252, 77, 131, 185, 13, 39, 254, 189, 249, 40, 216, 161, 139, 252,
        ]
    );
}

#[test]
fn system_program_address_is_zero() {
    assert_eq!(solana_program::system_program::ID.to_bytes(), [0u8; 32]);
}

#[test]
fn membership_space_counts_utf8_bytes() {
    let space =
        membership().account_space(&"Čaj".to_string(), &String::new(), &String::new()).unwrap();
    // 12 + 32 + 32 + (4 + 4) + 4 + 4 + 4: "Č" takes two bytes.
    assert_eq!(space.metadata_len, 96);
    assert_eq!(space.mint_len, 374);
}

//! Creating a membership: an ephemeral token-2022 mint with its metadata and
//! the payer's one token.
use vstd::prelude::*;
use crate::action::{Action, MintExtension};
use crate::error::Error;
use crate::key::{
    Pubkey, copy_bytes, is_zero_key, key_bytes, optional_non_zero, rent_sysvar_bytes,
    rent_sysvar_id,
};
use crate::pda::{
    check_found, check_seeds, found_check, found_program_address, program_address, seeds_check,
    with_bump,
};
use vstd::bytes::{spec_u64_to_le_bytes, u64_to_le_bytes};
use crate::run::Run;
use vstd::utf8::encode_utf8;
use crate::token22::{
    metadata_entry_len, metadata_strings_fit, mint_account_len, mint_len_of, token_2022_id_bytes,
    token_2022_program_id,
    token_metadata_len,
};

verus! {

/// A rule under which memberships are created.
#[derive(Clone, Copy, Debug, PartialEq, Eq)]
pub struct EphemeralRule {
    pub key: Pubkey,
    pub rule_creator: Pubkey,
    pub seed: u64,
    pub bump: u8,
}

/// The accounts of a membership creation. The payer also becomes the
/// member.
#[derive(Clone, Copy, Debug, PartialEq, Eq)]
pub struct MembershipCreate {
    pub membership: Pubkey,
    pub membership_ata: Pubkey,
    pub rule_creator: Pubkey,
    pub rule: EphemeralRule,
    pub payer: Pubkey,
    pub data: Pubkey,
    pub epplex_authority: Pubkey,
    pub rent: Pubkey,
    pub associated_token_program: Pubkey,
    pub token22_program: Pubkey,
    pub system_program: Pubkey,
}

/// The prefixes of the core program's addresses: those of the ephemeral
/// data, the ephemeral rules and the program's authority.
#[derive(Clone, Debug, PartialEq, Eq)]
pub struct MembershipSeeds {
    pub ephemeral_data: Vec<u8>,
    pub ephemeral_rule: Vec<u8>,
    pub ephemeral_auth: Vec<u8>,
}

/// The bumps of the program addresses among the accounts, as the
/// account constraints find them.
#[derive(Clone, Copy, Debug, PartialEq, Eq)]
pub struct MembershipCreateBumps {
    pub membership_ata: u8,
    pub data: u8,
    pub epplex_authority: u8,
}

/// The room that a membership mint needs: the mint account with its
/// extensions, and the token metadata entry added to it afterwards.
#[derive(Clone, Copy, Debug, PartialEq, Eq)]
pub struct AccountSpace {
    pub mint_len: usize,
    pub metadata_len: usize,
}

impl AccountSpace {
    /// The length that the mint reaches once its metadata is added: the
    /// length whose rent-exempt minimum the mint is funded with. `None` where
    /// the sum overflows, where the instruction panics.
    pub fn data_len(&self) -> (r: Option<usize>)
        ensures
            r == (if self.mint_len + self.metadata_len <= usize::MAX {
                Some((self.mint_len + self.metadata_len) as usize)
            } else {
                None::<usize>
            }),
    {
        self.mint_len.checked_add(self.metadata_len)
    }
}

/// The extensions of a membership mint.
pub open spec fn membership_extensions() -> Seq<MintExtension> {
    seq![
        MintExtension::MintCloseAuthority,
        MintExtension::PermanentDelegate,
        MintExtension::MetadataPointer,
        MintExtension::TransferHook,
    ]
}

/// A membership mint, with its four extensions, takes 374 bytes.
proof fn lemma_membership_mint_len()
    ensures
        mint_len_of(membership_extensions()) == 374,
{
    let e = membership_extensions();
    assert(e[0] == MintExtension::MintCloseAuthority);
    assert(e[1] == MintExtension::PermanentDelegate);
    assert(e[2] == MintExtension::MetadataPointer);
    assert(e[3] == MintExtension::TransferHook);
}

impl MembershipCreate {
    /// The room for a membership named `name` with `symbol` and `uri`, or
    /// `None` where the instruction panics: the authority is the default
    /// address, which cannot be a metadata update authority, or a string is
    /// too long for Borsh to encode. The mint's length is that of a mint with
    /// the four membership extensions; the metadata's is that of its entry.
    pub open spec fn space_for(&self, name: Seq<char>, symbol: Seq<char>, uri: Seq<char>) -> Option<
        AccountSpace,
    > {
        if is_zero_key(self.epplex_authority@) || !metadata_strings_fit(name, symbol, uri) {
            None
        } else {
            Some(
                AccountSpace {
                    mint_len: mint_len_of(membership_extensions()) as usize,
                    metadata_len: metadata_entry_len(name, symbol, uri) as usize,
                },
            )
        }
    }

    /// The actions of a membership creation at time `now`, the membership
    /// lasting `time` seconds: record the membership's expiry; create the
    /// mint account, owned by the token-2022 program (`token_2022`), with
    /// `lamports` and room for the mint with its extensions (the metadata is
    /// not counted in its space); set the permanent
    /// delegate, the transfer hook authority (no hook program), the close
    /// authority and the metadata pointer (to the mint itself), all to the
    /// program's authority; initialize the mint with the payer as mint
    /// authority, no freeze authority and no decimals; initialize its
    /// metadata, signed by the program's authority; create the payer's
    /// associated token account; mint one token to it; and remove the mint
    /// authority.
    pub open spec fn create_plan(
        &self,
        now: i64,
        time: i64,
        name: String,
        symbol: String,
        uri: String,
        bumps: MembershipCreateBumps,
        space: AccountSpace,
        lamports: u64,
        token_2022: Pubkey,
    ) -> Seq<Action> {
        seq![
            Action::WriteEphemeralData {
                bump: bumps.data,
                mint: self.membership,
                rule: self.rule.key,
                expiry_time: (now + time) as i64,
            },
            Action::CreateAccount {
                from: self.payer,
                to: self.membership,
                lamports,
                space: space.mint_len as u64,
                owner: token_2022,
            },
            Action::InitializePermanentDelegate {
                token_program: self.token22_program,
                mint: self.membership,
                delegate: self.epplex_authority,
            },
            Action::InitializeTransferHook {
                token_program: self.token22_program,
                mint: self.membership,
                authority: Some(self.epplex_authority),
                hook_program: None,
            },
            Action::InitializeMintCloseAuthority {
                token_program: self.token22_program,
                mint: self.membership,
                close_authority: Some(self.epplex_authority),
            },
            Action::InitializeMetadataPointer {
                token_program: self.token22_program,
                mint: self.membership,
                authority: Some(self.epplex_authority),
                metadata_address: Some(self.membership),
            },
            Action::InitializeMint2 {
                token_program: self.token22_program,
                mint: self.membership,
                mint_authority: self.payer,
                freeze_authority: None,
                decimals: 0,
            },
            Action::InitializeTokenMetadata {
                token_program: self.token22_program,
                metadata: self.membership,
                update_authority: self.epplex_authority,
                mint: self.membership,
                mint_authority: self.payer,
                name,
                symbol,
                uri,
                authority_bump: bumps.epplex_authority,
            },
            Action::CreateAssociatedTokenAccount {
                program: self.associated_token_program,
                payer: self.payer,
                associated_token: self.membership_ata,
                authority: self.payer,
                mint: self.membership,
                system_program: self.system_program,
                token_program: self.token22_program,
            },
            Action::MintTo {
                token_program: self.token22_program,
                mint: self.membership,
                to: self.membership_ata,
                authority: self.payer,
                amount: 1,
            },
            Action::RemoveMintAuthority {
                token_program: self.token22_program,
                current_authority: self.payer,
                mint: self.membership,
            },
        ]
    }

    /// What the account constraints of a membership creation give, in the
    /// order in which they are checked (the account created by the
    /// instruction first, then the others in the order of the accounts), the
    /// first that fails giving its error: the data account is at the address
    /// found for its prefix and the membership mint; the member's associated
    /// token account is at the address found for the payer, the token-2022
    /// program and the mint under the associated-token program; the signing
    /// rule creator is the creator of the rule; the rule is at its address
    /// (its prefix, its seed in little-endian bytes, its bump); the
    /// program's authority is at the address found for its prefix; and the
    /// rent account is the rent sysvar. On success, the bumps found. `None`
    /// where no bump gives an address, where the check panics. `program_id`
    /// is the core program's address.
    pub open spec fn constraints_check(
        &self,
        program_id: Pubkey,
        data_seed: Seq<u8>,
        rule_seed: Seq<u8>,
        authority_seed: Seq<u8>,
    ) -> Option<Result<MembershipCreateBumps, Error>> {
        match found_check(self.data, seq![data_seed, self.membership@], program_id) {
            None => None,
            Some(Err(e)) => Some(Err(e)),
            Some(Ok(data_bump)) => match found_check(
                self.membership_ata,
                seq![self.payer@, self.token22_program@, self.membership@],
                self.associated_token_program,
            ) {
                None => None,
                Some(Err(e)) => Some(Err(e)),
                Some(Ok(ata_bump)) => if self.rule_creator@ != self.rule.rule_creator@ {
                    Some(Err(Error::EscalatedAuthority))
                } else if seeds_check(
                    self.rule.key,
                    seq![rule_seed, spec_u64_to_le_bytes(self.rule.seed), seq![self.rule.bump]],
                    program_id,
                ) is Err {
                    Some(Err(Error::ConstraintSeeds))
                } else {
                    match found_check(self.epplex_authority, seq![authority_seed], program_id) {
                        None => None,
                        Some(Err(e)) => Some(Err(e)),
                        Some(Ok(authority_bump)) => if self.rent@ != rent_sysvar_bytes() {
                            Some(Err(Error::ConstraintAddress))
                        } else {
                            Some(
                                Ok(
                                    MembershipCreateBumps {
                                        membership_ata: ata_bump,
                                        data: data_bump,
                                        epplex_authority: authority_bump,
                                    },
                                ),
                            )
                        },
                    }
                },
            },
        }
    }

    /// Checks the account constraints of a membership creation; `seeds`
    /// holds the prefixes of the core program's addresses.
    pub fn check_constraints(&self, program_id: &Pubkey, seeds: &MembershipSeeds) -> (r: Option<
        Result<MembershipCreateBumps, Error>,
    >)
        ensures
            r == self.constraints_check(
                *program_id,
                seeds.ephemeral_data@,
                seeds.ephemeral_rule@,
                seeds.ephemeral_auth@,
            ),
    {
        let mut data_seeds: Vec<Vec<u8>> = Vec::new();
        data_seeds.push(copy_bytes(&seeds.ephemeral_data));
        data_seeds.push(key_bytes(&self.membership));
        proof {
            assert(data_seeds.deep_view() =~= seq![seeds.ephemeral_data@, self.membership@]);
        }
        let data_bump = match check_found(&self.data, &data_seeds, program_id) {
            None => {
                return None;
            },
            Some(Err(e)) => {
                return Some(Err(e));
            },
            Some(Ok(b)) => b,
        };
        let mut ata_seeds: Vec<Vec<u8>> = Vec::new();
        ata_seeds.push(key_bytes(&self.payer));
        ata_seeds.push(key_bytes(&self.token22_program));
        ata_seeds.push(key_bytes(&self.membership));
        proof {
            assert(ata_seeds.deep_view() =~= seq![
                self.payer@,
                self.token22_program@,
                self.membership@,
            ]);
        }
        let ata_bump = match check_found(
            &self.membership_ata,
            &ata_seeds,
            &self.associated_token_program,
        ) {
            None => {
                return None;
            },
            Some(Err(e)) => {
                return Some(Err(e));
            },
            Some(Ok(b)) => b,
        };
        if !self.rule_creator.same_as(&self.rule.rule_creator) {
            return Some(Err(Error::EscalatedAuthority));
        }
        let mut rule_seeds: Vec<Vec<u8>> = Vec::new();
        rule_seeds.push(copy_bytes(&seeds.ephemeral_rule));
        let le = u64_to_le_bytes(self.rule.seed);
        proof {
            assert(le.deep_view() =~= le@);
        }
        rule_seeds.push(le);
        proof {
            assert(rule_seeds.deep_view() =~= seq![
                seeds.ephemeral_rule@,
                spec_u64_to_le_bytes(self.rule.seed),
            ]);
        }
        let rule_seeds = with_bump(rule_seeds, self.rule.bump);
        proof {
            assert(rule_seeds.deep_view() =~= seq![
                seeds.ephemeral_rule@,
                spec_u64_to_le_bytes(self.rule.seed),
                seq![self.rule.bump],
            ]);
        }
        if check_seeds(&self.rule.key, &rule_seeds, program_id).is_err() {
            return Some(Err(Error::ConstraintSeeds));
        }
        let mut authority_seeds: Vec<Vec<u8>> = Vec::new();
        authority_seeds.push(copy_bytes(&seeds.ephemeral_auth));
        proof {
            assert(authority_seeds.deep_view() =~= seq![seeds.ephemeral_auth@]);
        }
        let authority_bump = match check_found(&self.epplex_authority, &authority_seeds, program_id) {
            None => {
                return None;
            },
            Some(Err(e)) => {
                return Some(Err(e));
            },
            Some(Ok(b)) => b,
        };
        if !self.rent.same_as(&rent_sysvar_id()) {
            return Some(Err(Error::ConstraintAddress));
        }
        Some(
            Ok(
                MembershipCreateBumps {
                    membership_ata: ata_bump,
                    data: data_bump,
                    epplex_authority: authority_bump,
                },
            ),
        )
    }

    /// The room that the membership's mint needs, computed by the token-2022
    /// program and its metadata interface.
    pub fn account_space(&self, name: &String, symbol: &String, uri: &String) -> (r: Option<
        AccountSpace,
    >)
        requires
            metadata_entry_len(name@, symbol@, uri@) <= usize::MAX,
        ensures
            r == self.space_for(name@, symbol@, uri@),
            r matches Some(space) ==> space.mint_len == 374,
    {
        let mut extensions: Vec<MintExtension> = Vec::new();
        extensions.push(MintExtension::MintCloseAuthority);
        extensions.push(MintExtension::PermanentDelegate);
        extensions.push(MintExtension::MetadataPointer);
        extensions.push(MintExtension::TransferHook);
        proof {
            assert(extensions@ =~= membership_extensions());
            lemma_membership_mint_len();
        }
        let mint_len = match mint_account_len(&extensions) {
            Some(n) => n,
            None => {
                return None;
            },
        };
        let update_authority = match optional_non_zero(self.epplex_authority) {
            Some(k) => k,
            None => {
                return None;
            },
        };
        match token_metadata_len(&update_authority, &self.membership, name, symbol, uri) {
            Some(metadata_len) => Some(AccountSpace { mint_len, metadata_len }),
            None => None,
        }
    }

    /// The run of a membership creation at time `now`, the membership lasting
    /// `time` seconds, its mint funded with `lamports`: the rent-exempt
    /// minimum for the length `data_len` of the room that `account_space`
    /// gives for the same name, symbol and URI. The room is computed here
    /// again: `None` where it cannot be, where the instruction panics. The
    /// instruction also panics where `now + time` overflows; that input is
    /// left out.
    pub fn create(
        &self,
        now: i64,
        time: i64,
        name: String,
        symbol: String,
        uri: String,
        bumps: MembershipCreateBumps,
        lamports: u64,
    ) -> (r: Option<Run>)
        requires
            i64::MIN <= now + time <= i64::MAX,
            metadata_entry_len(name@, symbol@, uri@) <= usize::MAX,
        ensures
            r is Some <==> self.space_for(name@, symbol@, uri@) is Some,
            r matches Some(run) ==> {
                &&& run.well_formed()
                &&& run.plan() == self.create_plan(
                    now,
                    time,
                    name,
                    symbol,
                    uri,
                    bumps,
                    self.space_for(name@, symbol@, uri@)->0,
                    lamports,
                    run.plan()[1]->owner,
                )
                &&& (run.plan()[1]->owner)@ == token_2022_id_bytes()
                &&& run.plan()[2] == Action::InitializePermanentDelegate {
                    token_program: self.token22_program,
                    mint: self.membership,
                    delegate: self.epplex_authority,
                }
                &&& run.plan()[9] == Action::MintTo {
                    token_program: self.token22_program,
                    mint: self.membership,
                    to: self.membership_ata,
                    authority: self.payer,
                    amount: 1,
                }
                &&& run.issued() == 0
                &&& !run.is_over()
            },
    {
        let space = match self.account_space(&name, &symbol, &uri) {
            Some(space) => space,
            None => {
                return None;
            },
        };
        let ghost (n, s, u) = (name, symbol, uri);
        let token_2022 = token_2022_program_id();
        let mut plan: Vec<Action> = Vec::new();
        plan.push(
            Action::WriteEphemeralData {
                bump: bumps.data,
                mint: self.membership,
                rule: self.rule.key,
                expiry_time: now + time,
            },
        );
        plan.push(
            Action::CreateAccount {
                from: self.payer,
                to: self.membership,
                lamports,
                space: space.mint_len as u64,
                owner: token_2022,
            },
        );
        plan.push(
            Action::InitializePermanentDelegate {
                token_program: self.token22_program,
                mint: self.membership,
                delegate: self.epplex_authority,
            },
        );
        plan.push(
            Action::InitializeTransferHook {
                token_program: self.token22_program,
                mint: self.membership,
                authority: Some(self.epplex_authority),
                hook_program: None,
            },
        );
        plan.push(
            Action::InitializeMintCloseAuthority {
                token_program: self.token22_program,
                mint: self.membership,
                close_authority: Some(self.epplex_authority),
            },
        );
        plan.push(
            Action::InitializeMetadataPointer {
                token_program: self.token22_program,
                mint: self.membership,
                authority: Some(self.epplex_authority),
                metadata_address: Some(self.membership),
            },
        );
        plan.push(
            Action::InitializeMint2 {
                token_program: self.token22_program,
                mint: self.membership,
                mint_authority: self.payer,
                freeze_authority: None,
                decimals: 0,
            },
        );
        plan.push(
            Action::InitializeTokenMetadata {
                token_program: self.token22_program,
                metadata: self.membership,
                update_authority: self.epplex_authority,
                mint: self.membership,
                mint_authority: self.payer,
                name,
                symbol,
                uri,
                authority_bump: bumps.epplex_authority,
            },
        );
        plan.push(
            Action::CreateAssociatedTokenAccount {
                program: self.associated_token_program,
                payer: self.payer,
                associated_token: self.membership_ata,
                authority: self.payer,
                mint: self.membership,
                system_program: self.system_program,
                token_program: self.token22_program,
            },
        );
        plan.push(
            Action::MintTo {
                token_program: self.token22_program,
                mint: self.membership,
                to: self.membership_ata,
                authority: self.payer,
                amount: 1,
            },
        );
        plan.push(
            Action::RemoveMintAuthority {
                token_program: self.token22_program,
                current_authority: self.payer,
                mint: self.membership,
            },
        );
        proof {
            assert(plan@ =~= self.create_plan(now, time, n, s, u, bumps, space, lamports, token_2022));
        }
        let r = Run::new(plan);
        proof {
            law_membership_program_holds_the_authorities(
                *self, now, time, n, s, u, bumps, space, lamports, token_2022,
            );
            law_membership_mints_one_token_then_no_more(
                *self, now, time, n, s, u, bumps, space, lamports, token_2022,
            );
        }
        Some(r)
    }
}

} // verus!

verus! {

/// Every membership creation makes the program's authority the permanent
/// delegate of the mint, the authority of its transfer hook (with no hook
/// program), its close authority, the authority of its metadata pointer
/// (which points at the mint itself) and the update authority of its
/// metadata; no other account gets these powers.
pub proof fn law_membership_program_holds_the_authorities(
    m: MembershipCreate,
    now: i64,
    time: i64,
    name: String,
    symbol: String,
    uri: String,
    bumps: MembershipCreateBumps,
    space: AccountSpace,
    lamports: u64,
    token_2022: Pubkey,
)
    ensures
        ({
            let p = m.create_plan(now, time, name, symbol, uri, bumps, space, lamports, token_2022);
            &&& p.len() == 11
            &&& p[2] == Action::InitializePermanentDelegate {
                token_program: m.token22_program,
                mint: m.membership,
                delegate: m.epplex_authority,
            }
            &&& p[3] == Action::InitializeTransferHook {
                token_program: m.token22_program,
                mint: m.membership,
                authority: Some(m.epplex_authority),
                hook_program: None,
            }
            &&& p[4] == Action::InitializeMintCloseAuthority {
                token_program: m.token22_program,
                mint: m.membership,
                close_authority: Some(m.epplex_authority),
            }
            &&& p[5] == Action::InitializeMetadataPointer {
                token_program: m.token22_program,
                mint: m.membership,
                authority: Some(m.epplex_authority),
                metadata_address: Some(m.membership),
            }
            &&& p[7] matches Action::InitializeTokenMetadata {
                update_authority,
                metadata,
                mint,
                authority_bump,
                ..
            } && update_authority == m.epplex_authority && metadata == m.membership && mint
                == m.membership && authority_bump == bumps.epplex_authority
        }),
{
}

/// Every membership creation gives the payer exactly one token of a mint
/// with no decimals and no freeze authority, minted to the payer's
/// associated token account with the payer as the only mint authority, and
/// then removes that authority as its last action, so no more can be minted.
pub proof fn law_membership_mints_one_token_then_no_more(
    m: MembershipCreate,
    now: i64,
    time: i64,
    name: String,
    symbol: String,
    uri: String,
    bumps: MembershipCreateBumps,
    space: AccountSpace,
    lamports: u64,
    token_2022: Pubkey,
)
    ensures
        ({
            let p = m.create_plan(now, time, name, symbol, uri, bumps, space, lamports, token_2022);
            &&& p[6] == Action::InitializeMint2 {
                token_program: m.token22_program,
                mint: m.membership,
                mint_authority: m.payer,
                freeze_authority: None,
                decimals: 0,
            }
            &&& p[8] == Action::CreateAssociatedTokenAccount {
                program: m.associated_token_program,
                payer: m.payer,
                associated_token: m.membership_ata,
                authority: m.payer,
                mint: m.membership,
                system_program: m.system_program,
                token_program: m.token22_program,
            }
            &&& p[9] == Action::MintTo {
                token_program: m.token22_program,
                mint: m.membership,
                to: m.membership_ata,
                authority: m.payer,
                amount: 1,
            }
            &&& p.last() == Action::RemoveMintAuthority {
                token_program: m.token22_program,
                current_authority: m.payer,
                mint: m.membership,
            }
            &&& forall|i: int| 0 <= i < p.len() ==> !(#[trigger] p[i] is MintTo) || i == 9
        }),
{
}

/// Every membership creation records, before anything else, that the
/// membership expires `time` seconds after `now` under its rule; it then
/// creates the mint account from the payer's funds, with exactly `lamports`
/// and the room of the mint with its extensions, owned by `token_2022`; and
/// the metadata carries the name, symbol and URI given.
pub proof fn law_membership_expiry_funding_and_metadata(
    m: MembershipCreate,
    now: i64,
    time: i64,
    name: String,
    symbol: String,
    uri: String,
    bumps: MembershipCreateBumps,
    space: AccountSpace,
    lamports: u64,
    token_2022: Pubkey,
)
    requires
        i64::MIN <= now + time <= i64::MAX,
    ensures
        ({
            let p = m.create_plan(now, time, name, symbol, uri, bumps, space, lamports, token_2022);
            &&& p[0] matches Action::WriteEphemeralData { bump, mint, rule, expiry_time }
                && expiry_time == now + time && mint == m.membership && rule == m.rule.key && bump
                == bumps.data
            &&& p[1] == Action::CreateAccount {
                from: m.payer,
                to: m.membership,
                lamports,
                space: space.mint_len as u64,
                owner: token_2022,
            }
            &&& p[7] matches Action::InitializeTokenMetadata {
                name: n,
                symbol: s,
                uri: u,
                mint_authority,
                ..
            } && n == name && s == symbol && u == uri && mint_authority == m.payer
        }),
{
}

} // verus!

verus! {

/// The account constraints accept a membership creation exactly when all of
/// them hold, and then give the bumps found: the data account, the member's
/// associated token account and the program's authority are at the addresses
/// found for their seeds; the signing rule creator is the rule's creator; the
/// rule is at the program address of its seeds; and the rent account is the
/// rent sysvar. A signer other than the rule's creator is refused with
/// `EscalatedAuthority` once the two accounts checked before it pass.
pub proof fn law_membership_constraints_accept_exactly_when_all_hold(
    m: MembershipCreate,
    program_id: Pubkey,
    data_seed: Seq<u8>,
    rule_seed: Seq<u8>,
    authority_seed: Seq<u8>,
)
    ensures
        ({
            let r = m.constraints_check(program_id, data_seed, rule_seed, authority_seed);
            let data = found_program_address(seq![data_seed, m.membership@], program_id@);
            let ata = found_program_address(
                seq![m.payer@, m.token22_program@, m.membership@],
                m.associated_token_program@,
            );
            let authority = found_program_address(seq![authority_seed], program_id@);
            let all_hold = {
                &&& data is Some
                &&& (data->0).0 == m.data@
                &&& ata is Some
                &&& (ata->0).0 == m.membership_ata@
                &&& m.rule_creator@ == m.rule.rule_creator@
                &&& program_address(
                    seq![rule_seed, spec_u64_to_le_bytes(m.rule.seed), seq![m.rule.bump]],
                    program_id@,
                ) == Some(m.rule.key@)
                &&& authority is Some
                &&& (authority->0).0 == m.epplex_authority@
                &&& m.rent@ == rent_sysvar_bytes()
            };
            &&& all_hold ==> r == Some(
                Ok::<MembershipCreateBumps, Error>(
                    MembershipCreateBumps {
                        membership_ata: (ata->0).1,
                        data: (data->0).1,
                        epplex_authority: (authority->0).1,
                    },
                ),
            )
            &&& (r is Some && r->0 is Ok) ==> all_hold
            &&& data is Some && (data->0).0 == m.data@ && ata is Some && (ata->0).0
                == m.membership_ata@ && m.rule_creator@ != m.rule.rule_creator@ ==> r == Some(
                Err::<MembershipCreateBumps, Error>(Error::EscalatedAuthority),
            )
        }),
{
}

} // verus!

//! Sizes that the token-2022 program and its metadata interface compute.
use vstd::prelude::*;
use crate::action::MintExtension;
use crate::key::Pubkey;
use vstd::utf8::encode_utf8;
use spl_token_2022::extension::ExtensionType;
use spl_token_2022::state::Mint;
use anchor_spl::token_interface::spl_token_metadata_interface::state::TokenMetadata;
use anchor_spl::token_interface::spl_pod::optional_keys::OptionalNonZeroPubkey;

verus! {

/// The length of an extension's entry in a mint account: the two-byte type,
/// the two-byte length and the extension's data.
pub open spec fn extension_entry_len(extension: MintExtension) -> int {
    4 + match extension {
        MintExtension::MintCloseAuthority => 32int,
        MintExtension::PermanentDelegate => 32int,
        MintExtension::MetadataPointer => 64int,
        MintExtension::TransferHook => 64int,
    }
}

/// The entry length of `extension` when `extensions` holds it, else 0.
pub open spec fn entry_if_held(extensions: Seq<MintExtension>, extension: MintExtension) -> int {
    if extensions.contains(extension) {
        extension_entry_len(extension)
    } else {
        0
    }
}

/// The length of a token-2022 mint account with room for `extensions`: the
/// 82-byte mint when there are none; otherwise the 165-byte base account,
/// the account-type byte and one entry per distinct extension.
pub open spec fn mint_len_of(extensions: Seq<MintExtension>) -> int {
    if extensions.len() == 0 {
        82
    } else {
        166 + entry_if_held(extensions, MintExtension::MintCloseAuthority) + entry_if_held(
            extensions,
            MintExtension::PermanentDelegate,
        ) + entry_if_held(extensions, MintExtension::MetadataPointer) + entry_if_held(
            extensions,
            MintExtension::TransferHook,
        )
    }
}

/// Whether Borsh can encode each of the strings: each is at most `u32::MAX`
/// bytes long in UTF-8.
pub open spec fn metadata_strings_fit(name: Seq<char>, symbol: Seq<char>, uri: Seq<char>) -> bool {
    &&& encode_utf8(name).len() <= u32::MAX
    &&& encode_utf8(symbol).len() <= u32::MAX
    &&& encode_utf8(uri).len() <= u32::MAX
}

/// The length of the token metadata entry for this name, symbol and URI and
/// no additional fields: the 12-byte TLV header, the update authority and
/// the mint (32 bytes each), each string as a 4-byte length and its UTF-8
/// bytes, and the 4-byte length of the empty list of additional fields.
pub open spec fn metadata_entry_len(name: Seq<char>, symbol: Seq<char>, uri: Seq<char>) -> int {
    (12 + 32 + 32 + (4 + encode_utf8(name).len()) + (4 + encode_utf8(symbol).len()) + (4
        + encode_utf8(uri).len()) + 4) as int
}

/// Calls spl-token-2022's `ExtensionType::try_calculate_account_len::<Mint>`.
///
/// Trusted: the source returns the mint's 82 bytes for no extensions, and
/// otherwise 165 + 1 bytes plus, per distinct extension, 2 + 2 bytes and its
/// fixed size (32 for the close authority and the permanent delegate, 64 for
/// the metadata pointer and the transfer hook); its only error is for
/// extensions of variable size, which these are not, and its adjustment for
/// a length of 355 bytes never arises from these sizes.
#[verifier::external_body]
pub(crate) fn mint_account_len(extensions: &Vec<MintExtension>) -> (r: Option<usize>)
    ensures
        r == Some(mint_len_of(extensions@) as usize),
{
    let types: Vec<ExtensionType> = extensions.iter().map(|e| match e {
        MintExtension::MintCloseAuthority => ExtensionType::MintCloseAuthority,
        MintExtension::PermanentDelegate => ExtensionType::PermanentDelegate,
        MintExtension::MetadataPointer => ExtensionType::MetadataPointer,
        MintExtension::TransferHook => ExtensionType::TransferHook,
    }).collect();
    ExtensionType::try_calculate_account_len::<Mint>(&types).ok()
}

/// Calls spl-token-metadata-interface's `TokenMetadata::tlv_size_of` on the
/// metadata made of these values, with no additional fields.
///
/// Trusted: the source returns the 12-byte TLV header plus the Borsh length
/// of the fields, which the contract states; Borsh refuses a string longer
/// than `u32::MAX` bytes, and the call then fails. The length of the three
/// strings held in memory, plus the fixed part, fits in `usize`.
#[verifier::external_body]
pub(crate) fn token_metadata_len(
    update_authority: &Pubkey,
    mint: &Pubkey,
    name: &String,
    symbol: &String,
    uri: &String,
) -> (r: Option<usize>)
    requires
        metadata_entry_len(name@, symbol@, uri@) <= usize::MAX,
    ensures
        r == (if metadata_strings_fit(name@, symbol@, uri@) {
            Some(metadata_entry_len(name@, symbol@, uri@) as usize)
        } else {
            None::<usize>
        }),
{
    let metadata = TokenMetadata {
        update_authority: OptionalNonZeroPubkey(
            solana_program::pubkey::Pubkey::new_from_array(update_authority.bytes),
        ),
        mint: solana_program::pubkey::Pubkey::new_from_array(mint.bytes),
        name: name.clone(),
        symbol: symbol.clone(),
        uri: uri.clone(),
        additional_metadata: vec![],
    };
    metadata.tlv_size_of().ok()
}

/// The bytes of the token-2022 program's address,
/// `TokenzQdBNbLqP5VEhdkAS6EPFLC1PHnBqCXEpPxuEb`.
pub open spec fn token_2022_id_bytes() -> Seq<u8> {
    seq![
        6u8, 221, 246, 225, 238, 117, 143, 222, 24, 66, 93, 188, 228, 108, 205, 218, 182, 26,
        252, 77, 131, 185, 13, 39, 254, 189, 249, 40, 216, 161, 139, 252,
    ]
}

/// The token-2022 program's address, spl-token-2022's `id()`.
///
/// Trusted: the crate declares it with
/// `declare_id!("TokenzQdBNbLqP5VEhdkAS6EPFLC1PHnBqCXEpPxuEb")`; the contract
/// states the 32 bytes that this base58 text stands for.
#[verifier::external_body]
pub(crate) fn token_2022_program_id() -> (k: Pubkey)
    ensures
        k@ == token_2022_id_bytes(),
{
    Pubkey { bytes: spl_token_2022::id().to_bytes() }
}

} // verus!

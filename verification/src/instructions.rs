//! The bridge to the external asset program's client crate: each operation's
//! verified entry point checks the identity, runs the verified translation,
//! and hands the translated plain values to a trusted builder wrapper that
//! assembles the real outbound instruction.
//!
//! The identity check and the plugin records, metadata and keys handed to
//! each builder are decided by verified code; the real instruction's account
//! order and capability tags are fixed by the external builders themselves.
//! Each builder's result is a function of its arguments alone, so it carries
//! a name, and every contract pins which translated values reach it.

use vstd::prelude::*;

use crate::ids::AccountId;
use crate::ids::core_program_id_seq;
use crate::model::CreateCollection;
use crate::model::DispatchError;
use crate::model::MintNft;
use crate::model::PluginAuthorityKind;
use crate::model::PluginEntry;
use crate::model::PluginEntryView;
use crate::model::PluginSpec;
use crate::model::RuleSetKind;
use crate::model::TransferNft;
use crate::model::UpdateNft;
use crate::model::opt_text_view;
use crate::dispatch::check_core_program;
use crate::translate::asset_plugins;
use crate::translate::asset_plugins_view;
use crate::translate::collection_plugins;
use crate::translate::collection_plugins_view;
use crate::translate::plugin_entry_ids_wf;

verus! {

#[verifier::external_type_specification]
#[verifier::external_body]
pub struct ExInstruction(solana_program::instruction::Instruction);

#[verifier::external_type_specification]
#[verifier::external_body]
pub struct ExPubkey(solana_program::pubkey::Pubkey);

#[verifier::external_type_specification]
#[verifier::external_body]
pub struct ExPluginAuthorityPair(mpl_core::types::PluginAuthorityPair);

#[verifier::external_type_specification]
#[verifier::external_body]
pub struct ExPluginAuthority(mpl_core::types::PluginAuthority);

#[verifier::external_type_specification]
#[verifier::external_body]
pub struct ExRuleSet(mpl_core::types::RuleSet);

/// The most characters a metadata text may hold. The wire format prefixes
/// each serialized string with a 32-bit byte length and the builders do not
/// tolerate overflow; a character takes at most four bytes, so texts up to
/// this length always fit.
pub const MAX_TEXT_LEN: usize = 0x3FFF_FFFF;

/// What the external create-collection builder assembles: one fixed
/// instruction for each combination of keys, metadata and plugins.
pub uninterp spec fn create_collection_ix_of(
    collection: Seq<u8>,
    authority: Seq<u8>,
    payer: Seq<u8>,
    system_program: Seq<u8>,
    name: Seq<char>,
    uri: Seq<char>,
    plugins: Seq<PluginEntryView>,
) -> solana_program::instruction::Instruction;

/// What the external create-asset builder assembles: one fixed instruction
/// for each combination of keys, metadata and optional plugin list.
pub uninterp spec fn create_asset_ix_of(
    asset: Seq<u8>,
    collection: Seq<u8>,
    authority: Seq<u8>,
    owner: Seq<u8>,
    payer: Seq<u8>,
    system_program: Seq<u8>,
    name: Seq<char>,
    uri: Seq<char>,
    plugins: Option<Seq<PluginEntryView>>,
) -> solana_program::instruction::Instruction;

/// What the external update builder assembles: one fixed instruction for
/// each combination of keys and optional mutation fields.
pub uninterp spec fn update_ix_of(
    asset: Seq<u8>,
    collection: Seq<u8>,
    authority: Seq<u8>,
    payer: Seq<u8>,
    new_name: Option<Seq<char>>,
    new_uri: Option<Seq<char>>,
) -> solana_program::instruction::Instruction;

/// What the external transfer builder assembles: one fixed instruction for
/// each combination of keys.
pub uninterp spec fn transfer_ix_of(
    asset: Seq<u8>,
    collection: Seq<u8>,
    authority: Seq<u8>,
    new_owner: Seq<u8>,
    payer: Seq<u8>,
) -> solana_program::instruction::Instruction;

/// Relies on solana_program::pubkey::Pubkey::new_from_array: rebuilds the
/// same key from its 32 bytes.
#[verifier::external_body]
fn to_pubkey(id: &AccountId) -> solana_program::pubkey::Pubkey
    requires
        id.wf(),
{
    let mut arr = [0u8; 32];
    arr.copy_from_slice(&id.bytes);
    solana_program::pubkey::Pubkey::new_from_array(arr)
}

/// Relies on mpl_core::types::PluginAuthority: carries the authority kind
/// over variant for variant.
#[verifier::external_body]
fn to_core_authority(a: &PluginAuthorityKind) -> mpl_core::types::PluginAuthority
    requires
        a matches PluginAuthorityKind::Address(id) ==> id.wf(),
{
    match a {
        PluginAuthorityKind::Owner => mpl_core::types::PluginAuthority::Owner,
        PluginAuthorityKind::UpdateAuthority => mpl_core::types::PluginAuthority::UpdateAuthority,
        PluginAuthorityKind::Address(id) => mpl_core::types::PluginAuthority::Address {
            address: to_pubkey(id),
        },
    }
}

/// Relies on mpl_core::types::RuleSet: carries the rule set over variant for
/// variant, each listed program as its key.
#[verifier::external_body]
fn to_core_rule_set(rs: &RuleSetKind) -> mpl_core::types::RuleSet
    requires
        rs matches RuleSetKind::AllowList(v) ==> forall|i: int|
            0 <= i < v@.len() ==> (#[trigger] v@[i]).wf(),
        rs matches RuleSetKind::DenyList(v) ==> forall|i: int|
            0 <= i < v@.len() ==> (#[trigger] v@[i]).wf(),
{
    match rs {
        RuleSetKind::Unrestricted => mpl_core::types::RuleSet::None,
        RuleSetKind::AllowList(v) => mpl_core::types::RuleSet::ProgramAllowList(
            v.iter().map(to_pubkey).collect(),
        ),
        RuleSetKind::DenyList(v) => mpl_core::types::RuleSet::ProgramDenyList(
            v.iter().map(to_pubkey).collect(),
        ),
    }
}

/// Relies on mpl_core's plugin types: carries one plugin entry over field for
/// field — royalty configuration or freeze state, and its authority.
#[verifier::external_body]
fn to_core_plugin(entry: &PluginEntry) -> mpl_core::types::PluginAuthorityPair
    requires
        plugin_entry_ids_wf(*entry),
{
    let plugin = match &entry.plugin {
        PluginSpec::Royalties(rc) => mpl_core::types::Plugin::Royalties(mpl_core::types::Royalties {
            basis_points: rc.basis_points,
            creators: rc.creators.iter().map(
                |c| mpl_core::types::Creator { address: to_pubkey(&c.address), percentage: c.percentage },
            ).collect(),
            rule_set: to_core_rule_set(&rc.rule_set),
        }),
        PluginSpec::FreezeDelegate { frozen } => mpl_core::types::Plugin::FreezeDelegate(
            mpl_core::types::FreezeDelegate { frozen: *frozen },
        ),
    };
    mpl_core::types::PluginAuthorityPair { plugin, authority: entry.authority.as_ref().map(to_core_authority) }
}

/// Relies on mpl_core's CreateCollectionV1Builder: assembles the
/// create-collection instruction addressed to the external asset program,
/// with the given accounts, metadata and plugins. The result depends on the
/// arguments alone, so it is the named instruction.
#[verifier::external_body]
fn build_create_collection(
    collection: &AccountId,
    authority: &AccountId,
    payer: &AccountId,
    system_program: &AccountId,
    name: String,
    uri: String,
    plugins: &Vec<PluginEntry>,
) -> (r: solana_program::instruction::Instruction)
    requires
        collection.wf(),
        authority.wf(),
        payer.wf(),
        system_program.wf(),
        name@.len() <= MAX_TEXT_LEN,
        uri@.len() <= MAX_TEXT_LEN,
        forall|i: int| 0 <= i < plugins@.len() ==> plugin_entry_ids_wf(#[trigger] plugins@[i]),
    ensures
        r == create_collection_ix_of(
            collection@,
            authority@,
            payer@,
            system_program@,
            name@,
            uri@,
            plugins@.map_values(|p: PluginEntry| p@),
        ),
{
    mpl_core::instructions::CreateCollectionV1Builder::new()
        .collection(to_pubkey(collection))
        .update_authority(Some(to_pubkey(authority)))
        .payer(to_pubkey(payer))
        .system_program(to_pubkey(system_program))
        .name(name)
        .uri(uri)
        .plugins(plugins.iter().map(to_core_plugin).collect())
        .instruction()
}

/// Relies on mpl_core's CreateV1Builder: assembles the create-asset
/// instruction with the given accounts and metadata; a plugin list is set
/// only when one is handed in, and the storage mode stays the builder's
/// documented default, account state. The result depends on the arguments
/// alone, so it is the named instruction.
#[verifier::external_body]
fn build_create_asset(
    asset: &AccountId,
    collection: &AccountId,
    authority: &AccountId,
    owner: &AccountId,
    payer: &AccountId,
    system_program: &AccountId,
    name: String,
    uri: String,
    plugins: Option<&Vec<PluginEntry>>,
) -> (r: solana_program::instruction::Instruction)
    requires
        asset.wf(),
        collection.wf(),
        authority.wf(),
        owner.wf(),
        payer.wf(),
        system_program.wf(),
        name@.len() <= MAX_TEXT_LEN,
        uri@.len() <= MAX_TEXT_LEN,
        plugins matches Some(ps) ==> forall|i: int|
            0 <= i < ps@.len() ==> plugin_entry_ids_wf(#[trigger] ps@[i]),
    ensures
        r == create_asset_ix_of(
            asset@,
            collection@,
            authority@,
            owner@,
            payer@,
            system_program@,
            name@,
            uri@,
            match plugins {
                Some(ps) => Some(ps@.map_values(|p: PluginEntry| p@)),
                None => None,
            },
        ),
{
    let mut builder = mpl_core::instructions::CreateV1Builder::new();
    builder.asset(to_pubkey(asset))
        .collection(Some(to_pubkey(collection)))
        .authority(Some(to_pubkey(authority)))
        .payer(to_pubkey(payer))
        .owner(Some(to_pubkey(owner)))
        .system_program(to_pubkey(system_program))
        .name(name)
        .uri(uri);
    if let Some(ps) = plugins {
        builder.plugins(ps.iter().map(to_core_plugin).collect());
    }
    builder.instruction()
}

/// Relies on mpl_core's UpdateV1Builder: assembles the update instruction
/// with the given accounts; a mutation field is set only when it is present,
/// and the update-authority argument stays absent. The result depends on the
/// arguments alone, so it is the named instruction.
#[verifier::external_body]
fn build_update(
    asset: &AccountId,
    collection: &AccountId,
    authority: &AccountId,
    payer: &AccountId,
    new_name: Option<String>,
    new_uri: Option<String>,
) -> (r: solana_program::instruction::Instruction)
    requires
        asset.wf(),
        collection.wf(),
        authority.wf(),
        payer.wf(),
        new_name matches Some(s) ==> s@.len() <= MAX_TEXT_LEN,
        new_uri matches Some(s) ==> s@.len() <= MAX_TEXT_LEN,
    ensures
        r == update_ix_of(
            asset@,
            collection@,
            authority@,
            payer@,
            opt_text_view(new_name),
            opt_text_view(new_uri),
        ),
{
    let mut builder = mpl_core::instructions::UpdateV1Builder::new();
    builder.asset(to_pubkey(asset))
        .collection(Some(to_pubkey(collection)))
        .payer(to_pubkey(payer))
        .authority(Some(to_pubkey(authority)));
    if let Some(name) = new_name {
        builder.new_name(name);
    }
    if let Some(uri) = new_uri {
        builder.new_uri(uri);
    }
    builder.instruction()
}

/// Relies on mpl_core's TransferV1Builder: assembles the transfer
/// instruction with the given accounts and the new owner; the compression
/// argument stays absent. The result depends on the arguments alone, so it
/// is the named instruction.
#[verifier::external_body]
fn build_transfer(
    asset: &AccountId,
    collection: &AccountId,
    authority: &AccountId,
    new_owner: &AccountId,
    payer: &AccountId,
) -> (r: solana_program::instruction::Instruction)
    requires
        asset.wf(),
        collection.wf(),
        authority.wf(),
        new_owner.wf(),
        payer.wf(),
    ensures
        r == transfer_ix_of(asset@, collection@, authority@, new_owner@, payer@),
{
    mpl_core::instructions::TransferV1Builder::new()
        .asset(to_pubkey(asset))
        .collection(Some(to_pubkey(collection)))
        .payer(to_pubkey(payer))
        .authority(Some(to_pubkey(authority)))
        .new_owner(to_pubkey(new_owner))
        .instruction()
}

/// Builds the real create-collection instruction, or rejects the call before
/// anything is built when the external-program identity does not match.
pub fn create_collection_instruction(
    accounts: &CreateCollection,
    name: String,
    uri: String,
    royalty_percentage: u8,
) -> (r: Result<solana_program::instruction::Instruction, DispatchError>)
    requires
        accounts.wf(),
        name@.len() <= MAX_TEXT_LEN,
        uri@.len() <= MAX_TEXT_LEN,
    ensures
        r is Ok <==> accounts.mpl_core_program@ == core_program_id_seq(),
        r matches Err(e) ==> e == DispatchError::ProgramIdentityMismatch,
        r matches Ok(ix) ==> ix == create_collection_ix_of(
            accounts.collection@,
            accounts.authority@,
            accounts.payer@,
            accounts.system_program@,
            name@,
            uri@,
            collection_plugins_view(accounts.authority@, royalty_percentage),
        ),
{
    match check_core_program(&accounts.mpl_core_program) {
        Err(e) => {
            return Err(e);
        },
        Ok(()) => {},
    }
    let plugins = collection_plugins(&accounts.authority, royalty_percentage);
    Ok(
        build_create_collection(
            &accounts.collection,
            &accounts.authority,
            &accounts.payer,
            &accounts.system_program,
            name,
            uri,
            &plugins,
        ),
    )
}

/// Builds the real create-asset instruction — with a plugin list only when
/// the freeze flag asks for one — or rejects the call before anything is
/// built when the external-program identity does not match.
pub fn mint_nft_instruction(
    accounts: &MintNft,
    name: String,
    uri: String,
    add_freeze_plugin: bool,
) -> (r: Result<solana_program::instruction::Instruction, DispatchError>)
    requires
        accounts.wf(),
        name@.len() <= MAX_TEXT_LEN,
        uri@.len() <= MAX_TEXT_LEN,
    ensures
        r is Ok <==> accounts.mpl_core_program@ == core_program_id_seq(),
        r matches Err(e) ==> e == DispatchError::ProgramIdentityMismatch,
        r matches Ok(ix) ==> ix == create_asset_ix_of(
            accounts.asset@,
            accounts.collection@,
            accounts.authority@,
            accounts.owner@,
            accounts.payer@,
            accounts.system_program@,
            name@,
            uri@,
            if add_freeze_plugin {
                Some(asset_plugins_view(true))
            } else {
                None
            },
        ),
{
    match check_core_program(&accounts.mpl_core_program) {
        Err(e) => {
            return Err(e);
        },
        Ok(()) => {},
    }
    let plugins = asset_plugins(add_freeze_plugin);
    let plugin_arg = if plugins.len() > 0 {
        Some(&plugins)
    } else {
        None
    };
    Ok(
        build_create_asset(
            &accounts.asset,
            &accounts.collection,
            &accounts.authority,
            &accounts.owner,
            &accounts.payer,
            &accounts.system_program,
            name,
            uri,
            plugin_arg,
        ),
    )
}

/// Builds the real update instruction, carrying only the fields present in
/// the request, or rejects the call before anything is built when the
/// external-program identity does not match.
pub fn update_nft_instruction(
    accounts: &UpdateNft,
    name: Option<String>,
    uri: Option<String>,
) -> (r: Result<solana_program::instruction::Instruction, DispatchError>)
    requires
        accounts.wf(),
        name matches Some(s) ==> s@.len() <= MAX_TEXT_LEN,
        uri matches Some(s) ==> s@.len() <= MAX_TEXT_LEN,
    ensures
        r is Ok <==> accounts.mpl_core_program@ == core_program_id_seq(),
        r matches Err(e) ==> e == DispatchError::ProgramIdentityMismatch,
        r matches Ok(ix) ==> ix == update_ix_of(
            accounts.asset@,
            accounts.collection@,
            accounts.authority@,
            accounts.payer@,
            opt_text_view(name),
            opt_text_view(uri),
        ),
{
    match check_core_program(&accounts.mpl_core_program) {
        Err(e) => {
            return Err(e);
        },
        Ok(()) => {},
    }
    Ok(
        build_update(
            &accounts.asset,
            &accounts.collection,
            &accounts.authority,
            &accounts.payer,
            name,
            uri,
        ),
    )
}

/// Builds the real transfer instruction, or rejects the call before anything
/// is built when the external-program identity does not match.
pub fn transfer_nft_instruction(accounts: &TransferNft) -> (r: Result<
    solana_program::instruction::Instruction,
    DispatchError,
>)
    requires
        accounts.wf(),
    ensures
        r is Ok <==> accounts.mpl_core_program@ == core_program_id_seq(),
        r matches Err(e) ==> e == DispatchError::ProgramIdentityMismatch,
        r matches Ok(ix) ==> ix == transfer_ix_of(
            accounts.asset@,
            accounts.collection@,
            accounts.authority@,
            accounts.new_owner@,
            accounts.payer@,
        ),
{
    match check_core_program(&accounts.mpl_core_program) {
        Err(e) => {
            return Err(e);
        },
        Ok(()) => {},
    }
    Ok(
        build_transfer(
            &accounts.asset,
            &accounts.collection,
            &accounts.authority,
            &accounts.new_owner,
            &accounts.payer,
        ),
    )
}

} // verus!

//! The entry router and invocation builder: each of the four operations
//! checks the external-program identity, translates its parameters, and
//! assembles the one outbound invocation, fully determined by its inputs.
//!
//! The identity check comes before any other work: a call whose
//! external-program account is not the fixed known identity is rejected and
//! no invocation record is built.
//!
//! The invocation spec functions record each operation's accounts in the
//! interface's order, with their capability tags; the wire-level meta order
//! of the instruction the external builders emit is the external program's
//! own layout and may differ.

use vstd::prelude::*;

use crate::ids::AccountId;
use crate::ids::core_program_id;
use crate::ids::core_program_id_seq;
use crate::model::AccountRef;
use crate::model::AccountRefView;
use crate::model::CreateCollection;
use crate::model::DispatchError;
use crate::model::Invocation;
use crate::model::InvocationView;
use crate::model::MintNft;
use crate::model::Payload;
use crate::model::PayloadView;
use crate::model::TransferNft;
use crate::model::UpdateNft;
use crate::model::invocation_wf;
use crate::model::opt_text_view;
use crate::translate::asset_plugins;
use crate::translate::asset_plugins_view;
use crate::translate::collection_plugins;
use crate::translate::collection_plugins_view;

verus! {

/// The invocation a create-collection call translates to: the collection,
/// authority, payer and system facility in order, the caller's metadata, and
/// the single royalty plugin derived from the percentage.
pub open spec fn create_collection_invocation(
    accounts: CreateCollection,
    name: Seq<char>,
    uri: Seq<char>,
    royalty_percentage: u8,
) -> InvocationView {
    InvocationView {
        program: accounts.mpl_core_program@,
        accounts: seq![
            AccountRefView { id: accounts.collection@, is_signer: true, is_writable: true },
            AccountRefView { id: accounts.authority@, is_signer: true, is_writable: false },
            AccountRefView { id: accounts.payer@, is_signer: true, is_writable: true },
            AccountRefView { id: accounts.system_program@, is_signer: false, is_writable: false },
        ],
        payload: PayloadView::CreateCollection {
            name,
            uri,
            plugins: collection_plugins_view(accounts.authority@, royalty_percentage),
        },
    }
}

/// The invocation a mint call translates to: asset, collection, authority,
/// owner, payer and system facility in order, the caller's metadata, and a
/// freeze plugin exactly when the flag asks for one.
pub open spec fn mint_nft_invocation(
    accounts: MintNft,
    name: Seq<char>,
    uri: Seq<char>,
    add_freeze_plugin: bool,
) -> InvocationView {
    InvocationView {
        program: accounts.mpl_core_program@,
        accounts: seq![
            AccountRefView { id: accounts.asset@, is_signer: true, is_writable: true },
            AccountRefView { id: accounts.collection@, is_signer: false, is_writable: false },
            AccountRefView { id: accounts.authority@, is_signer: true, is_writable: false },
            AccountRefView { id: accounts.owner@, is_signer: false, is_writable: false },
            AccountRefView { id: accounts.payer@, is_signer: true, is_writable: true },
            AccountRefView { id: accounts.system_program@, is_signer: false, is_writable: false },
        ],
        payload: PayloadView::CreateAsset {
            name,
            uri,
            plugins: asset_plugins_view(add_freeze_plugin),
        },
    }
}

/// The invocation an update call translates to: asset, collection, authority
/// and payer in order, and only the fields present in the request as the
/// mutation list — absent fields are left untouched by the external program.
pub open spec fn update_nft_invocation(
    accounts: UpdateNft,
    new_name: Option<Seq<char>>,
    new_uri: Option<Seq<char>>,
) -> InvocationView {
    InvocationView {
        program: accounts.mpl_core_program@,
        accounts: seq![
            AccountRefView { id: accounts.asset@, is_signer: false, is_writable: true },
            AccountRefView { id: accounts.collection@, is_signer: false, is_writable: false },
            AccountRefView { id: accounts.authority@, is_signer: true, is_writable: false },
            AccountRefView { id: accounts.payer@, is_signer: true, is_writable: true },
        ],
        payload: PayloadView::Update { new_name, new_uri },
    }
}

/// The invocation a transfer call translates to: asset, collection, current
/// authority, new owner and payer in order, and no payload — the new owner is
/// identified by its position, not by a field.
pub open spec fn transfer_nft_invocation(accounts: TransferNft) -> InvocationView {
    InvocationView {
        program: accounts.mpl_core_program@,
        accounts: seq![
            AccountRefView { id: accounts.asset@, is_signer: false, is_writable: true },
            AccountRefView { id: accounts.collection@, is_signer: false, is_writable: false },
            AccountRefView { id: accounts.authority@, is_signer: true, is_writable: false },
            AccountRefView { id: accounts.new_owner@, is_signer: false, is_writable: false },
            AccountRefView { id: accounts.payer@, is_signer: true, is_writable: true },
        ],
        payload: PayloadView::Transfer,
    }
}

/// Checks that the external-program identity account equals the fixed known
/// identity. Every operation runs this before any translation.
pub fn check_core_program(program: &AccountId) -> (r: Result<(), DispatchError>)
    ensures
        r is Ok <==> program@ == core_program_id_seq(),
        r matches Err(e) ==> e == DispatchError::ProgramIdentityMismatch,
{
    let known = core_program_id();
    if program.eq_id(&known) {
        Ok(())
    } else {
        Err(DispatchError::ProgramIdentityMismatch)
    }
}

/// Translates a create-collection call. Returns the one invocation to
/// execute, or rejects the call before translation when the external-program
/// identity does not match.
pub fn create_collection(
    accounts: &CreateCollection,
    name: String,
    uri: String,
    royalty_percentage: u8,
) -> (r: Result<Invocation, DispatchError>)
    ensures
        r is Ok <==> accounts.mpl_core_program@ == core_program_id_seq(),
        r matches Err(e) ==> e == DispatchError::ProgramIdentityMismatch,
        r matches Ok(inv) ==> inv@ == create_collection_invocation(
            *accounts,
            name@,
            uri@,
            royalty_percentage,
        ),
        r matches Ok(inv) ==> (accounts.wf() ==> invocation_wf(inv@)),
{
    match check_core_program(&accounts.mpl_core_program) {
        Err(e) => {
            return Err(e);
        },
        Ok(()) => {},
    }
    let plugins = collection_plugins(&accounts.authority, royalty_percentage);
    let mut refs: Vec<AccountRef> = Vec::new();
    refs.push(AccountRef { id: accounts.collection.dup(), is_signer: true, is_writable: true });
    refs.push(AccountRef { id: accounts.authority.dup(), is_signer: true, is_writable: false });
    refs.push(AccountRef { id: accounts.payer.dup(), is_signer: true, is_writable: true });
    refs.push(
        AccountRef { id: accounts.system_program.dup(), is_signer: false, is_writable: false },
    );
    let inv = Invocation {
        program: accounts.mpl_core_program.dup(),
        accounts: refs,
        payload: Payload::CreateCollection { name, uri, plugins },
    };
    proof {
        assert(inv@ =~~= create_collection_invocation(*accounts, name@, uri@, royalty_percentage));
    }
    Ok(inv)
}

/// Translates a mint call. Returns the one invocation to execute, or rejects
/// the call before translation when the external-program identity does not
/// match.
pub fn mint_nft(
    accounts: &MintNft,
    name: String,
    uri: String,
    add_freeze_plugin: bool,
) -> (r: Result<Invocation, DispatchError>)
    ensures
        r is Ok <==> accounts.mpl_core_program@ == core_program_id_seq(),
        r matches Err(e) ==> e == DispatchError::ProgramIdentityMismatch,
        r matches Ok(inv) ==> inv@ == mint_nft_invocation(
            *accounts,
            name@,
            uri@,
            add_freeze_plugin,
        ),
        r matches Ok(inv) ==> (accounts.wf() ==> invocation_wf(inv@)),
{
    match check_core_program(&accounts.mpl_core_program) {
        Err(e) => {
            return Err(e);
        },
        Ok(()) => {},
    }
    let plugins = asset_plugins(add_freeze_plugin);
    let mut refs: Vec<AccountRef> = Vec::new();
    refs.push(AccountRef { id: accounts.asset.dup(), is_signer: true, is_writable: true });
    refs.push(AccountRef { id: accounts.collection.dup(), is_signer: false, is_writable: false });
    refs.push(AccountRef { id: accounts.authority.dup(), is_signer: true, is_writable: false });
    refs.push(AccountRef { id: accounts.owner.dup(), is_signer: false, is_writable: false });
    refs.push(AccountRef { id: accounts.payer.dup(), is_signer: true, is_writable: true });
    refs.push(
        AccountRef { id: accounts.system_program.dup(), is_signer: false, is_writable: false },
    );
    let inv = Invocation {
        program: accounts.mpl_core_program.dup(),
        accounts: refs,
        payload: Payload::CreateAsset { name, uri, plugins },
    };
    proof {
        assert(inv@ =~~= mint_nft_invocation(*accounts, name@, uri@, add_freeze_plugin));
    }
    Ok(inv)
}

/// Translates a metadata-update call. Only fields present in the request
/// enter the mutation list; with both absent the translation is a no-op that
/// still issues a well-formed call.
pub fn update_nft(
    accounts: &UpdateNft,
    name: Option<String>,
    uri: Option<String>,
) -> (r: Result<Invocation, DispatchError>)
    ensures
        r is Ok <==> accounts.mpl_core_program@ == core_program_id_seq(),
        r matches Err(e) ==> e == DispatchError::ProgramIdentityMismatch,
        r matches Ok(inv) ==> inv@ == update_nft_invocation(
            *accounts,
            opt_text_view(name),
            opt_text_view(uri),
        ),
        r matches Ok(inv) ==> (accounts.wf() ==> invocation_wf(inv@)),
{
    match check_core_program(&accounts.mpl_core_program) {
        Err(e) => {
            return Err(e);
        },
        Ok(()) => {},
    }
    let mut refs: Vec<AccountRef> = Vec::new();
    refs.push(AccountRef { id: accounts.asset.dup(), is_signer: false, is_writable: true });
    refs.push(AccountRef { id: accounts.collection.dup(), is_signer: false, is_writable: false });
    refs.push(AccountRef { id: accounts.authority.dup(), is_signer: true, is_writable: false });
    refs.push(AccountRef { id: accounts.payer.dup(), is_signer: true, is_writable: true });
    let inv = Invocation {
        program: accounts.mpl_core_program.dup(),
        accounts: refs,
        payload: Payload::Update { new_name: name, new_uri: uri },
    };
    proof {
        assert(inv@ =~~= update_nft_invocation(*accounts, opt_text_view(name), opt_text_view(uri)));
    }
    Ok(inv)
}

/// Translates a transfer call. There is no payload to translate: the only
/// transformation is selecting which account plays the new-owner role.
pub fn transfer_nft(accounts: &TransferNft) -> (r: Result<Invocation, DispatchError>)
    ensures
        r is Ok <==> accounts.mpl_core_program@ == core_program_id_seq(),
        r matches Err(e) ==> e == DispatchError::ProgramIdentityMismatch,
        r matches Ok(inv) ==> inv@ == transfer_nft_invocation(*accounts),
        r matches Ok(inv) ==> (accounts.wf() ==> invocation_wf(inv@)),
{
    match check_core_program(&accounts.mpl_core_program) {
        Err(e) => {
            return Err(e);
        },
        Ok(()) => {},
    }
    let mut refs: Vec<AccountRef> = Vec::new();
    refs.push(AccountRef { id: accounts.asset.dup(), is_signer: false, is_writable: true });
    refs.push(AccountRef { id: accounts.collection.dup(), is_signer: false, is_writable: false });
    refs.push(AccountRef { id: accounts.authority.dup(), is_signer: true, is_writable: false });
    refs.push(AccountRef { id: accounts.new_owner.dup(), is_signer: false, is_writable: false });
    refs.push(AccountRef { id: accounts.payer.dup(), is_signer: true, is_writable: true });
    let inv = Invocation {
        program: accounts.mpl_core_program.dup(),
        accounts: refs,
        payload: Payload::Transfer,
    };
    proof {
        assert(inv@ =~~= transfer_nft_invocation(*accounts));
    }
    Ok(inv)
}

} // verus!

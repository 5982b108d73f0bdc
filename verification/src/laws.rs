//! Laws of the translation, stated over the same spec functions the dispatch
//! contracts use, so that what each operation promises can be read here in
//! one place and is proved for every input.

use vstd::prelude::*;

use crate::dispatch::mint_nft_invocation;
use crate::dispatch::update_nft_invocation;
use crate::ids::core_program_id_seq;
use crate::model::CreatorView;
use crate::model::MintNft;
use crate::model::PayloadView;
use crate::model::PluginAuthorityKindView;
use crate::model::PluginSpecView;
use crate::model::RuleSetKindView;
use crate::model::UpdateNft;
use crate::model::invocation_wf;
use crate::translate::basis_points_of;
use crate::translate::freeze_plugin_view;
use crate::translate::royalty_plugin_view;

verus! {

/// Royalty translation law: for every percentage, the royalty plugin carries
/// exactly one hundred basis points per percent, and its creator list holds
/// exactly one entry — the authority with a 100% share — under an open rule
/// set, controlled by the owner.
pub proof fn lemma_royalty_translation(authority: Seq<u8>, percentage: u8)
    ensures
        ({
            let entry = royalty_plugin_view(authority, percentage);
            &&& entry.plugin matches PluginSpecView::Royalties(rc)
            &&& entry.plugin->Royalties_0.basis_points == basis_points_of(percentage)
            &&& entry.plugin->Royalties_0.basis_points == 100 * (percentage as int)
            &&& entry.plugin->Royalties_0.creators =~= seq![
                (CreatorView { address: authority, percentage: 100u8 }),
            ]
            &&& entry.plugin->Royalties_0.rule_set is Unrestricted
            &&& entry.authority == Some(PluginAuthorityKindView::Owner)
        }),
{
}

/// Freeze translation law: minting with the freeze flag set attaches exactly
/// one freeze plugin, initialized to "not frozen" and owned by the owner
/// role; minting without it attaches no plugin at all.
pub proof fn lemma_freeze_translation(
    accounts: MintNft,
    name: Seq<char>,
    uri: Seq<char>,
    add_freeze_plugin: bool,
)
    ensures
        ({
            let inv = mint_nft_invocation(accounts, name, uri, add_freeze_plugin);
            &&& inv.payload matches PayloadView::CreateAsset { plugins, .. }
            &&& add_freeze_plugin ==> (inv.payload->CreateAsset_plugins =~= seq![
                freeze_plugin_view(),
            ])
            &&& add_freeze_plugin ==> (inv.payload->CreateAsset_plugins[0].plugin matches
                PluginSpecView::FreezeDelegate { frozen } && !frozen)
            &&& add_freeze_plugin ==> inv.payload->CreateAsset_plugins[0].authority == Some(
                PluginAuthorityKindView::Owner,
            )
            &&& !add_freeze_plugin ==> inv.payload->CreateAsset_plugins.len() == 0
        }),
{
}

/// Update no-op law: with both fields absent the translation still issues a
/// call with no mutation fields set, and — on a well-formed account set
/// addressed to the known external program — that call is well-formed.
pub proof fn lemma_update_absent_is_noop(accounts: UpdateNft)
    ensures
        ({
            let inv = update_nft_invocation(accounts, Option::None, Option::None);
            &&& inv.payload matches PayloadView::Update { new_name, new_uri }
            &&& inv.payload->Update_new_name is None
            &&& inv.payload->Update_new_uri is None
            &&& accounts.wf() && accounts.mpl_core_program@
                == core_program_id_seq() ==> invocation_wf(inv)
        }),
{
}

/// Update independence law: a request naming only one field leaves the other
/// out of the mutation list, so the external program leaves it unchanged.
pub proof fn lemma_update_fields_independent(
    accounts: UpdateNft,
    name: Seq<char>,
    uri: Seq<char>,
)
    ensures
        update_nft_invocation(accounts, Some(name), Option::None).payload->Update_new_uri
            is None,
        update_nft_invocation(accounts, Some(name), Option::None).payload->Update_new_name
            == Some(name),
        update_nft_invocation(accounts, Option::None, Some(uri)).payload->Update_new_name
            is None,
        update_nft_invocation(accounts, Option::None, Some(uri)).payload->Update_new_uri
            == Some(uri),
{
}

} // verus!

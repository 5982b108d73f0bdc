//! The parameter translator: caller-supplied primitives become the external
//! program's argument structures.
//!
//! A royalty percentage becomes basis points with a single-creator share held
//! by the authority; the freeze-on-mint flag becomes an optional freeze plugin
//! initialized to "not frozen"; optional update fields pass through untouched.

use vstd::prelude::*;

use crate::ids::AccountId;
use crate::model::Creator;
use crate::model::CreatorView;
use crate::model::PluginAuthorityKind;
use crate::model::PluginAuthorityKindView;
use crate::model::PluginEntry;
use crate::model::PluginEntryView;
use crate::model::PluginSpec;
use crate::model::PluginSpecView;
use crate::model::RoyaltyConfig;
use crate::model::RoyaltyConfigView;
use crate::model::RuleSetKind;
use crate::model::RuleSetKindView;

verus! {

/// What a royalty percentage translates to: exactly one hundred basis points
/// per percent.
pub open spec fn basis_points_of(percentage: u8) -> int {
    100 * (percentage as int)
}

/// The royalty plugin a collection is created with: `100 · percentage` basis
/// points, a single creator — the authority — holding a 100% share, an open
/// rule set, and the owner as the plugin's authority.
pub open spec fn royalty_plugin_view(authority: Seq<u8>, percentage: u8) -> PluginEntryView {
    PluginEntryView {
        plugin: PluginSpecView::Royalties(
            RoyaltyConfigView {
                basis_points: basis_points_of(percentage) as u16,
                creators: seq![CreatorView { address: authority, percentage: 100u8 }],
                rule_set: RuleSetKindView::Unrestricted,
            },
        ),
        authority: Some(PluginAuthorityKindView::Owner),
    }
}

/// The freeze plugin an asset is minted with when the freeze flag is set:
/// initialized to "not frozen", under the owner's authority.
pub open spec fn freeze_plugin_view() -> PluginEntryView {
    PluginEntryView {
        plugin: PluginSpecView::FreezeDelegate { frozen: false },
        authority: Some(PluginAuthorityKindView::Owner),
    }
}

/// The plugin list of a new collection: exactly the royalty plugin.
pub open spec fn collection_plugins_view(authority: Seq<u8>, percentage: u8) -> Seq<
    PluginEntryView,
> {
    seq![royalty_plugin_view(authority, percentage)]
}

/// The plugin list of a new asset: the freeze plugin when the flag is set,
/// otherwise nothing — the asset then has no freeze capability at all.
pub open spec fn asset_plugins_view(add_freeze_plugin: bool) -> Seq<PluginEntryView> {
    if add_freeze_plugin {
        seq![freeze_plugin_view()]
    } else {
        Seq::empty()
    }
}

/// Every identity a plugin entry names is a well-formed 32-byte key.
pub open spec fn plugin_entry_ids_wf(entry: PluginEntry) -> bool {
    &&& match entry.plugin {
        PluginSpec::Royalties(rc) => {
            &&& forall|i: int|
                0 <= i < rc.creators@.len() ==> (#[trigger] rc.creators@[i]).address.wf()
            &&& match rc.rule_set {
                RuleSetKind::Unrestricted => true,
                RuleSetKind::AllowList(v) => forall|i: int|
                    0 <= i < v@.len() ==> (#[trigger] v@[i]).wf(),
                RuleSetKind::DenyList(v) => forall|i: int|
                    0 <= i < v@.len() ==> (#[trigger] v@[i]).wf(),
            }
        },
        PluginSpec::FreezeDelegate { .. } => true,
    }
    &&& match entry.authority {
        Some(PluginAuthorityKind::Address(a)) => a.wf(),
        _ => true,
    }
}

/// Converts a royalty percentage to basis points: one hundred per percent.
/// The widest percentage still fits the basis-point field, so the
/// multiplication cannot overflow.
pub fn royalty_basis_points(percentage: u8) -> (r: u16)
    ensures
        r as int == basis_points_of(percentage),
{
    (percentage as u16) * 100
}

/// Builds the royalty plugin of a new collection for the given authority.
pub fn royalty_plugin(authority: &AccountId, percentage: u8) -> (r: PluginEntry)
    ensures
        r@ == royalty_plugin_view(authority@, percentage),
        authority.wf() ==> plugin_entry_ids_wf(r),
{
    let basis_points = royalty_basis_points(percentage);
    let creator = Creator { address: authority.dup(), percentage: 100 };
    let mut creators: Vec<Creator> = Vec::new();
    creators.push(creator);
    let entry = PluginEntry {
        plugin: PluginSpec::Royalties(
            RoyaltyConfig { basis_points, creators, rule_set: RuleSetKind::Unrestricted },
        ),
        authority: Some(PluginAuthorityKind::Owner),
    };
    proof {
        assert(entry@ =~~= royalty_plugin_view(authority@, percentage));
    }
    entry
}

/// Builds the plugin list of a new collection: exactly the royalty plugin.
pub fn collection_plugins(authority: &AccountId, percentage: u8) -> (r: Vec<PluginEntry>)
    ensures
        r@.map_values(|p: PluginEntry| p@) =~= collection_plugins_view(authority@, percentage),
        authority.wf() ==> forall|i: int|
            0 <= i < r@.len() ==> plugin_entry_ids_wf(#[trigger] r@[i]),
{
    let mut plugins: Vec<PluginEntry> = Vec::new();
    plugins.push(royalty_plugin(authority, percentage));
    plugins
}

/// Builds the plugin list of a new asset from the freeze-on-mint flag.
pub fn asset_plugins(add_freeze_plugin: bool) -> (r: Vec<PluginEntry>)
    ensures
        r@.map_values(|p: PluginEntry| p@) =~= asset_plugins_view(add_freeze_plugin),
        forall|i: int| 0 <= i < r@.len() ==> plugin_entry_ids_wf(#[trigger] r@[i]),
{
    let mut plugins: Vec<PluginEntry> = Vec::new();
    if add_freeze_plugin {
        plugins.push(
            PluginEntry {
                plugin: PluginSpec::FreezeDelegate { frozen: false },
                authority: Some(PluginAuthorityKind::Owner),
            },
        );
    }
    plugins
}

} // verus!

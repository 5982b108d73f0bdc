//! Transient argument records: the account sets of the four operations and
//! the translated invocation record handed to the caller for execution.
//!
//! Nothing here outlives a single call. Each executable type has a ghost view
//! over plain mathematical values (`Seq`, integers, `Option`), and the
//! contracts of the dispatch functions are stated over those views.

use vstd::prelude::*;

use crate::ids::AccountId;
use crate::ids::core_program_id_seq;

verus! {

/// The error raised by this layer itself. Everything else is the external
/// program's to decide and is surfaced by the caller unchanged.
#[derive(Clone, Copy, Debug, PartialEq, Eq, Structural)]
pub enum DispatchError {
    /// The external-program identity account does not equal the fixed known
    /// identity; the call is rejected before any translation is done.
    ProgramIdentityMismatch,
}

/// One creator entry of a royalty configuration.
#[derive(Debug)]
pub struct Creator {
    pub address: AccountId,
    pub percentage: u8,
}

#[verifier::ext_equal]
pub struct CreatorView {
    pub address: Seq<u8>,
    pub percentage: u8,
}

impl View for Creator {
    type V = CreatorView;

    open spec fn view(&self) -> CreatorView {
        CreatorView { address: self.address@, percentage: self.percentage }
    }
}

/// The transfer rule set of a royalty configuration.
#[derive(Debug)]
pub enum RuleSetKind {
    /// No enforced rule set: open transfers.
    Unrestricted,
    /// Transfers allowed only through the listed programs.
    AllowList(Vec<AccountId>),
    /// Transfers denied through the listed programs.
    DenyList(Vec<AccountId>),
}

#[verifier::ext_equal]
pub enum RuleSetKindView {
    Unrestricted,
    AllowList(Seq<Seq<u8>>),
    DenyList(Seq<Seq<u8>>),
}

impl View for RuleSetKind {
    type V = RuleSetKindView;

    open spec fn view(&self) -> RuleSetKindView {
        match self {
            RuleSetKind::Unrestricted => RuleSetKindView::Unrestricted,
            RuleSetKind::AllowList(v) => RuleSetKindView::AllowList(
                v@.map_values(|a: AccountId| a@),
            ),
            RuleSetKind::DenyList(v) => RuleSetKindView::DenyList(
                v@.map_values(|a: AccountId| a@),
            ),
        }
    }
}

/// A royalty configuration: basis points, creator shares and a rule set.
#[derive(Debug)]
pub struct RoyaltyConfig {
    pub basis_points: u16,
    pub creators: Vec<Creator>,
    pub rule_set: RuleSetKind,
}

#[verifier::ext_equal]
pub struct RoyaltyConfigView {
    pub basis_points: u16,
    pub creators: Seq<CreatorView>,
    pub rule_set: RuleSetKindView,
}

impl View for RoyaltyConfig {
    type V = RoyaltyConfigView;

    open spec fn view(&self) -> RoyaltyConfigView {
        RoyaltyConfigView {
            basis_points: self.basis_points,
            creators: self.creators@.map_values(|c: Creator| c@),
            rule_set: self.rule_set@,
        }
    }
}

/// A plugin record attachable to a collection or an asset.
#[derive(Debug)]
pub enum PluginSpec {
    /// Royalty enforcement with the given configuration.
    Royalties(RoyaltyConfig),
    /// Freeze control, initialized to the given frozen state.
    FreezeDelegate { frozen: bool },
}

#[verifier::ext_equal]
pub enum PluginSpecView {
    Royalties(RoyaltyConfigView),
    FreezeDelegate { frozen: bool },
}

impl View for PluginSpec {
    type V = PluginSpecView;

    open spec fn view(&self) -> PluginSpecView {
        match self {
            PluginSpec::Royalties(rc) => PluginSpecView::Royalties(rc@),
            PluginSpec::FreezeDelegate { frozen } => PluginSpecView::FreezeDelegate {
                frozen: *frozen,
            },
        }
    }
}

/// The authority that controls an attached plugin.
#[derive(Debug)]
pub enum PluginAuthorityKind {
    /// Whoever owns the asset at the time.
    Owner,
    /// The update authority of the asset or collection.
    UpdateAuthority,
    /// A fixed address.
    Address(AccountId),
}

#[verifier::ext_equal]
pub enum PluginAuthorityKindView {
    Owner,
    UpdateAuthority,
    Address(Seq<u8>),
}

impl View for PluginAuthorityKind {
    type V = PluginAuthorityKindView;

    open spec fn view(&self) -> PluginAuthorityKindView {
        match self {
            PluginAuthorityKind::Owner => PluginAuthorityKindView::Owner,
            PluginAuthorityKind::UpdateAuthority => PluginAuthorityKindView::UpdateAuthority,
            PluginAuthorityKind::Address(a) => PluginAuthorityKindView::Address(a@),
        }
    }
}

/// A plugin together with the authority it is attached under.
#[derive(Debug)]
pub struct PluginEntry {
    pub plugin: PluginSpec,
    pub authority: Option<PluginAuthorityKind>,
}

#[verifier::ext_equal]
pub struct PluginEntryView {
    pub plugin: PluginSpecView,
    pub authority: Option<PluginAuthorityKindView>,
}

impl View for PluginEntry {
    type V = PluginEntryView;

    open spec fn view(&self) -> PluginEntryView {
        PluginEntryView {
            plugin: self.plugin@,
            authority: match &self.authority {
                Some(a) => Some(a@),
                None => None,
            },
        }
    }
}

/// The translated arguments of one outbound invocation.
#[derive(Debug)]
pub enum Payload {
    /// Create a collection with the given metadata and plugins.
    CreateCollection { name: String, uri: String, plugins: Vec<PluginEntry> },
    /// Create an asset with the given metadata and plugins.
    CreateAsset { name: String, uri: String, plugins: Vec<PluginEntry> },
    /// Mutate only the fields that are present; absent fields stay untouched.
    Update { new_name: Option<String>, new_uri: Option<String> },
    /// No payload: the new owner is identified by its account role.
    Transfer,
}

#[verifier::ext_equal]
pub enum PayloadView {
    CreateCollection { name: Seq<char>, uri: Seq<char>, plugins: Seq<PluginEntryView> },
    CreateAsset { name: Seq<char>, uri: Seq<char>, plugins: Seq<PluginEntryView> },
    Update { new_name: Option<Seq<char>>, new_uri: Option<Seq<char>> },
    Transfer,
}

/// The view of an optional text field: present fields keep their characters.
pub open spec fn opt_text_view(o: Option<String>) -> Option<Seq<char>> {
    match o {
        Some(s) => Some(s@),
        None => None,
    }
}

impl View for Payload {
    type V = PayloadView;

    open spec fn view(&self) -> PayloadView {
        match self {
            Payload::CreateCollection { name, uri, plugins } => PayloadView::CreateCollection {
                name: name@,
                uri: uri@,
                plugins: plugins@.map_values(|p: PluginEntry| p@),
            },
            Payload::CreateAsset { name, uri, plugins } => PayloadView::CreateAsset {
                name: name@,
                uri: uri@,
                plugins: plugins@.map_values(|p: PluginEntry| p@),
            },
            Payload::Update { new_name, new_uri } => PayloadView::Update {
                new_name: opt_text_view(*new_name),
                new_uri: opt_text_view(*new_uri),
            },
            Payload::Transfer => PayloadView::Transfer,
        }
    }
}

/// One account reference of an invocation, with its capability tags.
#[derive(Debug)]
pub struct AccountRef {
    pub id: AccountId,
    /// The account must co-sign the enclosing transaction.
    pub is_signer: bool,
    /// The external program may mutate the account.
    pub is_writable: bool,
}

#[verifier::ext_equal]
pub struct AccountRefView {
    pub id: Seq<u8>,
    pub is_signer: bool,
    pub is_writable: bool,
}

impl View for AccountRef {
    type V = AccountRefView;

    open spec fn view(&self) -> AccountRefView {
        AccountRefView { id: self.id@, is_signer: self.is_signer, is_writable: self.is_writable }
    }
}

/// A single outbound call: the program it is addressed to, the ordered
/// account references, and the translated arguments. The account list
/// records the interface's account order and capability tags; the wire-level
/// meta order of the instruction a builder emits is the external program's
/// own layout and may differ.
#[derive(Debug)]
pub struct Invocation {
    pub program: AccountId,
    pub accounts: Vec<AccountRef>,
    pub payload: Payload,
}

#[verifier::ext_equal]
pub struct InvocationView {
    pub program: Seq<u8>,
    pub accounts: Seq<AccountRefView>,
    pub payload: PayloadView,
}

impl View for Invocation {
    type V = InvocationView;

    open spec fn view(&self) -> InvocationView {
        InvocationView {
            program: self.program@,
            accounts: self.accounts@.map_values(|a: AccountRef| a@),
            payload: self.payload@,
        }
    }
}

/// A well-formed invocation is addressed to the fixed external program and
/// names only well-formed 32-byte account identities.
pub open spec fn invocation_wf(inv: InvocationView) -> bool {
    &&& inv.program == core_program_id_seq()
    &&& forall|i: int| 0 <= i < inv.accounts.len() ==> (#[trigger] inv.accounts[i]).id.len() == 32
}

/// The account set of a create-collection call.
#[derive(Debug)]
pub struct CreateCollection {
    /// The collection account to be created; co-signs and is written.
    pub collection: AccountId,
    /// The authority who will manage the collection; co-signs.
    pub authority: AccountId,
    /// The payer for the transaction; co-signs and is written.
    pub payer: AccountId,
    /// The system facility used to create accounts.
    pub system_program: AccountId,
    /// The external asset program; must equal the fixed known identity.
    pub mpl_core_program: AccountId,
}

impl CreateCollection {
    pub open spec fn wf(self) -> bool {
        &&& self.collection.wf()
        &&& self.authority.wf()
        &&& self.payer.wf()
        &&& self.system_program.wf()
        &&& self.mpl_core_program.wf()
    }
}

/// The account set of a mint call.
#[derive(Debug)]
pub struct MintNft {
    /// The asset account to be created; co-signs and is written.
    pub asset: AccountId,
    /// The collection the asset belongs to.
    pub collection: AccountId,
    /// The authority who can mint; co-signs.
    pub authority: AccountId,
    /// The owner of the new asset.
    pub owner: AccountId,
    /// The payer for the transaction; co-signs and is written.
    pub payer: AccountId,
    /// The system facility used to create accounts.
    pub system_program: AccountId,
    /// The external asset program; must equal the fixed known identity.
    pub mpl_core_program: AccountId,
}

impl MintNft {
    pub open spec fn wf(self) -> bool {
        &&& self.asset.wf()
        &&& self.collection.wf()
        &&& self.authority.wf()
        &&& self.owner.wf()
        &&& self.payer.wf()
        &&& self.system_program.wf()
        &&& self.mpl_core_program.wf()
    }
}

/// The account set of a metadata-update call.
#[derive(Debug)]
pub struct UpdateNft {
    /// The asset to update; is written.
    pub asset: AccountId,
    /// The collection the asset belongs to.
    pub collection: AccountId,
    /// The authority who can update the asset; co-signs.
    pub authority: AccountId,
    /// The payer for the transaction; co-signs and is written.
    pub payer: AccountId,
    /// The external asset program; must equal the fixed known identity.
    pub mpl_core_program: AccountId,
}

impl UpdateNft {
    pub open spec fn wf(self) -> bool {
        &&& self.asset.wf()
        &&& self.collection.wf()
        &&& self.authority.wf()
        &&& self.payer.wf()
        &&& self.mpl_core_program.wf()
    }
}

/// The account set of a transfer call.
#[derive(Debug)]
pub struct TransferNft {
    /// The asset to transfer; is written.
    pub asset: AccountId,
    /// The collection the asset belongs to.
    pub collection: AccountId,
    /// The current authority; co-signs.
    pub authority: AccountId,
    /// The account that becomes the new owner.
    pub new_owner: AccountId,
    /// The payer for the transaction; co-signs and is written.
    pub payer: AccountId,
    /// The external asset program; must equal the fixed known identity.
    pub mpl_core_program: AccountId,
}

impl TransferNft {
    pub open spec fn wf(self) -> bool {
        &&& self.asset.wf()
        &&& self.collection.wf()
        &&& self.authority.wf()
        &&& self.new_owner.wf()
        &&& self.payer.wf()
        &&& self.mpl_core_program.wf()
    }
}

} // verus!

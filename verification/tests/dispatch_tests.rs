use metaplex_core_nft::dispatch::create_collection;
use metaplex_core_nft::dispatch::mint_nft;
use metaplex_core_nft::dispatch::transfer_nft;
use metaplex_core_nft::dispatch::update_nft;
use metaplex_core_nft::ids::core_program_id;
use metaplex_core_nft::ids::AccountId;
use metaplex_core_nft::model::CreateCollection;
use metaplex_core_nft::model::DispatchError;
use metaplex_core_nft::model::MintNft;
use metaplex_core_nft::model::Payload;
use metaplex_core_nft::model::PluginAuthorityKind;
use metaplex_core_nft::model::PluginSpec;
use metaplex_core_nft::model::RuleSetKind;
use metaplex_core_nft::model::TransferNft;
use metaplex_core_nft::model::UpdateNft;
use metaplex_core_nft::translate::royalty_basis_points;

fn id(byte: u8) -> AccountId {
    AccountId::from_bytes(vec![byte; 32]).unwrap()
}

fn collection_accounts(program: AccountId) -> CreateCollection {
    CreateCollection {
        collection: id(1),
        authority: id(2),
        payer: id(3),
        system_program: id(4),
        mpl_core_program: program,
    }
}

fn mint_accounts(program: AccountId) -> MintNft {
    MintNft {
        asset: id(5),
        collection: id(1),
        authority: id(2),
        owner: id(6),
        payer: id(3),
        system_program: id(4),
        mpl_core_program: program,
    }
}

fn update_accounts(program: AccountId) -> UpdateNft {
    UpdateNft {
        asset: id(5),
        collection: id(1),
        authority: id(2),
        payer: id(3),
        mpl_core_program: program,
    }
}

fn transfer_accounts(program: AccountId) -> TransferNft {
    TransferNft {
        asset: id(5),
        collection: id(1),
        authority: id(2),
        new_owner: id(7),
        payer: id(3),
        mpl_core_program: program,
    }
}

#[test]
fn basis_points_are_exact() {
    assert_eq!(royalty_basis_points(0), 0);
    assert_eq!(royalty_basis_points(1), 100);
    assert_eq!(royalty_basis_points(5), 500);
    assert_eq!(royalty_basis_points(100), 10_000);
    assert_eq!(royalty_basis_points(255), 25_500);
}

#[test]
fn create_collection_translates_royalty() {
    let accounts = collection_accounts(core_program_id());
    let inv = create_collection(
        &accounts,
        String::from("Genesis"),
        String::from("https://example.com/genesis.json"),
        5,
    )
    .unwrap();
    assert_eq!(inv.program.bytes, core_program_id().bytes);
    assert_eq!(inv.accounts.len(), 4);
    assert_eq!(inv.accounts[0].id.bytes, vec![1u8; 32]);
    assert!(inv.accounts[0].is_signer && inv.accounts[0].is_writable);
    assert_eq!(inv.accounts[1].id.bytes, vec![2u8; 32]);
    assert!(inv.accounts[1].is_signer && !inv.accounts[1].is_writable);
    assert_eq!(inv.accounts[2].id.bytes, vec![3u8; 32]);
    assert!(inv.accounts[2].is_signer && inv.accounts[2].is_writable);
    assert_eq!(inv.accounts[3].id.bytes, vec![4u8; 32]);
    assert!(!inv.accounts[3].is_signer && !inv.accounts[3].is_writable);
    match inv.payload {
        Payload::CreateCollection { name, uri, plugins } => {
            assert_eq!(name, "Genesis");
            assert_eq!(uri, "https://example.com/genesis.json");
            assert_eq!(plugins.len(), 1);
            match &plugins[0].plugin {
                PluginSpec::Royalties(rc) => {
                    assert_eq!(rc.basis_points, 500);
                    assert_eq!(rc.creators.len(), 1);
                    assert_eq!(rc.creators[0].address.bytes, vec![2u8; 32]);
                    assert_eq!(rc.creators[0].percentage, 100);
                    assert!(matches!(rc.rule_set, RuleSetKind::Unrestricted));
                }
                _ => panic!("expected a royalty plugin"),
            }
            assert!(matches!(plugins[0].authority, Some(PluginAuthorityKind::Owner)));
        }
        _ => panic!("expected a create-collection payload"),
    }
}

#[test]
fn create_collection_rejects_wrong_program() {
    let accounts = collection_accounts(id(9));
    let r = create_collection(&accounts, String::from("Genesis"), String::from("u"), 5);
    assert_eq!(r.unwrap_err(), DispatchError::ProgramIdentityMismatch);
}

#[test]
fn mint_with_freeze_attaches_one_unfrozen_plugin() {
    let accounts = mint_accounts(core_program_id());
    let inv = mint_nft(
        &accounts,
        String::from("Item #1"),
        String::from("https://example.com/item1.json"),
        true,
    )
    .unwrap();
    assert_eq!(inv.accounts.len(), 6);
    assert_eq!(inv.accounts[0].id.bytes, vec![5u8; 32]);
    assert!(inv.accounts[0].is_signer && inv.accounts[0].is_writable);
    assert!(inv.accounts[2].is_signer && !inv.accounts[2].is_writable);
    assert!(inv.accounts[4].is_signer && inv.accounts[4].is_writable);
    match inv.payload {
        Payload::CreateAsset { name, plugins, .. } => {
            assert_eq!(name, "Item #1");
            assert_eq!(plugins.len(), 1);
            match &plugins[0].plugin {
                PluginSpec::FreezeDelegate { frozen } => assert!(!frozen),
                _ => panic!("expected a freeze plugin"),
            }
            assert!(matches!(plugins[0].authority, Some(PluginAuthorityKind::Owner)));
        }
        _ => panic!("expected a create-asset payload"),
    }
}

#[test]
fn mint_without_freeze_attaches_no_plugin() {
    let accounts = mint_accounts(core_program_id());
    let inv = mint_nft(&accounts, String::from("Item #2"), String::from("u"), false).unwrap();
    match inv.payload {
        Payload::CreateAsset { plugins, .. } => assert!(plugins.is_empty()),
        _ => panic!("expected a create-asset payload"),
    }
}

#[test]
fn mint_rejects_wrong_program() {
    let accounts = mint_accounts(id(9));
    let r = mint_nft(&accounts, String::from("n"), String::from("u"), true);
    assert_eq!(r.unwrap_err(), DispatchError::ProgramIdentityMismatch);
}

#[test]
fn update_with_both_absent_is_noop_translation() {
    let accounts = update_accounts(core_program_id());
    let inv = update_nft(&accounts, None, None).unwrap();
    assert_eq!(inv.program.bytes, core_program_id().bytes);
    assert_eq!(inv.accounts.len(), 4);
    match inv.payload {
        Payload::Update { new_name, new_uri } => {
            assert!(new_name.is_none());
            assert!(new_uri.is_none());
        }
        _ => panic!("expected an update payload"),
    }
}

#[test]
fn update_with_name_only_leaves_uri_absent() {
    let accounts = update_accounts(core_program_id());
    let inv = update_nft(&accounts, Some(String::from("Renamed")), None).unwrap();
    match inv.payload {
        Payload::Update { new_name, new_uri } => {
            assert_eq!(new_name.unwrap(), "Renamed");
            assert!(new_uri.is_none());
        }
        _ => panic!("expected an update payload"),
    }
}

#[test]
fn update_with_uri_only_leaves_name_absent() {
    let accounts = update_accounts(core_program_id());
    let inv = update_nft(&accounts, None, Some(String::from("https://example.com/2"))).unwrap();
    match inv.payload {
        Payload::Update { new_name, new_uri } => {
            assert!(new_name.is_none());
            assert_eq!(new_uri.unwrap(), "https://example.com/2");
        }
        _ => panic!("expected an update payload"),
    }
}

#[test]
fn update_rejects_wrong_program() {
    let accounts = update_accounts(id(9));
    let r = update_nft(&accounts, Some(String::from("n")), None);
    assert_eq!(r.unwrap_err(), DispatchError::ProgramIdentityMismatch);
}

#[test]
fn transfer_selects_new_owner_role() {
    let accounts = transfer_accounts(core_program_id());
    let inv = transfer_nft(&accounts).unwrap();
    assert_eq!(inv.accounts.len(), 5);
    assert_eq!(inv.accounts[0].id.bytes, vec![5u8; 32]);
    assert!(!inv.accounts[0].is_signer && inv.accounts[0].is_writable);
    assert_eq!(inv.accounts[2].id.bytes, vec![2u8; 32]);
    assert!(inv.accounts[2].is_signer);
    assert_eq!(inv.accounts[3].id.bytes, vec![7u8; 32]);
    assert!(!inv.accounts[3].is_signer && !inv.accounts[3].is_writable);
    assert!(matches!(inv.payload, Payload::Transfer));
}

#[test]
fn transfer_rejects_wrong_program() {
    let accounts = transfer_accounts(id(9));
    let r = transfer_nft(&accounts);
    assert_eq!(r.unwrap_err(), DispatchError::ProgramIdentityMismatch);
}

#[test]
fn genesis_scenario_end_to_end() {
    let program = core_program_id();
    let inv = create_collection(
        &collection_accounts(program),
        String::from("Genesis"),
        String::from("https://example.com/genesis.json"),
        5,
    )
    .unwrap();
    match inv.payload {
        Payload::CreateCollection { plugins, .. } => match &plugins[0].plugin {
            PluginSpec::Royalties(rc) => {
                assert_eq!(rc.basis_points, 500);
                assert_eq!(rc.creators.len(), 1);
                assert_eq!(rc.creators[0].address.bytes, vec![2u8; 32]);
                assert_eq!(rc.creators[0].percentage, 100);
            }
            _ => panic!("expected a royalty plugin"),
        },
        _ => panic!("expected a create-collection payload"),
    }

    let minted = mint_nft(
        &mint_accounts(core_program_id()),
        String::from("Item #1"),
        String::from("https://example.com/item1.json"),
        true,
    )
    .unwrap();
    match minted.payload {
        Payload::CreateAsset { plugins, .. } => match &plugins[0].plugin {
            PluginSpec::FreezeDelegate { frozen } => assert!(!frozen),
            _ => panic!("expected a freeze plugin"),
        },
        _ => panic!("expected a create-asset payload"),
    }

    let moved = transfer_nft(&transfer_accounts(core_program_id())).unwrap();
    assert_eq!(moved.accounts[3].id.bytes, vec![7u8; 32]);
    assert!(moved.accounts[2].is_signer);
}

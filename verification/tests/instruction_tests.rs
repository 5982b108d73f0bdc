use metaplex_core_nft::ids::core_program_id;
use metaplex_core_nft::ids::AccountId;
use metaplex_core_nft::instructions::create_collection_instruction;
use metaplex_core_nft::instructions::mint_nft_instruction;
use metaplex_core_nft::instructions::transfer_nft_instruction;
use metaplex_core_nft::instructions::update_nft_instruction;
use metaplex_core_nft::model::CreateCollection;
use metaplex_core_nft::model::DispatchError;
use metaplex_core_nft::model::MintNft;
use metaplex_core_nft::model::TransferNft;
use metaplex_core_nft::model::UpdateNft;
use solana_program::pubkey::Pubkey;

fn id(byte: u8) -> AccountId {
    AccountId::from_bytes(vec![byte; 32]).unwrap()
}

fn key(byte: u8) -> Pubkey {
    Pubkey::new_from_array([byte; 32])
}

#[test]
fn create_collection_instruction_is_assembled_for_core() {
    let accounts = CreateCollection {
        collection: id(1),
        authority: id(2),
        payer: id(3),
        system_program: id(4),
        mpl_core_program: core_program_id(),
    };
    let ix = create_collection_instruction(
        &accounts,
        String::from("Genesis"),
        String::from("https://example.com/genesis.json"),
        5,
    )
    .unwrap();
    assert_eq!(ix.program_id, mpl_core::ID);
    assert_eq!(ix.accounts.len(), 4);
    assert_eq!(ix.accounts[0].pubkey, key(1));
    assert!(ix.accounts[0].is_signer && ix.accounts[0].is_writable);
    assert_eq!(ix.accounts[1].pubkey, key(2));
    assert_eq!(ix.accounts[2].pubkey, key(3));
    assert!(ix.accounts[2].is_signer && ix.accounts[2].is_writable);
    assert_eq!(ix.accounts[3].pubkey, key(4));
    // discriminator, then the name as a length-prefixed string
    assert_eq!(ix.data[0], 1);
    assert_eq!(&ix.data[1..5], &7u32.to_le_bytes());
    assert_eq!(&ix.data[5..12], b"Genesis");
    // the 500 royalty basis points appear in the serialized plugin list
    assert!(ix.data.windows(2).any(|w| w == 500u16.to_le_bytes()));
}

#[test]
fn create_collection_instruction_rejects_wrong_program() {
    let accounts = CreateCollection {
        collection: id(1),
        authority: id(2),
        payer: id(3),
        system_program: id(4),
        mpl_core_program: id(9),
    };
    let r = create_collection_instruction(&accounts, String::from("n"), String::from("u"), 5);
    assert_eq!(r.unwrap_err(), DispatchError::ProgramIdentityMismatch);
}

#[test]
fn mint_instruction_carries_freeze_choice() {
    let accounts = MintNft {
        asset: id(5),
        collection: id(1),
        authority: id(2),
        owner: id(6),
        payer: id(3),
        system_program: id(4),
        mpl_core_program: core_program_id(),
    };
    let with_freeze = mint_nft_instruction(
        &accounts,
        String::from("Item #1"),
        String::from("u"),
        true,
    )
    .unwrap();
    let without_freeze = mint_nft_instruction(
        &accounts,
        String::from("Item #1"),
        String::from("u"),
        false,
    )
    .unwrap();
    assert_eq!(with_freeze.program_id, mpl_core::ID);
    assert_eq!(with_freeze.accounts.len(), 8);
    assert_eq!(with_freeze.accounts[0].pubkey, key(5));
    assert!(with_freeze.accounts[0].is_signer && with_freeze.accounts[0].is_writable);
    assert_eq!(with_freeze.accounts[1].pubkey, key(1));
    assert_eq!(with_freeze.accounts[2].pubkey, key(2));
    assert!(with_freeze.accounts[2].is_signer);
    assert_eq!(with_freeze.accounts[3].pubkey, key(3));
    assert_eq!(with_freeze.accounts[4].pubkey, key(6));
    assert_eq!(with_freeze.data[0], 0);
    assert_eq!(without_freeze.data[0], 0);
    // the plugin list is present only when the freeze flag asks for one
    assert!(with_freeze.data.len() > without_freeze.data.len());
    assert_eq!(*without_freeze.data.last().unwrap(), 0);
}

#[test]
fn mint_instruction_rejects_wrong_program() {
    let accounts = MintNft {
        asset: id(5),
        collection: id(1),
        authority: id(2),
        owner: id(6),
        payer: id(3),
        system_program: id(4),
        mpl_core_program: id(9),
    };
    let r = mint_nft_instruction(&accounts, String::from("n"), String::from("u"), false);
    assert_eq!(r.unwrap_err(), DispatchError::ProgramIdentityMismatch);
}

#[test]
fn update_instruction_with_both_absent_has_no_mutation_fields() {
    let accounts = UpdateNft {
        asset: id(5),
        collection: id(1),
        authority: id(2),
        payer: id(3),
        mpl_core_program: core_program_id(),
    };
    let ix = update_nft_instruction(&accounts, None, None).unwrap();
    assert_eq!(ix.program_id, mpl_core::ID);
    // discriminator, then three absent optional fields
    assert_eq!(ix.data, vec![15, 0, 0, 0]);
}

#[test]
fn update_instruction_with_name_only_leaves_uri_absent() {
    let accounts = UpdateNft {
        asset: id(5),
        collection: id(1),
        authority: id(2),
        payer: id(3),
        mpl_core_program: core_program_id(),
    };
    let ix = update_nft_instruction(&accounts, Some(String::from("A")), None).unwrap();
    // discriminator, present name "A", absent uri, absent authority change
    assert_eq!(ix.data, vec![15, 1, 1, 0, 0, 0, b'A', 0, 0]);
}

#[test]
fn update_instruction_rejects_wrong_program() {
    let accounts = UpdateNft {
        asset: id(5),
        collection: id(1),
        authority: id(2),
        payer: id(3),
        mpl_core_program: id(9),
    };
    let r = update_nft_instruction(&accounts, None, None);
    assert_eq!(r.unwrap_err(), DispatchError::ProgramIdentityMismatch);
}

#[test]
fn transfer_instruction_names_new_owner() {
    let accounts = TransferNft {
        asset: id(5),
        collection: id(1),
        authority: id(2),
        new_owner: id(7),
        payer: id(3),
        mpl_core_program: core_program_id(),
    };
    let ix = transfer_nft_instruction(&accounts).unwrap();
    assert_eq!(ix.program_id, mpl_core::ID);
    assert_eq!(ix.accounts.len(), 7);
    assert_eq!(ix.accounts[0].pubkey, key(5));
    assert!(ix.accounts[0].is_writable && !ix.accounts[0].is_signer);
    assert_eq!(ix.accounts[1].pubkey, key(1));
    assert_eq!(ix.accounts[2].pubkey, key(3));
    assert_eq!(ix.accounts[3].pubkey, key(2));
    assert!(ix.accounts[3].is_signer);
    assert_eq!(ix.accounts[4].pubkey, key(7));
    // discriminator, then one absent optional field
    assert_eq!(ix.data, vec![14, 0]);
}

#[test]
fn transfer_instruction_rejects_wrong_program() {
    let accounts = TransferNft {
        asset: id(5),
        collection: id(1),
        authority: id(2),
        new_owner: id(7),
        payer: id(3),
        mpl_core_program: id(9),
    };
    let r = transfer_nft_instruction(&accounts);
    assert_eq!(r.unwrap_err(), DispatchError::ProgramIdentityMismatch);
}

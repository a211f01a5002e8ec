use anchor_lang::solana_program::pubkey::Pubkey;
use mpl_token_metadata::instruction as mi;
use solana_nft::address::Address;
use solana_nft::instructions::{metadata_instruction, Instruction};
use solana_nft::requests::{Creator, ImplicitSigner, MetadataData, Request};

fn addr(n: u8) -> Address {
    Address::new([n; 32])
}

fn pk(n: u8) -> Pubkey {
    Pubkey::new_from_array([n; 32])
}

fn same_as(ours: &Instruction, theirs: &anchor_lang::solana_program::instruction::Instruction) {
    assert_eq!(ours.program_id.bytes, theirs.program_id.to_bytes());
    assert_eq!(ours.accounts.len(), theirs.accounts.len());
    for (a, b) in ours.accounts.iter().zip(theirs.accounts.iter()) {
        assert_eq!(a.pubkey.bytes, b.pubkey.to_bytes());
        assert_eq!(a.is_signer, b.is_signer);
        assert_eq!(a.is_writable, b.is_writable);
    }
    assert_eq!(ours.data, theirs.data);
}

#[test]
fn create_metadata_instruction() {
    let req = Request::CreateMetadata {
        metadata: addr(1),
        mint: addr(2),
        mint_authority: addr(3),
        payer: addr(4),
        update_authority: addr(5),
        name: "Alpha".to_string(),
        symbol: "ALP".to_string(),
        uri: "ipfs://meta".to_string(),
        creators: Some(vec![Creator { address: addr(3), verified: false, share: 100 }]),
        seller_fee_basis_points: 0,
        update_authority_is_signer: true,
        is_mutable: true,
    };
    let ix = metadata_instruction(&req, &addr(9)).unwrap();
    let creators = vec![mpl_token_metadata::state::Creator { address: pk(3), verified: false, share: 100 }];
    let theirs = mi::create_metadata_accounts_v3(
        pk(9), pk(1), pk(2), pk(3), pk(4), pk(5),
        "Alpha".to_string(), "ALP".to_string(), "ipfs://meta".to_string(),
        Some(creators), 0, true, true, None, None, None,
    );
    same_as(&ix, &theirs);
    assert!(ix.accounts[5].pubkey.bytes.iter().all(|b| *b == 0));
}

#[test]
fn sign_and_edition_instructions() {
    let sign = Request::SignMetadata { metadata: addr(1), creator: addr(3), signer: None };
    same_as(&metadata_instruction(&sign, &addr(9)).unwrap(), &mi::sign_metadata(pk(9), pk(1), pk(3)));
    let edition = Request::CreateMasterEdition {
        edition: addr(6),
        mint: addr(2),
        update_authority: addr(4),
        mint_authority: addr(3),
        metadata: addr(1),
        payer: addr(4),
        max_supply: Some(0),
    };
    same_as(
        &metadata_instruction(&edition, &addr(9)).unwrap(),
        &mi::create_master_edition_v3(pk(9), pk(6), pk(2), pk(4), pk(3), pk(1), pk(4), Some(0)),
    );
}

#[test]
fn authority_and_update_instructions() {
    let approve = Request::ApproveCollectionAuthority {
        authority_record: addr(7),
        new_authority: addr(8),
        update_authority: addr(3),
        payer: addr(3),
        metadata: addr(1),
        mint: addr(2),
    };
    same_as(
        &metadata_instruction(&approve, &addr(9)).unwrap(),
        &mi::approve_collection_authority(pk(9), pk(7), pk(8), pk(3), pk(3), pk(1), pk(2)),
    );
    let update = Request::UpdateMetadata {
        metadata: addr(1),
        update_authority: addr(4),
        new_update_authority: Some(addr(8)),
        data: Some(MetadataData {
            name: "Alpha #1".to_string(),
            symbol: "ALP".to_string(),
            uri: "ipfs://meta1".to_string(),
            creators: Some(vec![Creator { address: addr(3), verified: false, share: 100 }]),
            seller_fee_basis_points: 0,
        }),
        primary_sale_happened: Some(true),
        is_mutable: Some(true),
    };
    let data = mpl_token_metadata::state::DataV2 {
        name: "Alpha #1".to_string(),
        symbol: "ALP".to_string(),
        uri: "ipfs://meta1".to_string(),
        seller_fee_basis_points: 0,
        creators: Some(vec![mpl_token_metadata::state::Creator { address: pk(3), verified: false, share: 100 }]),
        collection: None,
        uses: None,
    };
    same_as(
        &metadata_instruction(&update, &addr(9)).unwrap(),
        &mi::update_metadata_accounts_v2(pk(9), pk(1), pk(4), Some(pk(8)), Some(data), Some(true), Some(true)),
    );
}

#[test]
fn verify_collection_instruction() {
    let req = Request::SetAndVerifyCollection {
        metadata: addr(1),
        collection_authority: addr(8),
        payer: addr(4),
        update_authority: addr(8),
        collection_mint: addr(10),
        collection_metadata: addr(11),
        collection_master_edition: addr(12),
        authority_record: None,
        signer: ImplicitSigner { seeds: vec![b"collection".to_vec(), vec![255]] },
    };
    same_as(
        &metadata_instruction(&req, &addr(9)).unwrap(),
        &mi::set_and_verify_collection(pk(9), pk(1), pk(8), pk(4), pk(8), pk(10), pk(11), pk(12), None),
    );
}

#[test]
fn token_requests_have_no_metadata_instruction() {
    let req = Request::MintTo { mint: addr(2), to: addr(5), authority: addr(3), amount: 1 };
    assert!(metadata_instruction(&req, &addr(9)).is_none());
}

fn borsh_string(s: &str) -> Vec<u8> {
    let mut v = (s.len() as u32).to_le_bytes().to_vec();
    v.extend_from_slice(s.as_bytes());
    v
}

fn sole_creator_bytes(n: u8) -> Vec<u8> {
    let mut v = vec![1u8];
    v.extend_from_slice(&1u32.to_le_bytes());
    v.extend_from_slice(&[n; 32]);
    v.extend_from_slice(&[0, 100]);
    v
}

#[test]
fn instruction_data_layout() {
    let sign = Request::SignMetadata { metadata: addr(1), creator: addr(3), signer: None };
    assert_eq!(metadata_instruction(&sign, &addr(9)).unwrap().data, vec![7]);
    let approve = Request::ApproveCollectionAuthority {
        authority_record: addr(7),
        new_authority: addr(8),
        update_authority: addr(3),
        payer: addr(3),
        metadata: addr(1),
        mint: addr(2),
    };
    assert_eq!(metadata_instruction(&approve, &addr(9)).unwrap().data, vec![23]);
    let verify = Request::SetAndVerifyCollection {
        metadata: addr(1),
        collection_authority: addr(8),
        payer: addr(4),
        update_authority: addr(8),
        collection_mint: addr(10),
        collection_metadata: addr(11),
        collection_master_edition: addr(12),
        authority_record: Some(addr(13)),
        signer: ImplicitSigner { seeds: vec![] },
    };
    let ix = metadata_instruction(&verify, &addr(9)).unwrap();
    assert_eq!(ix.data, vec![25]);
    assert_eq!(ix.accounts.len(), 8);
    assert!(ix.accounts[7].pubkey.same(&addr(13)));
    let edition = |max_supply| Request::CreateMasterEdition {
        edition: addr(6),
        mint: addr(2),
        update_authority: addr(4),
        mint_authority: addr(3),
        metadata: addr(1),
        payer: addr(4),
        max_supply,
    };
    assert_eq!(metadata_instruction(&edition(Some(0)), &addr(9)).unwrap().data, vec![17, 1, 0, 0, 0, 0, 0, 0, 0, 0]);
    assert_eq!(metadata_instruction(&edition(None), &addr(9)).unwrap().data, vec![17, 0]);

    let create = Request::CreateMetadata {
        metadata: addr(1),
        mint: addr(2),
        mint_authority: addr(3),
        payer: addr(4),
        update_authority: addr(5),
        name: "Alpha".to_string(),
        symbol: "ALP".to_string(),
        uri: "ipfs://meta".to_string(),
        creators: Some(vec![Creator { address: addr(3), verified: false, share: 100 }]),
        seller_fee_basis_points: 0,
        update_authority_is_signer: true,
        is_mutable: true,
    };
    let mut expected = vec![33u8];
    expected.extend(borsh_string("Alpha"));
    expected.extend(borsh_string("ALP"));
    expected.extend(borsh_string("ipfs://meta"));
    expected.extend_from_slice(&[0, 0]);
    expected.extend(sole_creator_bytes(3));
    expected.extend_from_slice(&[0, 0, 1, 0]);
    assert_eq!(metadata_instruction(&create, &addr(9)).unwrap().data, expected);

    let update = Request::UpdateMetadata {
        metadata: addr(1),
        update_authority: addr(4),
        new_update_authority: Some(addr(8)),
        data: Some(MetadataData {
            name: "A".to_string(),
            symbol: "B".to_string(),
            uri: "C".to_string(),
            creators: Some(vec![Creator { address: addr(3), verified: false, share: 100 }]),
            seller_fee_basis_points: 0,
        }),
        primary_sale_happened: Some(true),
        is_mutable: Some(true),
    };
    let mut expected = vec![15u8, 1];
    expected.extend(borsh_string("A"));
    expected.extend(borsh_string("B"));
    expected.extend(borsh_string("C"));
    expected.extend_from_slice(&[0, 0]);
    expected.extend(sole_creator_bytes(3));
    expected.extend_from_slice(&[0, 0, 1]);
    expected.extend_from_slice(&[8u8; 32]);
    expected.extend_from_slice(&[1, 1, 1, 1]);
    assert_eq!(metadata_instruction(&update, &addr(9)).unwrap().data, expected);
    let bare = Request::UpdateMetadata {
        metadata: addr(1),
        update_authority: addr(4),
        new_update_authority: None,
        data: None,
        primary_sale_happened: None,
        is_mutable: Some(false),
    };
    assert_eq!(metadata_instruction(&bare, &addr(9)).unwrap().data, vec![15, 0, 0, 0, 1, 0]);
}

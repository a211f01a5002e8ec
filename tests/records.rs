use anchor_lang::solana_program::hash::hash;
use anchor_lang::solana_program::pubkey::Pubkey;
use solana_nft::address::{
    collection_seed_list, derive_address, derive_with_bump, user_seed_list, Address,
};
use solana_nft::records::{CollectionAccount, NftAccount, UserAccount};

fn addr(n: u8) -> Address {
    Address::new([n; 32])
}

fn sample(name: &str) -> CollectionAccount {
    CollectionAccount {
        owner: addr(1),
        token_mint: addr(2),
        sequence: 3,
        member_count: 4,
        bump: 254,
        created: -5,
        name: name.to_string(),
        symbol: "SYM".to_string(),
        ipfs_image_hash: "ipfs://img".to_string(),
    }
}

#[test]
fn space_formulas() {
    assert_eq!(CollectionAccount::get_string_size("Foo"), 7);
    assert_eq!(CollectionAccount::get_string_size("é"), 6);
    assert_eq!(NftAccount::get_string_size(""), 4);
    assert_eq!(CollectionAccount::get_space("Alpha", "ALP", "ipfs://img1"), 91 + 9 + 7 + 15);
    assert_eq!(NftAccount::get_space("Alpha #1", "ipfs://img"), 80 + 12 + 14);
    assert_eq!(UserAccount::get_space(), 17);
}

#[test]
fn collection_round_trip() {
    let c = sample("Foo");
    let bytes = c.serialize();
    assert_eq!(bytes.len(), CollectionAccount::get_space("Foo", "SYM", "ipfs://img"));
    let back = CollectionAccount::deserialize(&bytes).unwrap();
    assert_eq!(back.name, "Foo");
    assert_eq!(back.symbol, "SYM");
    assert_eq!(back.ipfs_image_hash, "ipfs://img");
    assert!(back.owner.same(&addr(1)));
    assert!(back.token_mint.same(&addr(2)));
    assert_eq!(back.sequence, 3);
    assert_eq!(back.member_count, 4);
    assert_eq!(back.bump, 254);
    assert_eq!(back.created, -5);
}

#[test]
fn stored_layout() {
    let bytes = sample("Foo").serialize();
    let tag = hash(b"account:CollectionAccount").to_bytes();
    assert_eq!(&bytes[0..8], &tag[0..8]);
    assert_eq!(&bytes[8..40], &[1u8; 32]);
    assert_eq!(&bytes[72..80], &3u64.to_le_bytes());
    assert_eq!(&bytes[80..82], &4u16.to_le_bytes());
    assert_eq!(bytes[82], 254);
    assert_eq!(&bytes[83..91], &(-5i64).to_le_bytes());
    assert_eq!(&bytes[91..95], &3u32.to_le_bytes());
    assert_eq!(&bytes[95..98], b"Foo");
}

#[test]
fn damaged_bytes_are_refused() {
    let bytes = sample("Foo").serialize();
    let mut bad_tag = bytes.clone();
    bad_tag[0] ^= 1;
    assert!(CollectionAccount::deserialize(&bad_tag).is_none());
    let mut bad_utf8 = bytes.clone();
    bad_utf8[95] = 0xff;
    assert!(CollectionAccount::deserialize(&bad_utf8).is_none());
    let mut longer = bytes.clone();
    longer.push(0);
    assert!(CollectionAccount::deserialize(&longer).is_none());
    assert!(CollectionAccount::deserialize(&bytes[..bytes.len() - 1]).is_none());
    assert!(NftAccount::deserialize(&bytes).is_none());
}

#[test]
fn non_ascii_name_round_trip() {
    let c = sample("Ünïcode ✓");
    let back = CollectionAccount::deserialize(&c.serialize()).unwrap();
    assert_eq!(back.name, "Ünïcode ✓");
}

#[test]
fn member_and_user_round_trip() {
    let n = NftAccount {
        token_mint: addr(7),
        collection_mint: addr(8),
        created: 1_700_000_000,
        name: "Alpha #1".to_string(),
        ipfs_image_hash: "ipfs://x".to_string(),
    };
    let bytes = n.serialize();
    assert_eq!(bytes.len(), NftAccount::get_space("Alpha #1", "ipfs://x"));
    let tag = hash(b"account:NftAccount").to_bytes();
    assert_eq!(&bytes[0..8], &tag[0..8]);
    let back = NftAccount::deserialize(&bytes).unwrap();
    assert_eq!(back.name, "Alpha #1");
    assert!(back.collection_mint.same(&addr(8)));
    assert_eq!(back.created, 1_700_000_000);

    let u = UserAccount { collection_count: 42, bump: 250 };
    let ub = u.serialize();
    assert_eq!(ub.len(), 17);
    let uback = UserAccount::deserialize(&ub).unwrap();
    assert_eq!(uback.collection_count, 42);
    assert_eq!(uback.bump, 250);
}

#[test]
fn derivation_matches_runtime() {
    let program = addr(9);
    let owner = addr(10);
    let seeds = collection_seed_list(&owner, 7);
    let (a, bump) = derive_address(&seeds, &program).unwrap();
    let pk = Pubkey::new_from_array([9; 32]);
    let (expected, expected_bump) =
        Pubkey::find_program_address(&[b"collection", &[10u8; 32], &7u64.to_le_bytes()], &pk);
    assert_eq!(a.bytes, expected.to_bytes());
    assert_eq!(bump, expected_bump);
    let again = derive_with_bump(&seeds, bump, &program).unwrap();
    assert!(again.same(&a));
    let (b, _) = derive_address(&collection_seed_list(&owner, 8), &program).unwrap();
    assert!(!b.same(&a));
    let (u, _) = derive_address(&user_seed_list(&owner), &program).unwrap();
    let (eu, _) = Pubkey::find_program_address(&[b"user", &[10u8; 32]], &pk);
    assert_eq!(u.bytes, eu.to_bytes());
}

#[test]
fn oversized_seed_is_refused() {
    let program = addr(9);
    let seeds = vec![vec![0u8; 33]];
    assert!(derive_with_bump(&seeds, 255, &program).is_none());
    let many = vec![vec![1u8]; 16];
    assert!(derive_with_bump(&many, 255, &program).is_none());
}

use solana_nft::address::{
    collection_seed_list, derive_address, edition_seed_list, member_seed_list, metadata_seed_list,
    user_seed_list, Address,
};
use solana_nft::collection::{mint_collection, MintCollection, MintError};
use solana_nft::member::{mint_nft_from_collection, MintNftFromCollection};
use solana_nft::records::{CollectionAccount, UserAccount};
use solana_nft::registry::Registry;
use solana_nft::requests::Request;

fn addr(n: u8) -> Address {
    Address::new([n; 32])
}

fn program() -> Address {
    addr(1)
}

fn metadata_program() -> Address {
    addr(2)
}

fn pda(seeds: &Vec<Vec<u8>>, program: &Address) -> Address {
    derive_address(seeds, program).expect("a viable bump").0
}

fn collection_ctx(owner: Address, mint: Address, sequence: u64) -> MintCollection {
    let mp = metadata_program();
    MintCollection {
        mint,
        mint_authority: owner,
        payer: owner,
        system_program: addr(3),
        token_program: addr(4),
        token_account: addr(5),
        associated_token_program: addr(6),
        token_metadata_program: mp,
        master_edition: pda(&edition_seed_list(&mp, &mint), &mp),
        metadata: pda(&metadata_seed_list(&mp, &mint), &mp),
        collection_authority_record: addr(7),
        collection_pda: pda(&collection_seed_list(&owner, sequence), &program()),
        user_pda: pda(&user_seed_list(&owner), &program()),
    }
}

fn member_ctx(owner: Address, mint: Address, coll: &MintCollection) -> MintNftFromCollection {
    let mp = metadata_program();
    MintNftFromCollection {
        mint,
        mint_authority: owner,
        payer: owner,
        system_program: addr(3),
        token_program: addr(4),
        token_account: addr(8),
        associated_token_program: addr(6),
        token_metadata_program: mp,
        nft_pda: pda(&member_seed_list(&coll.collection_pda, &mint), &program()),
        master_edition: pda(&edition_seed_list(&mp, &mint), &mp),
        metadata: pda(&metadata_seed_list(&mp, &mint), &mp),
        collection_token_mint: coll.mint,
        collection_pda: coll.collection_pda,
        collection_metadata: coll.metadata,
        collection_master_ed: coll.master_edition,
        collection_authority_record: addr(9),
    }
}

fn all_ok(n: usize) -> Vec<bool> {
    vec![true; n]
}

#[test]
fn collection_then_member_scenario() {
    let mut reg = Registry::new(program(), metadata_program());
    let owner = addr(10);
    let cmint = addr(20);
    let cctx = collection_ctx(owner, cmint, 0);
    let cm = mint_collection(&reg, &cctx, "Alpha", "ALP", "ipfs://img1", "ipfs://img1").unwrap();

    let mints: Vec<&Request> = cm
        .requests()
        .iter()
        .filter(|r| matches!(r, Request::MintTo { .. }))
        .collect();
    assert_eq!(mints.len(), 1);
    match mints[0] {
        Request::MintTo { mint, amount, .. } => {
            assert!(mint.same(&cmint));
            assert_eq!(*amount, 1);
        }
        _ => unreachable!(),
    }
    match &cm.requests()[1] {
        Request::InitializeMint { decimals, .. } => assert_eq!(*decimals, 0),
        _ => panic!("the mint is initialised second"),
    }

    let n = cm.requests().len();
    let coll_addr = cm.commit(&mut reg, &all_ok(n), 1_700_000_000).unwrap();
    assert!(coll_addr.same(&cctx.collection_pda));
    let coll = reg.find_collection(&coll_addr).unwrap();
    assert!(coll.owner.same(&owner));
    assert_eq!(coll.symbol, "ALP");
    assert_eq!(coll.name, "Alpha");
    assert_eq!(coll.ipfs_image_hash, "ipfs://img1");
    assert_eq!(coll.member_count, 0);
    assert_eq!(coll.created, 1_700_000_000);
    assert_eq!(reg.find_user(&cctx.user_pda).unwrap().collection_count, 1);

    let nmint = addr(30);
    let mctx = member_ctx(owner, nmint, &cctx);
    let mm = mint_nft_from_collection(&reg, &mctx, "Alpha #1", "ipfs://img-member", "ipfs://meta1")
        .unwrap();
    match mm.requests().last().unwrap() {
        Request::SetAndVerifyCollection {
            metadata,
            collection_authority,
            collection_mint,
            collection_master_edition,
            signer,
            ..
        } => {
            assert!(metadata.same(&mctx.metadata));
            assert!(collection_authority.same(&cctx.collection_pda));
            assert!(collection_mint.same(&cmint));
            assert!(collection_master_edition.same(&cctx.master_edition));
            assert_eq!(signer.seeds.len(), 4);
            assert_eq!(signer.seeds[0], b"collection".to_vec());
        }
        _ => panic!("collection verification comes last"),
    }
    match &mm.requests()[4] {
        Request::CreateMetadata { symbol, creators, .. } => {
            assert_eq!(symbol, "ALP");
            assert!(creators.is_none());
        }
        _ => panic!("metadata is registered fifth"),
    }
    let n = mm.requests().len();
    let member_addr = mm.commit(&mut reg, &all_ok(n), 1_700_000_100).unwrap();
    let member = reg.find_member(&member_addr).unwrap();
    assert!(member.collection_mint.same(&coll_addr_mint(&reg, &coll_addr)));
    assert_eq!(member.name, "Alpha #1");
    assert_eq!(reg.find_collection(&coll_addr).unwrap().member_count, 1);
    assert_eq!(reg.find_user(&cctx.user_pda).unwrap().collection_count, 1);
}

fn coll_addr_mint(reg: &Registry, coll: &Address) -> Address {
    reg.find_collection(coll).unwrap().token_mint
}

#[test]
fn racing_mint_on_same_sequence_is_refused() {
    let mut reg = Registry::new(program(), metadata_program());
    let owner = addr(11);
    let first = collection_ctx(owner, addr(21), 0);
    let second = collection_ctx(owner, addr(22), 0);
    assert!(first.collection_pda.same(&second.collection_pda));
    let m1 = mint_collection(&reg, &first, "One", "ONE", "img", "uri").unwrap();
    let m2 = mint_collection(&reg, &second, "Two", "TWO", "img", "uri").unwrap();
    let n1 = m1.requests().len();
    let n2 = m2.requests().len();
    m1.commit(&mut reg, &all_ok(n1), 5).unwrap();
    assert_eq!(m2.commit(&mut reg, &all_ok(n2), 6), Err(MintError::AlreadyInitialized));
    let stored = reg.find_collection(&first.collection_pda).unwrap();
    assert!(stored.token_mint.same(&addr(21)));
    assert_eq!(stored.name, "One");
    assert_eq!(reg.find_user(&first.user_pda).unwrap().collection_count, 1);
    // a fresh attempt on the same seeds finds the address taken; it must use the next sequence number
    assert_eq!(
        mint_collection(&reg, &second, "Two", "TWO", "img", "uri").err(),
        Some(MintError::AlreadyInitialized)
    );
    let retry = collection_ctx(owner, addr(22), 1);
    assert!(mint_collection(&reg, &retry, "Two", "TWO", "img", "uri").is_ok());
}

#[test]
fn failed_request_writes_nothing() {
    let mut reg = Registry::new(program(), metadata_program());
    let owner = addr(12);
    let ctx = collection_ctx(owner, addr(23), 0);
    for attempt in 0..3 {
        let m = mint_collection(&reg, &ctx, "Beta", "BET", "img", "uri").unwrap();
        let mut outcomes = all_ok(m.requests().len());
        outcomes[attempt + 4] = false;
        assert_eq!(m.commit(&mut reg, &outcomes, 1), Err(MintError::ExternalServiceRejected));
    }
    assert!(reg.find_collection(&ctx.collection_pda).is_none());
    assert!(reg.find_user(&ctx.user_pda).is_none());
    let m = mint_collection(&reg, &ctx, "Beta", "BET", "img", "uri").unwrap();
    let short = vec![true; 3];
    assert_eq!(m.commit(&mut reg, &short, 1), Err(MintError::ExternalServiceRejected));
    let m = mint_collection(&reg, &ctx, "Beta", "BET", "img", "uri").unwrap();
    let n = m.requests().len();
    m.commit(&mut reg, &all_ok(n), 1).unwrap();
    assert_eq!(reg.find_user(&ctx.user_pda).unwrap().collection_count, 1);
    assert_eq!(reg.find_collection(&ctx.collection_pda).unwrap().member_count, 0);
}

#[test]
fn collection_plan_has_nine_requests_in_order() {
    let reg = Registry::new(program(), metadata_program());
    let ctx = collection_ctx(addr(13), addr(24), 0);
    let m = mint_collection(&reg, &ctx, "Gamma", "GAM", "img", "uri").unwrap();
    let r = m.requests();
    assert_eq!(r.len(), 9);
    assert!(matches!(r[0], Request::CreateMintAccount { lamports: 1461600, space: 82, .. }));
    assert!(matches!(r[2], Request::CreateHoldingAccount { .. }));
    assert!(matches!(r[5], Request::SignMetadata { signer: None, .. }));
    assert!(matches!(r[6], Request::CreateMasterEdition { max_supply: Some(0), .. }));
    assert!(matches!(r[7], Request::ApproveCollectionAuthority { .. }));
    match &r[8] {
        Request::UpdateMetadata { new_update_authority, is_mutable, primary_sale_happened, data, .. } => {
            assert!(new_update_authority.unwrap().same(&ctx.collection_pda));
            assert_eq!(*is_mutable, Some(true));
            assert_eq!(*primary_sale_happened, Some(true));
            assert!(data.is_none());
        }
        _ => panic!("update authority moves last"),
    }
    match &r[4] {
        Request::CreateMetadata { creators, seller_fee_basis_points, is_mutable, .. } => {
            let c = creators.as_ref().unwrap();
            assert_eq!(c.len(), 1);
            assert!(c[0].address.same(&addr(13)));
            assert!(!c[0].verified);
            assert_eq!(c[0].share, 100);
            assert_eq!(*seller_fee_basis_points, 0);
            assert!(*is_mutable);
        }
        _ => panic!("metadata is registered fifth"),
    }
}

#[test]
fn mint_errors() {
    let mut reg = Registry::new(program(), metadata_program());
    let owner = addr(14);
    let ctx = collection_ctx(owner, addr(25), 0);

    let mut wrong = ctx;
    wrong.collection_pda = addr(99);
    assert_eq!(mint_collection(&reg, &wrong, "A", "B", "c", "d").err(), Some(MintError::AddressMismatch));
    let mut wrong = ctx;
    wrong.token_metadata_program = addr(98);
    assert_eq!(mint_collection(&reg, &wrong, "A", "B", "c", "d").err(), Some(MintError::AddressMismatch));
    let mut wrong = ctx;
    wrong.master_edition = addr(97);
    assert_eq!(mint_collection(&reg, &wrong, "A", "B", "c", "d").err(), Some(MintError::AddressMismatch));

    let long_name = "n".repeat(33);
    assert_eq!(
        mint_collection(&reg, &ctx, &long_name, "B", "c", "d").err(),
        Some(MintError::SizeMiscalculation)
    );
    assert!(mint_collection(&reg, &ctx, &"n".repeat(32), "B", "c", "d").is_ok());
    assert_eq!(
        mint_collection(&reg, &ctx, "A", "SYMBOLTOOLONG", "c", "d").err(),
        Some(MintError::SizeMiscalculation)
    );
    assert_eq!(
        mint_collection(&reg, &ctx, "A", "B", "c", &"u".repeat(201)).err(),
        Some(MintError::SizeMiscalculation)
    );

    let m = mint_collection(&reg, &ctx, "A", "B", "c", "d").unwrap();
    let n = m.requests().len();
    m.commit(&mut reg, &all_ok(n), 0).unwrap();

    // member into a collection that has no record
    let other = collection_ctx(addr(15), addr(26), 0);
    let mctx = member_ctx(addr(15), addr(31), &other);
    assert_eq!(
        mint_nft_from_collection(&reg, &mctx, "M", "i", "u").err(),
        Some(MintError::UnknownCollection)
    );

    let mctx = member_ctx(owner, addr(32), &ctx);
    let mut wrong = mctx;
    wrong.collection_master_ed = addr(96);
    assert_eq!(
        mint_nft_from_collection(&reg, &wrong, "M", "i", "u").err(),
        Some(MintError::AddressMismatch)
    );
    let mut wrong = mctx;
    wrong.collection_token_mint = addr(95);
    assert_eq!(
        mint_nft_from_collection(&reg, &wrong, "M", "i", "u").err(),
        Some(MintError::AddressMismatch)
    );
    let mut wrong = mctx;
    wrong.nft_pda = addr(94);
    assert_eq!(
        mint_nft_from_collection(&reg, &wrong, "M", "i", "u").err(),
        Some(MintError::AddressMismatch)
    );
    assert_eq!(
        mint_nft_from_collection(&reg, &mctx, &"n".repeat(33), "i", "u").err(),
        Some(MintError::SizeMiscalculation)
    );

    let first = mint_nft_from_collection(&reg, &mctx, "M", "i", "u").unwrap();
    let again = mint_nft_from_collection(&reg, &mctx, "M", "i", "u").unwrap();
    let n = first.requests().len();
    first.commit(&mut reg, &all_ok(n), 0).unwrap();
    assert_eq!(again.commit(&mut reg, &all_ok(n), 0), Err(MintError::AlreadyInitialized));
    assert_eq!(
        mint_nft_from_collection(&reg, &mctx, "M", "i", "u").err(),
        Some(MintError::AlreadyInitialized)
    );
    assert_eq!(reg.find_collection(&ctx.collection_pda).unwrap().member_count, 1);
}

#[test]
fn record_budget_edge() {
    let reg = Registry::new(program(), metadata_program());
    let ctx = collection_ctx(addr(16), addr(27), 0);
    // 91 fixed bytes, then "A", "B" and the image, each behind a four-byte prefix
    let fits = 10240 - 91 - 5 - 5 - 4;
    assert!(mint_collection(&reg, &ctx, "A", "B", &"x".repeat(fits), "d").is_ok());
    assert_eq!(
        mint_collection(&reg, &ctx, "A", "B", &"x".repeat(fits + 1), "d").err(),
        Some(MintError::SizeMiscalculation)
    );
}

#[test]
fn counters_at_their_limit() {
    let mut reg = Registry::new(program(), metadata_program());
    let owner = addr(17);
    let ctx = collection_ctx(owner, addr(28), u64::MAX);
    reg.load_user(ctx.user_pda, UserAccount { collection_count: u64::MAX, bump: 255 });
    assert_eq!(
        mint_collection(&reg, &ctx, "A", "B", "c", "d").err(),
        Some(MintError::CounterOverflow)
    );

    let coll = collection_ctx(owner, addr(29), 0);
    let bump = derive_address(&collection_seed_list(&owner, 0), &program()).unwrap().1;
    reg.load_collection(
        coll.collection_pda,
        CollectionAccount {
            owner,
            token_mint: coll.mint,
            sequence: 0,
            member_count: u16::MAX,
            bump,
            created: 0,
            name: "Full".to_string(),
            symbol: "FUL".to_string(),
            ipfs_image_hash: "img".to_string(),
        },
    );
    let mctx = member_ctx(owner, addr(33), &coll);
    assert_eq!(
        mint_nft_from_collection(&reg, &mctx, "M", "i", "u").err(),
        Some(MintError::CounterOverflow)
    );
}

#[test]
fn empty_strings_are_accepted() {
    let mut reg = Registry::new(program(), metadata_program());
    let ctx = collection_ctx(addr(18), addr(34), 0);
    let m = mint_collection(&reg, &ctx, "", "", "", "").unwrap();
    let n = m.requests().len();
    m.commit(&mut reg, &all_ok(n), 0).unwrap();
    let stored = reg.find_collection(&ctx.collection_pda).unwrap();
    assert_eq!(stored.name, "");
    assert_eq!(stored.serialize().len(), 91 + 4 + 4 + 4);
}

#[test]
fn owner_is_the_signing_mint_authority() {
    let mut reg = Registry::new(program(), metadata_program());
    let signer = addr(19);
    let mut ctx = collection_ctx(signer, addr(35), 0);
    ctx.payer = addr(41);
    let m = mint_collection(&reg, &ctx, "Delta", "DEL", "img", "uri").unwrap();
    assert!(m.record().owner.same(&signer));
    match &m.requests()[4] {
        Request::CreateMetadata { update_authority, payer, .. } => {
            assert!(update_authority.same(&signer));
            assert!(payer.same(&addr(41)));
        }
        _ => panic!("metadata is registered fifth"),
    }
    match &m.requests()[8] {
        Request::UpdateMetadata { update_authority, .. } => assert!(update_authority.same(&signer)),
        _ => panic!("update authority moves last"),
    }
    let n = m.requests().len();
    m.commit(&mut reg, &all_ok(n), 0).unwrap();
    assert!(reg.find_collection(&ctx.collection_pda).unwrap().owner.same(&signer));
    assert_eq!(reg.find_user(&ctx.user_pda).unwrap().collection_count, 1);
}

#[test]
fn stored_bump_must_be_canonical() {
    let mut reg = Registry::new(program(), metadata_program());
    let owner = addr(20);
    let coll = collection_ctx(owner, addr(36), 0);
    let bump = derive_address(&collection_seed_list(&owner, 0), &program()).unwrap().1;
    let record = |bump| CollectionAccount {
        owner,
        token_mint: coll.mint,
        sequence: 0,
        member_count: 0,
        bump,
        created: 0,
        name: "Eps".to_string(),
        symbol: "EPS".to_string(),
        ipfs_image_hash: "img".to_string(),
    };
    reg.load_collection(coll.collection_pda, record(bump.wrapping_sub(1)));
    let mctx = member_ctx(owner, addr(37), &coll);
    assert_eq!(
        mint_nft_from_collection(&reg, &mctx, "M", "i", "u").err(),
        Some(MintError::AddressMismatch)
    );
    let mut good = Registry::new(program(), metadata_program());
    good.load_collection(coll.collection_pda, record(bump));
    assert!(mint_nft_from_collection(&good, &mctx, "M", "i", "u").is_ok());
}

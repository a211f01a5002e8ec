use vstd::prelude::*;
use vstd::bytes::{lemma_auto_spec_u64_to_from_le_bytes, spec_u64_to_le_bytes};
use crate::address::{canonical_address, collection_seeds, edition_seeds};
use crate::collection::{
    after_collection_commit, all_succeeded, collection_commit_check, collection_mint_check,
    derives, next_sequence, planned_collection_mint, CollectionMintView, MintCollection, MintError,
    MAX_RECORD_SPACE,
};
use crate::member::{
    after_member_commit, member_commit_check, member_mint_check, planned_member_mint,
    MintNftFromCollection,
};
use crate::records::collection_space;
use crate::registry::RegistryView;
use crate::requests::RequestView;

verus! {

/// Deriving a collection's address is a function of the owner and the sequence number, and
/// two different (owner, sequence) pairs never hand the derivation the same bytes, whatever
/// bumps are appended.
pub proof fn lemma_collection_derivation(
    owner1: Seq<u8>,
    sequence1: u64,
    owner2: Seq<u8>,
    sequence2: u64,
    bump1: u8,
    bump2: u8,
    program: Seq<u8>,
)
    requires
        owner1.len() == 32,
        owner2.len() == 32,
    ensures
        owner1 == owner2 && sequence1 == sequence2 ==> canonical_address(
            collection_seeds(owner1, sequence1),
            program,
        ) == canonical_address(collection_seeds(owner2, sequence2), program),
        owner1 != owner2 || sequence1 != sequence2 ==> collection_seeds(owner1, sequence1).push(
            seq![bump1],
        ).flatten() != collection_seeds(owner2, sequence2).push(seq![bump2]).flatten(),
{
    lemma_auto_spec_u64_to_from_le_bytes();
    reveal_with_fuel(Seq::<Seq<u8>>::flatten, 5);
    let s1 = collection_seeds(owner1, sequence1).push(seq![bump1]);
    let s2 = collection_seeds(owner2, sequence2).push(seq![bump2]);
    let tag = s1[0];
    assert(s1[0] == s2[0]);
    let l1 = spec_u64_to_le_bytes(sequence1);
    let l2 = spec_u64_to_le_bytes(sequence2);
    assert(s1.drop_first().drop_first().drop_first().drop_first() =~= Seq::<Seq<u8>>::empty());
    assert(s2.drop_first().drop_first().drop_first().drop_first() =~= Seq::<Seq<u8>>::empty());
    assert(s1.flatten() =~= tag + owner1 + l1 + seq![bump1]);
    assert(s2.flatten() =~= tag + owner2 + l2 + seq![bump2]);
    if s1.flatten() == s2.flatten() {
        let t = tag.len() as int;
        assert(owner1 =~= s1.flatten().subrange(t, t + 32));
        assert(owner2 =~= s2.flatten().subrange(t, t + 32));
        assert(l1 =~= s1.flatten().subrange(t + 32, t + 40));
        assert(l2 =~= s2.flatten().subrange(t + 32, t + 40));
    }
}

} // verus!

verus! {

/// A collection mint followed by a member mint into it, both with every request successful,
/// raise the owner's collection count by exactly one and leave the new collection with exactly
/// one member. Neither record can be written a second time, and a run with any failed request
/// writes nothing.
pub proof fn lemma_mint_counters(
    reg: RegistryView,
    cctx: MintCollection,
    name: Seq<char>,
    symbol: Seq<char>,
    image: Seq<char>,
    uri: Seq<char>,
    coutcomes: Seq<bool>,
    ccreated: i64,
    mctx: MintNftFromCollection,
    member_name: Seq<char>,
    member_image: Seq<char>,
    member_uri: Seq<char>,
    moutcomes: Seq<bool>,
    mcreated: i64,
)
    requires
        collection_mint_check(reg, cctx, name, symbol, image, uri) is Ok,
        all_succeeded(coutcomes, 9),
        mctx.collection_pda == cctx.collection_pda,
        member_mint_check(
            after_collection_commit(
                reg,
                planned_collection_mint(reg, cctx, name, symbol, image, uri),
                ccreated,
            ),
            mctx,
            member_name,
            member_image,
            member_uri,
        ) is Ok,
        all_succeeded(moutcomes, 9),
    ensures
        ({
            let cm = planned_collection_mint(reg, cctx, name, symbol, image, uri);
            let reg1 = after_collection_commit(reg, cm, ccreated);
            let mm = planned_member_mint(reg1, mctx, member_name, member_image, member_uri);
            let reg2 = after_member_commit(reg1, mm, mcreated);
            &&& collection_commit_check(reg, cm, coutcomes) is Ok
            &&& member_commit_check(reg1, mm, moutcomes) is Ok
            &&& reg2.users[cctx.user_pda@].collection_count == next_sequence(reg, cctx.user_pda@)
                + 1
            &&& reg1.collections[cctx.collection_pda@].member_count == 0
            &&& reg2.collections[cctx.collection_pda@].member_count == 1
            &&& forall|o: Seq<bool>| collection_commit_check(reg1, cm, o) is Err
            &&& forall|o: Seq<bool>| member_commit_check(reg2, mm, o) is Err
            &&& forall|o: Seq<bool>|
                !all_succeeded(o, 9) ==> collection_commit_check(reg, cm, o) == Err::<
                    (),
                    MintError,
                >(MintError::ExternalServiceRejected)
            &&& forall|o: Seq<bool>|
                !all_succeeded(o, 9) ==> member_commit_check(reg1, mm, o) == Err::<(), MintError>(
                    MintError::ExternalServiceRejected,
                )
        }),
{
    let cm = planned_collection_mint(reg, cctx, name, symbol, image, uri);
    let reg1 = after_collection_commit(reg, cm, ccreated);
    let mm = planned_member_mint(reg1, mctx, member_name, member_image, member_uri);
    assert(cm.requests.len() == 9);
    assert(mm.requests.len() == 9);
    assert(reg1.collections.contains_key(cctx.collection_pda@));
    assert(reg1.collections[cctx.collection_pda@].token_mint == mctx.collection_token_mint@);
}

/// A member mint plans its collection-verification request only for a collection whose record
/// exists at the canonical address of its own seeds, and whose master edition was published, at
/// the address that the metadata registry derives for that collection's mint.
pub proof fn lemma_verification_needs_published_edition(
    reg: RegistryView,
    ctx: MintNftFromCollection,
    name: Seq<char>,
    image: Seq<char>,
    uri: Seq<char>,
    i: int,
)
    requires
        reg.editions_published(),
        member_mint_check(reg, ctx, name, image, uri) is Ok,
        0 <= i < planned_member_mint(reg, ctx, name, image, uri).requests.len(),
        planned_member_mint(reg, ctx, name, image, uri).requests[i] is SetAndVerifyCollection,
    ensures
        ({
            let r = planned_member_mint(reg, ctx, name, image, uri).requests[i];
            &&& reg.collections.contains_key(r->collection_authority@)
            &&& derives(
                collection_seeds(
                    reg.collections[r->collection_authority@].owner,
                    reg.collections[r->collection_authority@].sequence,
                ),
                reg.program_id,
                r->collection_authority,
            )
            &&& reg.collections[r->collection_authority@].token_mint == r->collection_mint@
            &&& reg.editions.contains(r->collection_mint@)
            &&& derives(
                edition_seeds(reg.metadata_program, r->collection_mint@),
                reg.metadata_program,
                r->collection_master_edition,
            )
        }),
{
    let plan = planned_member_mint(reg, ctx, name, image, uri).requests;
    assert(plan.len() == 9);
    assert(i == 8);
}

/// A collection mint whose record would exceed the record budget is refused before it makes
/// any request.
pub proof fn lemma_record_budget(
    reg: RegistryView,
    ctx: MintCollection,
    name: Seq<char>,
    symbol: Seq<char>,
    image: Seq<char>,
    uri: Seq<char>,
)
    requires
        collection_space(name, symbol, image) > MAX_RECORD_SPACE,
    ensures
        collection_mint_check(reg, ctx, name, symbol, image, uri) is Err,
{
}

} // verus!

verus! {

/// Once a collection mint has been written, another mint aimed at the same collection address,
/// that is the same owner and sequence number, is refused as already initialized before it
/// makes any request; and one prepared before the first was written cannot be written either.
pub proof fn lemma_same_seeds_refused(
    reg: RegistryView,
    ctx: MintCollection,
    name: Seq<char>,
    symbol: Seq<char>,
    image: Seq<char>,
    uri: Seq<char>,
    outcomes: Seq<bool>,
    created: i64,
    other: MintCollection,
    other_name: Seq<char>,
    other_symbol: Seq<char>,
    other_image: Seq<char>,
    other_uri: Seq<char>,
    other_plan: CollectionMintView,
    other_outcomes: Seq<bool>,
)
    requires
        collection_mint_check(reg, ctx, name, symbol, image, uri) is Ok,
        all_succeeded(outcomes, 9),
        other.collection_pda == ctx.collection_pda,
        other_plan.ctx.collection_pda == ctx.collection_pda,
        other_plan.program_id == reg.program_id,
        other_plan.ctx.token_metadata_program@ == reg.metadata_program,
        all_succeeded(other_outcomes, other_plan.requests.len() as int),
    ensures
        ({
            let reg1 = after_collection_commit(
                reg,
                planned_collection_mint(reg, ctx, name, symbol, image, uri),
                created,
            );
            &&& collection_mint_check(reg1, other, other_name, other_symbol, other_image, other_uri)
                == Err::<(), MintError>(MintError::AlreadyInitialized)
            &&& collection_commit_check(reg1, other_plan, other_outcomes) == Err::<(), MintError>(
                MintError::AlreadyInitialized,
            )
        }),
{
}

} // verus!

verus! {

/// A collection mint whose requests all succeed writes a collection owned by the signing mint
/// authority, with the given name, symbol and image, the new mint, and no members; its plan
/// initialises the mint with no decimals under that authority, issues exactly one unit, and
/// publishes the master edition with no further supply. A member mint into it that succeeds
/// writes a member bound to the collection's mint, raises the member count to one, registers
/// the member's metadata under the collection's symbol, and ends by verifying the collection.
pub proof fn lemma_mint_outcomes(
    reg: RegistryView,
    cctx: MintCollection,
    name: Seq<char>,
    symbol: Seq<char>,
    image: Seq<char>,
    uri: Seq<char>,
    coutcomes: Seq<bool>,
    ccreated: i64,
    mctx: MintNftFromCollection,
    member_name: Seq<char>,
    member_image: Seq<char>,
    member_uri: Seq<char>,
    moutcomes: Seq<bool>,
    mcreated: i64,
)
    requires
        collection_mint_check(reg, cctx, name, symbol, image, uri) is Ok,
        all_succeeded(coutcomes, 9),
        mctx.collection_pda == cctx.collection_pda,
        member_mint_check(
            after_collection_commit(
                reg,
                planned_collection_mint(reg, cctx, name, symbol, image, uri),
                ccreated,
            ),
            mctx,
            member_name,
            member_image,
            member_uri,
        ) is Ok,
        all_succeeded(moutcomes, 9),
    ensures
        ({
            let cm = planned_collection_mint(reg, cctx, name, symbol, image, uri);
            let reg1 = after_collection_commit(reg, cm, ccreated);
            let c = reg1.collections[cctx.collection_pda@];
            let mm = planned_member_mint(reg1, mctx, member_name, member_image, member_uri);
            let reg2 = after_member_commit(reg1, mm, mcreated);
            let n = reg2.members[mctx.nft_pda@];
            &&& c.owner == cctx.mint_authority@
            &&& c.token_mint == cctx.mint@
            &&& c.name == name && c.symbol == symbol && c.ipfs_image_hash == image
            &&& c.member_count == 0
            &&& cm.requests[1] == (RequestView::InitializeMint {
                mint: cctx.mint,
                decimals: 0,
                mint_authority: cctx.mint_authority,
                freeze_authority: Some(cctx.mint_authority),
            })
            &&& cm.requests[3] == (RequestView::MintTo {
                mint: cctx.mint,
                to: cctx.token_account,
                authority: cctx.mint_authority,
                amount: 1,
            })
            &&& forall|i: int| 0 <= i < 9 && i != 3 ==> !(#[trigger] cm.requests[i] is MintTo)
            &&& cm.requests[6] is CreateMasterEdition && cm.requests[6]->CreateMasterEdition_max_supply
                == Some(0u64)
            &&& n.collection_mint == c.token_mint
            &&& n.token_mint == mctx.mint@
            &&& n.name == member_name
            &&& reg2.collections[cctx.collection_pda@].member_count == 1
            &&& mm.requests[4] is CreateMetadata && mm.requests[4]->CreateMetadata_symbol == symbol
                && mm.requests[4]->CreateMetadata_uri == member_uri
            &&& mm.requests.last() is SetAndVerifyCollection
            &&& mm.requests.last()->SetAndVerifyCollection_metadata == mctx.metadata
            &&& mm.requests.last()->SetAndVerifyCollection_collection_mint@ == c.token_mint
        }),
{
    let cm = planned_collection_mint(reg, cctx, name, symbol, image, uri);
    let reg1 = after_collection_commit(reg, cm, ccreated);
    let mm = planned_member_mint(reg1, mctx, member_name, member_image, member_uri);
    assert(cm.requests.len() == 9);
    assert(mm.requests.len() == 9);
    assert(reg1.collections.contains_key(cctx.collection_pda@));
}

} // verus!

use vstd::prelude::*;
use vstd::string::StringSliceAdditionalSpecFns;
use crate::address::{
    collection_seed_list, collection_seeds, edition_seed_list, edition_seeds,
    member_seed_list, member_seeds, metadata_seed_list, metadata_seeds, seeds_view,
    Address,
};
use crate::collection::{
    all_succeeded, canonical_bump, check_derived, derives, utf8_len, MintError, MAX_NAME_LENGTH,
    MAX_RECORD_SPACE, MAX_URI_LENGTH,
};
use crate::records::{nft_space, CollectionView, NftAccount, NftView};
use crate::registry::{Registry, RegistryView};
use crate::requests::{
    issue_unit_plan, issue_unit_requests, requests_view, sole_creator, sole_creator_list,
    ImplicitSigner, MetadataData, MetadataDataView, Request, RequestView,
};

verus! {

/// The accounts of a member mint.
#[derive(Clone, Copy, Debug)]
pub struct MintNftFromCollection {
    pub mint: Address,
    pub mint_authority: Address,
    pub payer: Address,
    pub system_program: Address,
    pub token_program: Address,
    pub token_account: Address,
    pub associated_token_program: Address,
    pub token_metadata_program: Address,
    pub nft_pda: Address,
    pub master_edition: Address,
    pub metadata: Address,
    pub collection_token_mint: Address,
    pub collection_pda: Address,
    pub collection_metadata: Address,
    pub collection_master_ed: Address,
    pub collection_authority_record: Address,
}

/// The seeds, bump included, by which the collection record `c` signs for itself.
pub open spec fn collection_signer(c: CollectionView) -> Seq<Seq<u8>> {
    collection_seeds(c.owner, c.sequence).push(seq![c.bump])
}

/// Whether a member mint may start, and if not, why.
pub open spec fn member_mint_check(
    reg: RegistryView,
    ctx: MintNftFromCollection,
    name: Seq<char>,
    image: Seq<char>,
    uri: Seq<char>,
) -> Result<(), MintError> {
    let mp = reg.metadata_program;
    if reg.members.contains_key(ctx.nft_pda@) {
        Err(MintError::AlreadyInitialized)
    } else if ctx.token_metadata_program@ != mp {
        Err(MintError::AddressMismatch)
    } else if !reg.collections.contains_key(ctx.collection_pda@) {
        Err(MintError::UnknownCollection)
    } else {
        let c = reg.collections[ctx.collection_pda@];
        if !derives(collection_seeds(c.owner, c.sequence), reg.program_id, ctx.collection_pda)
            || canonical_bump(collection_seeds(c.owner, c.sequence), reg.program_id) != c.bump
            || ctx.collection_token_mint@ != c.token_mint || !derives(
            metadata_seeds(mp, c.token_mint),
            mp,
            ctx.collection_metadata,
        ) || !derives(edition_seeds(mp, c.token_mint), mp, ctx.collection_master_ed) || !derives(
            metadata_seeds(mp, ctx.mint@),
            mp,
            ctx.metadata,
        ) || !derives(edition_seeds(mp, ctx.mint@), mp, ctx.master_edition) || !derives(
            member_seeds(ctx.collection_pda@, ctx.mint@),
            reg.program_id,
            ctx.nft_pda,
        ) {
            Err(MintError::AddressMismatch)
        } else if utf8_len(name) > MAX_NAME_LENGTH || utf8_len(uri) > MAX_URI_LENGTH || nft_space(
            name,
            image,
        ) > MAX_RECORD_SPACE {
            Err(MintError::SizeMiscalculation)
        } else if c.member_count == u16::MAX {
            Err(MintError::CounterOverflow)
        } else {
            Ok(())
        }
    }
}

/// The requests of a member mint, in order: the member's metadata takes the collection's
/// `symbol`, and `signer` is the collection record's own seeds.
pub open spec fn member_plan(
    ctx: MintNftFromCollection,
    name: Seq<char>,
    symbol: Seq<char>,
    uri: Seq<char>,
    signer: Seq<Seq<u8>>,
) -> Seq<RequestView> {
    issue_unit_plan(ctx.mint, ctx.mint_authority, ctx.token_program, ctx.token_account) + seq![
        RequestView::CreateMetadata {
            metadata: ctx.metadata,
            mint: ctx.mint,
            mint_authority: ctx.mint_authority,
            payer: ctx.payer,
            update_authority: ctx.mint_authority,
            name,
            symbol,
            uri,
            creators: None,
            seller_fee_basis_points: 0,
            update_authority_is_signer: true,
            is_mutable: true,
        },
        RequestView::CreateMasterEdition {
            edition: ctx.master_edition,
            mint: ctx.mint,
            update_authority: ctx.mint_authority,
            mint_authority: ctx.mint_authority,
            metadata: ctx.metadata,
            payer: ctx.payer,
            max_supply: Some(0),
        },
        RequestView::UpdateMetadata {
            metadata: ctx.metadata,
            update_authority: ctx.mint_authority,
            new_update_authority: Some(ctx.collection_pda),
            data: Some(
                MetadataDataView {
                    name,
                    symbol,
                    uri,
                    creators: Some(sole_creator(ctx.mint_authority)),
                    seller_fee_basis_points: 0,
                },
            ),
            primary_sale_happened: Some(true),
            is_mutable: Some(true),
        },
        RequestView::SignMetadata {
            metadata: ctx.metadata,
            creator: ctx.mint_authority,
            signer: Some(signer),
        },
        RequestView::SetAndVerifyCollection {
            metadata: ctx.metadata,
            collection_authority: ctx.collection_pda,
            payer: ctx.payer,
            update_authority: ctx.collection_pda,
            collection_mint: ctx.collection_token_mint,
            collection_metadata: ctx.collection_metadata,
            collection_master_edition: ctx.collection_master_ed,
            authority_record: None,
            signer,
        },
    ]
}

fn copy_seeds(seeds: &Vec<Vec<u8>>) -> (r: ImplicitSigner)
    ensures
        r@ == seeds_view(seeds@),
{
    let mut out: Vec<Vec<u8>> = Vec::new();
    let mut i: usize = 0;
    while i < seeds.len()
        invariant
            0 <= i <= seeds@.len(),
            out@.len() == i,
            forall|j: int| 0 <= j < i ==> #[trigger] out@[j]@ == seeds@[j]@,
        decreases seeds@.len() - i,
    {
        out.push(vstd::slice::slice_to_vec(seeds[i].as_slice()));
        i = i + 1;
    }
    assert(seeds_view(out@) =~= seeds_view(seeds@));
    ImplicitSigner { seeds: out }
}

fn member_requests(
    ctx: &MintNftFromCollection,
    name: &str,
    symbol: &str,
    uri: &str,
    signer: &Vec<Vec<u8>>,
) -> (r: Vec<Request>)
    ensures
        requests_view(r@) == member_plan(*ctx, name@, symbol@, uri@, seeds_view(signer@)),
{
    let mut r = issue_unit_requests(ctx.mint, ctx.mint_authority, ctx.token_program, ctx.token_account);
    r.push(
        Request::CreateMetadata {
            metadata: ctx.metadata,
            mint: ctx.mint,
            mint_authority: ctx.mint_authority,
            payer: ctx.payer,
            update_authority: ctx.mint_authority,
            name: name.to_owned(),
            symbol: symbol.to_owned(),
            uri: uri.to_owned(),
            creators: None,
            seller_fee_basis_points: 0,
            update_authority_is_signer: true,
            is_mutable: true,
        },
    );
    r.push(
        Request::CreateMasterEdition {
            edition: ctx.master_edition,
            mint: ctx.mint,
            update_authority: ctx.mint_authority,
            mint_authority: ctx.mint_authority,
            metadata: ctx.metadata,
            payer: ctx.payer,
            max_supply: Some(0),
        },
    );
    r.push(
        Request::UpdateMetadata {
            metadata: ctx.metadata,
            update_authority: ctx.mint_authority,
            new_update_authority: Some(ctx.collection_pda),
            data: Some(
                MetadataData {
                    name: name.to_owned(),
                    symbol: symbol.to_owned(),
                    uri: uri.to_owned(),
                    creators: Some(sole_creator_list(ctx.mint_authority)),
                    seller_fee_basis_points: 0,
                },
            ),
            primary_sale_happened: Some(true),
            is_mutable: Some(true),
        },
    );
    r.push(
        Request::SignMetadata {
            metadata: ctx.metadata,
            creator: ctx.mint_authority,
            signer: Some(copy_seeds(signer)),
        },
    );
    r.push(
        Request::SetAndVerifyCollection {
            metadata: ctx.metadata,
            collection_authority: ctx.collection_pda,
            payer: ctx.payer,
            update_authority: ctx.collection_pda,
            collection_mint: ctx.collection_token_mint,
            collection_metadata: ctx.collection_metadata,
            collection_master_edition: ctx.collection_master_ed,
            authority_record: None,
            signer: copy_seeds(signer),
        },
    );
    assert(requests_view(r@) =~= member_plan(*ctx, name@, symbol@, uri@, seeds_view(signer@)));
    r
}

} // verus!

verus! {

/// A member mint that passed its checks: the requests to make, and the records to write once
/// every request has succeeded.
pub struct MemberMint {
    ctx: MintNftFromCollection,
    program_id: Address,
    member_bump: u8,
    signer: Vec<Vec<u8>>,
    record: NftAccount,
    symbol: String,
    uri: String,
    requests: Vec<Request>,
}

pub struct MemberMintView {
    pub ctx: MintNftFromCollection,
    pub program_id: Seq<u8>,
    pub member_bump: u8,
    pub signer: Seq<Seq<u8>>,
    pub record: NftView,
    pub symbol: Seq<char>,
    pub uri: Seq<char>,
    pub requests: Seq<RequestView>,
}

impl View for MemberMint {
    type V = MemberMintView;

    closed spec fn view(&self) -> MemberMintView {
        MemberMintView {
            ctx: self.ctx,
            program_id: self.program_id@,
            member_bump: self.member_bump,
            signer: seeds_view(self.signer@),
            record: self.record@,
            symbol: self.symbol@,
            uri: self.uri@,
            requests: requests_view(self.requests@),
        }
    }
}

/// The member mint that `mint_nft_from_collection` prepares when its checks pass.
pub open spec fn planned_member_mint(
    reg: RegistryView,
    ctx: MintNftFromCollection,
    name: Seq<char>,
    image: Seq<char>,
    uri: Seq<char>,
) -> MemberMintView {
    let c = reg.collections[ctx.collection_pda@];
    MemberMintView {
        ctx,
        program_id: reg.program_id,
        member_bump: canonical_bump(member_seeds(ctx.collection_pda@, ctx.mint@), reg.program_id),
        signer: collection_signer(c),
        record: NftView {
            token_mint: ctx.mint@,
            collection_mint: ctx.collection_token_mint@,
            created: 0,
            name,
            ipfs_image_hash: image,
        },
        symbol: c.symbol,
        uri,
        requests: member_plan(ctx, name, c.symbol, uri, collection_signer(c)),
    }
}

/// Whether the records of a member mint may be written after its requests, and if not, why.
pub open spec fn member_commit_check(
    reg: RegistryView,
    m: MemberMintView,
    outcomes: Seq<bool>,
) -> Result<(), MintError> {
    if !all_succeeded(outcomes, m.requests.len() as int) {
        Err(MintError::ExternalServiceRejected)
    } else if reg.program_id != m.program_id || reg.metadata_program != m.ctx.token_metadata_program@ {
        Err(MintError::AddressMismatch)
    } else if !reg.collections.contains_key(m.ctx.collection_pda@)
        || reg.collections[m.ctx.collection_pda@].token_mint != m.ctx.collection_token_mint@ {
        Err(MintError::UnknownCollection)
    } else if reg.members.contains_key(m.ctx.nft_pda@) {
        Err(MintError::AlreadyInitialized)
    } else if reg.collections[m.ctx.collection_pda@].member_count == u16::MAX {
        Err(MintError::CounterOverflow)
    } else {
        Ok(())
    }
}

/// The registry after a member mint is written at time `created`.
pub open spec fn after_member_commit(reg: RegistryView, m: MemberMintView, created: i64) -> RegistryView {
    let c = reg.collections[m.ctx.collection_pda@];
    RegistryView {
        members: reg.members.insert(m.ctx.nft_pda@, NftView { created, ..m.record }),
        collections: reg.collections.insert(
            m.ctx.collection_pda@,
            CollectionView { member_count: (c.member_count + 1) as u16, ..c },
        ),
        ..reg
    }
}

impl MemberMint {
    #[verifier::type_invariant]
    spec fn inv(&self) -> bool {
        &&& self.record.wf()
        &&& self.record.token_mint == self.ctx.mint
        &&& self.record.collection_mint == self.ctx.collection_token_mint
        &&& requests_view(self.requests@) == member_plan(
            self.ctx,
            self.record.name@,
            self.symbol@,
            self.uri@,
            seeds_view(self.signer@),
        )
    }

    /// The requests to make, in order.
    pub fn requests(&self) -> (r: &Vec<Request>)
        ensures
            requests_view(r@) == self@.requests,
    {
        &self.requests
    }

    /// The member record to be written, with its creation time still unset.
    pub fn record(&self) -> (r: &NftAccount)
        ensures
            r@ == self@.record,
    {
        &self.record
    }

    /// Where the member record goes.
    pub fn member_address(&self) -> (r: Address)
        ensures
            r == self@.ctx.nft_pda,
    {
        self.ctx.nft_pda
    }

    /// The bump of the member record's address.
    pub fn member_bump(&self) -> (r: u8)
        ensures
            r == self@.member_bump,
    {
        self.member_bump
    }

    /// Writes the records of a member mint whose requests have been made, `outcomes` telling
    /// which succeeded; `created` is the time of the mint.
    pub fn commit(self, reg: &mut Registry, outcomes: &Vec<bool>, created: i64) -> (r: Result<
        Address,
        MintError,
    >)
        requires
            old(reg).wf(),
        ensures
            final(reg).wf(),
            match member_commit_check(old(reg)@, self@, outcomes@) {
                Err(e) => r == Err::<Address, MintError>(e) && final(reg)@ == old(reg)@,
                Ok(()) => r == Ok::<Address, MintError>(self@.ctx.nft_pda) && final(reg)@
                    == after_member_commit(old(reg)@, self@, created),
            },
    {
        proof { use_type_invariant(&self); }
        let n = self.requests.len();
        if outcomes.len() != n {
            return Err(MintError::ExternalServiceRejected);
        }
        let mut i: usize = 0;
        while i < n
            invariant
                0 <= i <= n,
                outcomes@.len() == n,
                forall|j: int| 0 <= j < i ==> #[trigger] outcomes@[j],
                reg.wf(),
                reg@ == old(reg)@,
            decreases n - i,
        {
            if !outcomes[i] {
                return Err(MintError::ExternalServiceRejected);
            }
            i = i + 1;
        }
        if !reg.program_id().same(&self.program_id) || !reg.metadata_program().same(
            &self.ctx.token_metadata_program,
        ) {
            return Err(MintError::AddressMismatch);
        }
        let updated = match reg.find_collection(&self.ctx.collection_pda) {
            Some(c) => {
                if !c.token_mint.same(&self.ctx.collection_token_mint) {
                    return Err(MintError::UnknownCollection);
                }
                if reg.find_member(&self.ctx.nft_pda).is_some() {
                    return Err(MintError::AlreadyInitialized);
                }
                if c.member_count == u16::MAX {
                    return Err(MintError::CounterOverflow);
                }
                c.with_member_count(c.member_count + 1)
            },
            None => return Err(MintError::UnknownCollection),
        };
        let ctx = self.ctx;
        let mut record = self.record;
        record.created = created;
        reg.replace_collection(ctx.collection_pda, updated);
        reg.insert_member(ctx.nft_pda, record);
        proof {
            assert(reg@.members =~= after_member_commit(old(reg)@, self@, created).members);
            assert(reg@.collections =~= after_member_commit(old(reg)@, self@, created).collections);
        }
        Ok(ctx.nft_pda)
    }
}

/// Checks a member mint of `nft_name` and `ipfs_image_hash`, with metadata at `metadata_uri`,
/// into the collection whose record is at `ctx.collection_pda`, and prepares its requests and
/// records.
pub fn mint_nft_from_collection(
    reg: &Registry,
    ctx: &MintNftFromCollection,
    nft_name: &str,
    ipfs_image_hash: &str,
    metadata_uri: &str,
) -> (r: Result<MemberMint, MintError>)
    requires
        reg.wf(),
    ensures
        match member_mint_check(reg@, *ctx, nft_name@, ipfs_image_hash@, metadata_uri@) {
            Err(e) => r == Err::<MemberMint, MintError>(e),
            Ok(()) => r is Ok && r->Ok_0@ == planned_member_mint(
                reg@,
                *ctx,
                nft_name@,
                ipfs_image_hash@,
                metadata_uri@,
            ),
        },
{
    let program_id = reg.program_id();
    let mp = reg.metadata_program();
    if reg.find_member(&ctx.nft_pda).is_some() {
        return Err(MintError::AlreadyInitialized);
    }
    if !ctx.token_metadata_program.same(&mp) {
        return Err(MintError::AddressMismatch);
    }
    let c = match reg.find_collection(&ctx.collection_pda) {
        Some(c) => c,
        None => return Err(MintError::UnknownCollection),
    };
    let mut signer = collection_seed_list(&c.owner, c.sequence);
    let mut bump_seed: Vec<u8> = Vec::new();
    bump_seed.push(c.bump);
    signer.push(bump_seed);
    assert(seeds_view(signer@) =~= collection_signer(c@));
    match check_derived(&collection_seed_list(&c.owner, c.sequence), &program_id, &ctx.collection_pda) {
        Some(b) => {
            if b != c.bump {
                return Err(MintError::AddressMismatch);
            }
        },
        None => return Err(MintError::AddressMismatch),
    }
    if !ctx.collection_token_mint.same(&c.token_mint) {
        return Err(MintError::AddressMismatch);
    }
    if check_derived(&metadata_seed_list(&mp, &c.token_mint), &mp, &ctx.collection_metadata).is_none() {
        return Err(MintError::AddressMismatch);
    }
    if check_derived(&edition_seed_list(&mp, &c.token_mint), &mp, &ctx.collection_master_ed).is_none() {
        return Err(MintError::AddressMismatch);
    }
    if check_derived(&metadata_seed_list(&mp, &ctx.mint), &mp, &ctx.metadata).is_none() {
        return Err(MintError::AddressMismatch);
    }
    if check_derived(&edition_seed_list(&mp, &ctx.mint), &mp, &ctx.master_edition).is_none() {
        return Err(MintError::AddressMismatch);
    }
    let member_bump = match check_derived(
        &member_seed_list(&ctx.collection_pda, &ctx.mint),
        &program_id,
        &ctx.nft_pda,
    ) {
        Some(b) => b,
        None => return Err(MintError::AddressMismatch),
    };
    if nft_name.as_bytes().len() > MAX_NAME_LENGTH || metadata_uri.as_bytes().len() > MAX_URI_LENGTH
        || ipfs_image_hash.as_bytes().len() > MAX_RECORD_SPACE {
        return Err(MintError::SizeMiscalculation);
    }
    let space = NftAccount::get_space(nft_name, ipfs_image_hash);
    if space > MAX_RECORD_SPACE {
        return Err(MintError::SizeMiscalculation);
    }
    if c.member_count == u16::MAX {
        return Err(MintError::CounterOverflow);
    }
    let record = NftAccount {
        token_mint: ctx.mint,
        collection_mint: ctx.collection_token_mint,
        created: 0,
        name: nft_name.to_owned(),
        ipfs_image_hash: ipfs_image_hash.to_owned(),
    };
    let symbol = c.symbol.clone();
    let requests = member_requests(ctx, nft_name, symbol.as_str(), metadata_uri, &signer);
    Ok(
        MemberMint {
            ctx: *ctx,
            program_id,
            member_bump,
            signer,
            record,
            symbol,
            uri: metadata_uri.to_owned(),
            requests,
        },
    )
}

} // verus!

use vstd::prelude::*;
use vstd::string::StringSliceAdditionalSpecFns;
use vstd::utf8::encode_utf8;
use crate::address::{
    canonical_address, collection_seed_list, collection_seeds, derive_address, edition_seed_list,
    edition_seeds, metadata_seed_list, metadata_seeds, seeds_fit, seeds_view, user_seed_list, user_seeds,
    Address,
};
use crate::records::{collection_space, CollectionAccount, CollectionView, UserAccount};
use crate::registry::{Registry, RegistryView};
use crate::requests::{
    issue_unit_plan, issue_unit_requests, requests_view, sole_creator, sole_creator_list, Request,
    RequestView,
};

verus! {

/// Longest name, in bytes, that the metadata registry takes.
pub const MAX_NAME_LENGTH: usize = 32;

/// Longest symbol, in bytes, that the metadata registry takes.
pub const MAX_SYMBOL_LENGTH: usize = 10;

/// Longest URI, in bytes, that the metadata registry takes.
pub const MAX_URI_LENGTH: usize = 200;

/// Largest record that a program may create in one call.
pub const MAX_RECORD_SPACE: usize = 10240;

/// Why a mint is refused.
#[derive(Clone, Copy, Debug, PartialEq, Eq, Structural)]
pub enum MintError {
    /// The derived address already holds a record.
    AlreadyInitialized,
    /// A request to the token program or the metadata registry was declined.
    ExternalServiceRejected,
    /// An account is not the one its seeds derive.
    AddressMismatch,
    /// The collection named by a member mint has no record.
    UnknownCollection,
    /// A string is longer than its field or the record budget allows.
    SizeMiscalculation,
    /// A counter is at its largest value.
    CounterOverflow,
}

/// The accounts of a collection mint.
#[derive(Clone, Copy, Debug)]
pub struct MintCollection {
    pub mint: Address,
    pub mint_authority: Address,
    pub payer: Address,
    pub system_program: Address,
    pub token_program: Address,
    pub token_account: Address,
    pub associated_token_program: Address,
    pub token_metadata_program: Address,
    pub master_edition: Address,
    pub metadata: Address,
    pub collection_authority_record: Address,
    pub collection_pda: Address,
    pub user_pda: Address,
}

/// Whether `addr` is the canonical address of `seeds` under `program`.
pub open spec fn derives(seeds: Seq<Seq<u8>>, program: Seq<u8>, addr: Address) -> bool {
    match canonical_address(seeds, program) {
        Some((a, _)) => a == addr@,
        None => false,
    }
}

/// The canonical bump of `seeds` under `program`.
pub open spec fn canonical_bump(seeds: Seq<Seq<u8>>, program: Seq<u8>) -> u8 {
    match canonical_address(seeds, program) {
        Some((_, b)) => b,
        None => 0,
    }
}

pub open spec fn utf8_len(s: Seq<char>) -> int {
    encode_utf8(s).len() as int
}

/// The sequence number that the next collection of the user record `user` gets.
pub open spec fn next_sequence(reg: RegistryView, user: Seq<u8>) -> u64 {
    if reg.users.contains_key(user) {
        reg.users[user].collection_count
    } else {
        0
    }
}

/// Whether a collection mint may start, and if not, why.
pub open spec fn collection_mint_check(
    reg: RegistryView,
    ctx: MintCollection,
    name: Seq<char>,
    symbol: Seq<char>,
    image: Seq<char>,
    uri: Seq<char>,
) -> Result<(), MintError> {
    let mp = reg.metadata_program;
    if reg.collections.contains_key(ctx.collection_pda@) {
        Err(MintError::AlreadyInitialized)
    } else if ctx.token_metadata_program@ != mp || !derives(
        user_seeds(ctx.mint_authority@),
        reg.program_id,
        ctx.user_pda,
    ) || !derives(
        collection_seeds(ctx.mint_authority@, next_sequence(reg, ctx.user_pda@)),
        reg.program_id,
        ctx.collection_pda,
    ) || !derives(metadata_seeds(mp, ctx.mint@), mp, ctx.metadata) || !derives(
        edition_seeds(mp, ctx.mint@),
        mp,
        ctx.master_edition,
    ) {
        Err(MintError::AddressMismatch)
    } else if utf8_len(name) > MAX_NAME_LENGTH || utf8_len(symbol) > MAX_SYMBOL_LENGTH || utf8_len(uri)
        > MAX_URI_LENGTH || collection_space(name, symbol, image) > MAX_RECORD_SPACE {
        Err(MintError::SizeMiscalculation)
    } else if next_sequence(reg, ctx.user_pda@) == u64::MAX {
        Err(MintError::CounterOverflow)
    } else {
        Ok(())
    }
}

/// The requests of a collection mint, in the order in which they are made.
pub open spec fn collection_plan(
    ctx: MintCollection,
    name: Seq<char>,
    symbol: Seq<char>,
    uri: Seq<char>,
) -> Seq<RequestView> {
    issue_unit_plan(ctx.mint, ctx.mint_authority, ctx.token_program, ctx.token_account) + seq![
        RequestView::CreateMetadata {
            metadata: ctx.metadata,
            mint: ctx.mint,
            mint_authority: ctx.mint_authority,
            payer: ctx.payer,
            update_authority: ctx.mint_authority,
            name,
            symbol,
            uri,
            creators: Some(sole_creator(ctx.mint_authority)),
            seller_fee_basis_points: 0,
            update_authority_is_signer: true,
            is_mutable: true,
        },
        RequestView::SignMetadata { metadata: ctx.metadata, creator: ctx.mint_authority, signer: None },
        RequestView::CreateMasterEdition {
            edition: ctx.master_edition,
            mint: ctx.mint,
            update_authority: ctx.mint_authority,
            mint_authority: ctx.mint_authority,
            metadata: ctx.metadata,
            payer: ctx.payer,
            max_supply: Some(0),
        },
        RequestView::ApproveCollectionAuthority {
            authority_record: ctx.collection_authority_record,
            new_authority: ctx.collection_pda,
            update_authority: ctx.mint_authority,
            payer: ctx.mint_authority,
            metadata: ctx.metadata,
            mint: ctx.mint,
        },
        RequestView::UpdateMetadata {
            metadata: ctx.metadata,
            update_authority: ctx.mint_authority,
            new_update_authority: Some(ctx.collection_pda),
            data: None,
            primary_sale_happened: Some(true),
            is_mutable: Some(true),
        },
    ]
}

fn collection_requests(ctx: &MintCollection, name: &str, symbol: &str, uri: &str) -> (r: Vec<Request>)
    ensures
        requests_view(r@) == collection_plan(*ctx, name@, symbol@, uri@),
{
    let mut r = issue_unit_requests(ctx.mint, ctx.mint_authority, ctx.token_program, ctx.token_account);
    r.push(
        Request::CreateMetadata {
            metadata: ctx.metadata,
            mint: ctx.mint,
            mint_authority: ctx.mint_authority,
            payer: ctx.payer,
            update_authority: ctx.mint_authority,
            name: name.to_owned(),
            symbol: symbol.to_owned(),
            uri: uri.to_owned(),
            creators: Some(sole_creator_list(ctx.mint_authority)),
            seller_fee_basis_points: 0,
            update_authority_is_signer: true,
            is_mutable: true,
        },
    );
    r.push(Request::SignMetadata { metadata: ctx.metadata, creator: ctx.mint_authority, signer: None });
    r.push(
        Request::CreateMasterEdition {
            edition: ctx.master_edition,
            mint: ctx.mint,
            update_authority: ctx.mint_authority,
            mint_authority: ctx.mint_authority,
            metadata: ctx.metadata,
            payer: ctx.payer,
            max_supply: Some(0),
        },
    );
    r.push(
        Request::ApproveCollectionAuthority {
            authority_record: ctx.collection_authority_record,
            new_authority: ctx.collection_pda,
            update_authority: ctx.mint_authority,
            payer: ctx.mint_authority,
            metadata: ctx.metadata,
            mint: ctx.mint,
        },
    );
    r.push(
        Request::UpdateMetadata {
            metadata: ctx.metadata,
            update_authority: ctx.mint_authority,
            new_update_authority: Some(ctx.collection_pda),
            data: None,
            primary_sale_happened: Some(true),
            is_mutable: Some(true),
        },
    );
    assert(requests_view(r@) =~= collection_plan(*ctx, name@, symbol@, uri@));
    r
}

} // verus!

verus! {

/// Checks that `expected` is the canonical address of `seeds` under `program`, and gives its bump.
pub(crate) fn check_derived(seeds: &Vec<Vec<u8>>, program: &Address, expected: &Address) -> (r: Option<u8>)
    requires
        seeds_fit(seeds_view(seeds@)),
    ensures
        r is Some == derives(seeds_view(seeds@), program@, *expected),
        r matches Some(b) ==> b == canonical_bump(seeds_view(seeds@), program@),
{
    match derive_address(seeds, program) {
        Some((a, b)) => {
            if a.same(expected) {
                Some(b)
            } else {
                None
            }
        },
        None => None,
    }
}

/// A collection mint that passed its checks: the requests to make, and the records to write
/// once every request has succeeded.
pub struct CollectionMint {
    ctx: MintCollection,
    program_id: Address,
    user_bump: u8,
    record: CollectionAccount,
    uri: String,
    requests: Vec<Request>,
}

pub struct CollectionMintView {
    pub ctx: MintCollection,
    pub program_id: Seq<u8>,
    pub user_bump: u8,
    pub record: CollectionView,
    pub uri: Seq<char>,
    pub requests: Seq<RequestView>,
}

impl View for CollectionMint {
    type V = CollectionMintView;

    closed spec fn view(&self) -> CollectionMintView {
        CollectionMintView {
            ctx: self.ctx,
            program_id: self.program_id@,
            user_bump: self.user_bump,
            record: self.record@,
            uri: self.uri@,
            requests: requests_view(self.requests@),
        }
    }
}

/// The collection mint that `mint_collection` prepares when its checks pass.
pub open spec fn planned_collection_mint(
    reg: RegistryView,
    ctx: MintCollection,
    name: Seq<char>,
    symbol: Seq<char>,
    image: Seq<char>,
    uri: Seq<char>,
) -> CollectionMintView {
    let sequence = next_sequence(reg, ctx.user_pda@);
    CollectionMintView {
        ctx,
        program_id: reg.program_id,
        user_bump: canonical_bump(user_seeds(ctx.mint_authority@), reg.program_id),
        record: CollectionView {
            owner: ctx.mint_authority@,
            token_mint: ctx.mint@,
            sequence,
            member_count: 0,
            bump: canonical_bump(collection_seeds(ctx.mint_authority@, sequence), reg.program_id),
            created: 0,
            name,
            symbol,
            ipfs_image_hash: image,
        },
        uri,
        requests: collection_plan(ctx, name, symbol, uri),
    }
}

/// Whether every one of `n` requests succeeded.
pub open spec fn all_succeeded(outcomes: Seq<bool>, n: int) -> bool {
    outcomes.len() == n && forall|i: int| 0 <= i < n ==> #[trigger] outcomes[i]
}

/// Whether the records of a collection mint may be written after its requests, and if not, why.
pub open spec fn collection_commit_check(
    reg: RegistryView,
    m: CollectionMintView,
    outcomes: Seq<bool>,
) -> Result<(), MintError> {
    if !all_succeeded(outcomes, m.requests.len() as int) {
        Err(MintError::ExternalServiceRejected)
    } else if reg.program_id != m.program_id || reg.metadata_program != m.ctx.token_metadata_program@ {
        Err(MintError::AddressMismatch)
    } else if reg.collections.contains_key(m.ctx.collection_pda@) || next_sequence(
        reg,
        m.ctx.user_pda@,
    ) != m.record.sequence {
        Err(MintError::AlreadyInitialized)
    } else {
        Ok(())
    }
}

/// The registry after a collection mint is written at time `created`.
pub open spec fn after_collection_commit(
    reg: RegistryView,
    m: CollectionMintView,
    created: i64,
) -> RegistryView {
    RegistryView {
        users: reg.users.insert(
            m.ctx.user_pda@,
            UserAccount { collection_count: (m.record.sequence + 1) as u64, bump: m.user_bump },
        ),
        collections: reg.collections.insert(
            m.ctx.collection_pda@,
            CollectionView { created, ..m.record },
        ),
        editions: reg.editions.insert(m.ctx.mint@),
        ..reg
    }
}

impl CollectionMint {
    #[verifier::type_invariant]
    spec fn inv(&self) -> bool {
        &&& self.record.wf()
        &&& self.record.token_mint == self.ctx.mint
        &&& self.record.sequence < u64::MAX
        &&& requests_view(self.requests@) == collection_plan(
            self.ctx,
            self.record.name@,
            self.record.symbol@,
            self.uri@,
        )
    }

    /// The requests to make, in order.
    pub fn requests(&self) -> (r: &Vec<Request>)
        ensures
            requests_view(r@) == self@.requests,
    {
        &self.requests
    }

    /// The collection record to be written, with its creation time still unset.
    pub fn record(&self) -> (r: &CollectionAccount)
        ensures
            r@ == self@.record,
    {
        &self.record
    }

    /// The bump of the owner's user record address.
    pub fn user_bump(&self) -> (r: u8)
        ensures
            r == self@.user_bump,
    {
        self.user_bump
    }

    /// Where the collection record goes.
    pub fn collection_address(&self) -> (r: Address)
        ensures
            r == self@.ctx.collection_pda,
    {
        self.ctx.collection_pda
    }

    /// Writes the records of a collection mint whose requests have been made, `outcomes`
    /// telling which succeeded; `created` is the time of the mint.
    pub fn commit(self, reg: &mut Registry, outcomes: &Vec<bool>, created: i64) -> (r: Result<
        Address,
        MintError,
    >)
        requires
            old(reg).wf(),
        ensures
            final(reg).wf(),
            match collection_commit_check(old(reg)@, self@, outcomes@) {
                Err(e) => r == Err::<Address, MintError>(e) && final(reg)@ == old(reg)@,
                Ok(()) => r == Ok::<Address, MintError>(self@.ctx.collection_pda) && final(reg)@
                    == after_collection_commit(old(reg)@, self@, created),
            },
            r is Ok ==> exists|i: int|
                0 <= i < self@.requests.len() && outcomes@[i] && self@.requests[i]
                    == (RequestView::CreateMasterEdition {
                    edition: self@.ctx.master_edition,
                    mint: self@.ctx.mint,
                    update_authority: self@.ctx.mint_authority,
                    mint_authority: self@.ctx.mint_authority,
                    metadata: self@.ctx.metadata,
                    payer: self@.ctx.payer,
                    max_supply: Some(0),
                }),
    {
        proof { use_type_invariant(&self); }
        let n = self.requests.len();
        if outcomes.len() != n {
            return Err(MintError::ExternalServiceRejected);
        }
        let mut i: usize = 0;
        while i < n
            invariant
                0 <= i <= n,
                outcomes@.len() == n,
                forall|j: int| 0 <= j < i ==> #[trigger] outcomes@[j],
                reg.wf(),
                reg@ == old(reg)@,
            decreases n - i,
        {
            if !outcomes[i] {
                return Err(MintError::ExternalServiceRejected);
            }
            i = i + 1;
        }
        if !reg.program_id().same(&self.program_id) || !reg.metadata_program().same(
            &self.ctx.token_metadata_program,
        ) {
            return Err(MintError::AddressMismatch);
        }
        if reg.find_collection(&self.ctx.collection_pda).is_some() {
            return Err(MintError::AlreadyInitialized);
        }
        let sequence = match reg.find_user(&self.ctx.user_pda) {
            Some(u) => u.collection_count,
            None => 0,
        };
        if sequence != self.record.sequence {
            return Err(MintError::AlreadyInitialized);
        }
        let ctx = self.ctx;
        let user_bump = self.user_bump;
        let mut record = self.record;
        record.created = created;
        reg.put_user(ctx.user_pda, UserAccount { collection_count: sequence + 1, bump: user_bump });
        reg.insert_collection(ctx.collection_pda, record);
        proof {
            assert(self@.requests[6] == collection_plan(
                self.ctx,
                self.record.name@,
                self.record.symbol@,
                self.uri@,
            )[6]);
            assert(outcomes@[6]);
            assert(collection_plan(self.ctx, self.record.name@, self.record.symbol@, self.uri@).len() == 9);
            assert(self@.requests[6] == (RequestView::CreateMasterEdition {
                edition: self@.ctx.master_edition,
                mint: self@.ctx.mint,
                update_authority: self@.ctx.mint_authority,
                mint_authority: self@.ctx.mint_authority,
                metadata: self@.ctx.metadata,
                payer: self@.ctx.payer,
                max_supply: Some(0),
            }));
            assert(reg@.users =~= after_collection_commit(old(reg)@, self@, created).users);
            assert(reg@.collections =~= after_collection_commit(old(reg)@, self@, created).collections);
        }
        Ok(ctx.collection_pda)
    }
}

/// Checks a collection mint of `collection_name`, `collection_symbol` and `ipfs_image_hash`,
/// with metadata at `metadata_uri`, and prepares its requests and records.
pub fn mint_collection(
    reg: &Registry,
    ctx: &MintCollection,
    collection_name: &str,
    collection_symbol: &str,
    ipfs_image_hash: &str,
    metadata_uri: &str,
) -> (r: Result<CollectionMint, MintError>)
    requires
        reg.wf(),
    ensures
        match collection_mint_check(
            reg@,
            *ctx,
            collection_name@,
            collection_symbol@,
            ipfs_image_hash@,
            metadata_uri@,
        ) {
            Err(e) => r == Err::<CollectionMint, MintError>(e),
            Ok(()) => r is Ok && r->Ok_0@ == planned_collection_mint(
                reg@,
                *ctx,
                collection_name@,
                collection_symbol@,
                ipfs_image_hash@,
                metadata_uri@,
            ),
        },
{
    let program_id = reg.program_id();
    let mp = reg.metadata_program();
    if reg.find_collection(&ctx.collection_pda).is_some() {
        return Err(MintError::AlreadyInitialized);
    }
    if !ctx.token_metadata_program.same(&mp) {
        return Err(MintError::AddressMismatch);
    }
    let user_bump = match check_derived(&user_seed_list(&ctx.mint_authority), &program_id, &ctx.user_pda) {
        Some(b) => b,
        None => return Err(MintError::AddressMismatch),
    };
    let sequence = match reg.find_user(&ctx.user_pda) {
        Some(u) => u.collection_count,
        None => 0,
    };
    let bump = match check_derived(
        &collection_seed_list(&ctx.mint_authority, sequence),
        &program_id,
        &ctx.collection_pda,
    ) {
        Some(b) => b,
        None => return Err(MintError::AddressMismatch),
    };
    if check_derived(&metadata_seed_list(&mp, &ctx.mint), &mp, &ctx.metadata).is_none() {
        return Err(MintError::AddressMismatch);
    }
    if check_derived(&edition_seed_list(&mp, &ctx.mint), &mp, &ctx.master_edition).is_none() {
        return Err(MintError::AddressMismatch);
    }
    if collection_name.as_bytes().len() > MAX_NAME_LENGTH || collection_symbol.as_bytes().len()
        > MAX_SYMBOL_LENGTH || metadata_uri.as_bytes().len() > MAX_URI_LENGTH
        || ipfs_image_hash.as_bytes().len() > MAX_RECORD_SPACE {
        return Err(MintError::SizeMiscalculation);
    }
    let space = CollectionAccount::get_space(collection_name, collection_symbol, ipfs_image_hash);
    if space > MAX_RECORD_SPACE {
        return Err(MintError::SizeMiscalculation);
    }
    if sequence == u64::MAX {
        return Err(MintError::CounterOverflow);
    }
    let record = CollectionAccount {
        owner: ctx.mint_authority,
        token_mint: ctx.mint,
        sequence,
        member_count: 0,
        bump,
        created: 0,
        name: collection_name.to_owned(),
        symbol: collection_symbol.to_owned(),
        ipfs_image_hash: ipfs_image_hash.to_owned(),
    };
    let requests = collection_requests(ctx, collection_name, collection_symbol, metadata_uri);
    let m = CollectionMint {
        ctx: *ctx,
        program_id,
        user_bump,
        record,
        uri: metadata_uri.to_owned(),
        requests,
    };
    Ok(m)
}

} // verus!

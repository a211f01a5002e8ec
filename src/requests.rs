use vstd::prelude::*;
use crate::address::{seeds_view, Address};

verus! {

/// Lamports that fund a new mint account.
pub const MINT_ACCOUNT_LAMPORTS: u64 = 1461600;

/// Bytes of a mint account of the token program.
pub const MINT_ACCOUNT_SPACE: u64 = 82;

/// A creator entry of registered metadata.
#[derive(Clone, Copy, Debug)]
pub struct Creator {
    pub address: Address,
    pub verified: bool,
    pub share: u8,
}

/// The sole, not yet verified, creator `address`, with the whole share.
pub open spec fn sole_creator(address: Address) -> Seq<Creator> {
    seq![Creator { address, verified: false, share: 100 }]
}

pub fn sole_creator_list(address: Address) -> (r: Vec<Creator>)
    ensures
        r@ == sole_creator(address),
{
    let mut r: Vec<Creator> = Vec::new();
    r.push(Creator { address, verified: false, share: 100 });
    assert(r@ =~= sole_creator(address));
    r
}

/// The seeds by which a derived address signs for itself: its own seeds and its bump.
#[derive(Debug)]
pub struct ImplicitSigner {
    pub seeds: Vec<Vec<u8>>,
}

impl View for ImplicitSigner {
    type V = Seq<Seq<u8>>;

    open spec fn view(&self) -> Seq<Seq<u8>> {
        seeds_view(self.seeds@)
    }
}

/// Metadata fields replaced by an update.
#[derive(Debug)]
pub struct MetadataData {
    pub name: String,
    pub symbol: String,
    pub uri: String,
    pub creators: Option<Vec<Creator>>,
    pub seller_fee_basis_points: u16,
}

pub struct MetadataDataView {
    pub name: Seq<char>,
    pub symbol: Seq<char>,
    pub uri: Seq<char>,
    pub creators: Option<Seq<Creator>>,
    pub seller_fee_basis_points: u16,
}

pub open spec fn creators_view(c: Option<Vec<Creator>>) -> Option<Seq<Creator>> {
    match c {
        Some(v) => Some(v@),
        None => None,
    }
}

impl View for MetadataData {
    type V = MetadataDataView;

    open spec fn view(&self) -> MetadataDataView {
        MetadataDataView {
            name: self.name@,
            symbol: self.symbol@,
            uri: self.uri@,
            creators: creators_view(self.creators),
            seller_fee_basis_points: self.seller_fee_basis_points,
        }
    }
}

/// One request to the token program, the associated-token program or the metadata registry.
#[derive(Debug)]
pub enum Request {
    /// Create the account that becomes a mint, owned by the token program.
    CreateMintAccount { from: Address, to: Address, lamports: u64, space: u64, owner: Address },
    /// Initialise a mint.
    InitializeMint {
        mint: Address,
        decimals: u8,
        mint_authority: Address,
        freeze_authority: Option<Address>,
    },
    /// Create the canonical holding account of `authority` for `mint`.
    CreateHoldingAccount { payer: Address, holding: Address, authority: Address, mint: Address },
    /// Issue `amount` units of `mint` into `to`.
    MintTo { mint: Address, to: Address, authority: Address, amount: u64 },
    /// Register metadata for a mint.
    CreateMetadata {
        metadata: Address,
        mint: Address,
        mint_authority: Address,
        payer: Address,
        update_authority: Address,
        name: String,
        symbol: String,
        uri: String,
        creators: Option<Vec<Creator>>,
        seller_fee_basis_points: u16,
        update_authority_is_signer: bool,
        is_mutable: bool,
    },
    /// Mark `creator` as verified on the metadata.
    SignMetadata { metadata: Address, creator: Address, signer: Option<ImplicitSigner> },
    /// Publish the master edition of a mint.
    CreateMasterEdition {
        edition: Address,
        mint: Address,
        update_authority: Address,
        mint_authority: Address,
        metadata: Address,
        payer: Address,
        max_supply: Option<u64>,
    },
    /// Let `new_authority` act as collection authority of the metadata.
    ApproveCollectionAuthority {
        authority_record: Address,
        new_authority: Address,
        update_authority: Address,
        payer: Address,
        metadata: Address,
        mint: Address,
    },
    /// Update metadata.
    UpdateMetadata {
        metadata: Address,
        update_authority: Address,
        new_update_authority: Option<Address>,
        data: Option<MetadataData>,
        primary_sale_happened: Option<bool>,
        is_mutable: Option<bool>,
    },
    /// Set the collection of a member's metadata and verify it.
    SetAndVerifyCollection {
        metadata: Address,
        collection_authority: Address,
        payer: Address,
        update_authority: Address,
        collection_mint: Address,
        collection_metadata: Address,
        collection_master_edition: Address,
        authority_record: Option<Address>,
        signer: ImplicitSigner,
    },
}

pub enum RequestView {
    CreateMintAccount { from: Address, to: Address, lamports: u64, space: u64, owner: Address },
    InitializeMint {
        mint: Address,
        decimals: u8,
        mint_authority: Address,
        freeze_authority: Option<Address>,
    },
    CreateHoldingAccount { payer: Address, holding: Address, authority: Address, mint: Address },
    MintTo { mint: Address, to: Address, authority: Address, amount: u64 },
    CreateMetadata {
        metadata: Address,
        mint: Address,
        mint_authority: Address,
        payer: Address,
        update_authority: Address,
        name: Seq<char>,
        symbol: Seq<char>,
        uri: Seq<char>,
        creators: Option<Seq<Creator>>,
        seller_fee_basis_points: u16,
        update_authority_is_signer: bool,
        is_mutable: bool,
    },
    SignMetadata { metadata: Address, creator: Address, signer: Option<Seq<Seq<u8>>> },
    CreateMasterEdition {
        edition: Address,
        mint: Address,
        update_authority: Address,
        mint_authority: Address,
        metadata: Address,
        payer: Address,
        max_supply: Option<u64>,
    },
    ApproveCollectionAuthority {
        authority_record: Address,
        new_authority: Address,
        update_authority: Address,
        payer: Address,
        metadata: Address,
        mint: Address,
    },
    UpdateMetadata {
        metadata: Address,
        update_authority: Address,
        new_update_authority: Option<Address>,
        data: Option<MetadataDataView>,
        primary_sale_happened: Option<bool>,
        is_mutable: Option<bool>,
    },
    SetAndVerifyCollection {
        metadata: Address,
        collection_authority: Address,
        payer: Address,
        update_authority: Address,
        collection_mint: Address,
        collection_metadata: Address,
        collection_master_edition: Address,
        authority_record: Option<Address>,
        signer: Seq<Seq<u8>>,
    },
}

impl View for Request {
    type V = RequestView;

    open spec fn view(&self) -> RequestView {
        match self {
            Request::CreateMintAccount { from, to, lamports, space, owner } => {
                RequestView::CreateMintAccount {
                    from: *from,
                    to: *to,
                    lamports: *lamports,
                    space: *space,
                    owner: *owner,
                }
            },
            Request::InitializeMint { mint, decimals, mint_authority, freeze_authority } => {
                RequestView::InitializeMint {
                    mint: *mint,
                    decimals: *decimals,
                    mint_authority: *mint_authority,
                    freeze_authority: *freeze_authority,
                }
            },
            Request::CreateHoldingAccount { payer, holding, authority, mint } => {
                RequestView::CreateHoldingAccount {
                    payer: *payer,
                    holding: *holding,
                    authority: *authority,
                    mint: *mint,
                }
            },
            Request::MintTo { mint, to, authority, amount } => {
                RequestView::MintTo { mint: *mint, to: *to, authority: *authority, amount: *amount }
            },
            Request::CreateMetadata {
                metadata,
                mint,
                mint_authority,
                payer,
                update_authority,
                name,
                symbol,
                uri,
                creators,
                seller_fee_basis_points,
                update_authority_is_signer,
                is_mutable,
            } => RequestView::CreateMetadata {
                metadata: *metadata,
                mint: *mint,
                mint_authority: *mint_authority,
                payer: *payer,
                update_authority: *update_authority,
                name: name@,
                symbol: symbol@,
                uri: uri@,
                creators: creators_view(*creators),
                seller_fee_basis_points: *seller_fee_basis_points,
                update_authority_is_signer: *update_authority_is_signer,
                is_mutable: *is_mutable,
            },
            Request::SignMetadata { metadata, creator, signer } => RequestView::SignMetadata {
                metadata: *metadata,
                creator: *creator,
                signer: match signer {
                    Some(s) => Some(s@),
                    None => None,
                },
            },
            Request::CreateMasterEdition {
                edition,
                mint,
                update_authority,
                mint_authority,
                metadata,
                payer,
                max_supply,
            } => RequestView::CreateMasterEdition {
                edition: *edition,
                mint: *mint,
                update_authority: *update_authority,
                mint_authority: *mint_authority,
                metadata: *metadata,
                payer: *payer,
                max_supply: *max_supply,
            },
            Request::ApproveCollectionAuthority {
                authority_record,
                new_authority,
                update_authority,
                payer,
                metadata,
                mint,
            } => RequestView::ApproveCollectionAuthority {
                authority_record: *authority_record,
                new_authority: *new_authority,
                update_authority: *update_authority,
                payer: *payer,
                metadata: *metadata,
                mint: *mint,
            },
            Request::UpdateMetadata {
                metadata,
                update_authority,
                new_update_authority,
                data,
                primary_sale_happened,
                is_mutable,
            } => RequestView::UpdateMetadata {
                metadata: *metadata,
                update_authority: *update_authority,
                new_update_authority: *new_update_authority,
                data: match data {
                    Some(d) => Some(d@),
                    None => None,
                },
                primary_sale_happened: *primary_sale_happened,
                is_mutable: *is_mutable,
            },
            Request::SetAndVerifyCollection {
                metadata,
                collection_authority,
                payer,
                update_authority,
                collection_mint,
                collection_metadata,
                collection_master_edition,
                authority_record,
                signer,
            } => RequestView::SetAndVerifyCollection {
                metadata: *metadata,
                collection_authority: *collection_authority,
                payer: *payer,
                update_authority: *update_authority,
                collection_mint: *collection_mint,
                collection_metadata: *collection_metadata,
                collection_master_edition: *collection_master_edition,
                authority_record: *authority_record,
                signer: signer@,
            },
        }
    }
}

/// The token requests that open every mint: create the mint account, initialise it with no
/// decimals and `mint_authority` as mint and freeze authority, create the holding account of
/// `mint_authority`, and issue exactly one unit into it.
pub open spec fn issue_unit_plan(
    mint: Address,
    mint_authority: Address,
    token_program: Address,
    holding: Address,
) -> Seq<RequestView> {
    seq![
        RequestView::CreateMintAccount {
            from: mint_authority,
            to: mint,
            lamports: MINT_ACCOUNT_LAMPORTS,
            space: MINT_ACCOUNT_SPACE,
            owner: token_program,
        },
        RequestView::InitializeMint {
            mint,
            decimals: 0,
            mint_authority,
            freeze_authority: Some(mint_authority),
        },
        RequestView::CreateHoldingAccount { payer: mint_authority, holding, authority: mint_authority, mint },
        RequestView::MintTo { mint, to: holding, authority: mint_authority, amount: 1 },
    ]
}

pub fn issue_unit_requests(
    mint: Address,
    mint_authority: Address,
    token_program: Address,
    holding: Address,
) -> (r: Vec<Request>)
    ensures
        requests_view(r@) == issue_unit_plan(mint, mint_authority, token_program, holding),
{
    let mut r: Vec<Request> = Vec::new();
    r.push(
        Request::CreateMintAccount {
            from: mint_authority,
            to: mint,
            lamports: MINT_ACCOUNT_LAMPORTS,
            space: MINT_ACCOUNT_SPACE,
            owner: token_program,
        },
    );
    r.push(
        Request::InitializeMint { mint, decimals: 0, mint_authority, freeze_authority: Some(mint_authority) },
    );
    r.push(Request::CreateHoldingAccount { payer: mint_authority, holding, authority: mint_authority, mint });
    r.push(Request::MintTo { mint, to: holding, authority: mint_authority, amount: 1 });
    assert(requests_view(r@) =~= issue_unit_plan(mint, mint_authority, token_program, holding));
    r
}

/// The views of a list of requests.
pub open spec fn requests_view(rs: Seq<Request>) -> Seq<RequestView> {
    rs.map_values(|r: Request| r@)
}

} // verus!

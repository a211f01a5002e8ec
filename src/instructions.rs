use vstd::prelude::*;
use mpl_token_metadata::instruction::{
    approve_collection_authority, create_master_edition_v3, create_metadata_accounts_v3,
    set_and_verify_collection, sign_metadata, update_metadata_accounts_v2,
};
use mpl_token_metadata::state::{Creator as OutCreator, DataV2};
use anchor_lang::solana_program::instruction::AccountMeta as OutMeta;
use vstd::bytes::{spec_u16_to_le_bytes, spec_u32_to_le_bytes, spec_u64_to_le_bytes};
use crate::address::Address;
use crate::codec::{storable, string_bytes};
use crate::requests::{creators_view, Creator, MetadataDataView, Request, RequestView};

verus! {

/// One account that an instruction names.
#[derive(Clone, Copy, Debug)]
pub struct AccountMeta {
    pub pubkey: Address,
    pub is_signer: bool,
    pub is_writable: bool,
}

/// An instruction for the metadata registry.
#[derive(Debug)]
pub struct Instruction {
    pub program_id: Address,
    pub accounts: Vec<AccountMeta>,
    pub data: Vec<u8>,
}

pub open spec fn meta(pubkey: Address, is_signer: bool, is_writable: bool) -> AccountMeta {
    AccountMeta { pubkey, is_signer, is_writable }
}

/// The system program, whose address is all zero bytes.
pub open spec fn is_system_program(m: AccountMeta) -> bool {
    m.pubkey@ == Seq::new(32, |i: int| 0u8) && !m.is_signer && !m.is_writable
}

// The registry encodes an instruction as the index of its kind, one byte, followed by its
// arguments: an option as a zero byte or a one byte and the value, a boolean as one byte, an
// integer little-endian, an address as its 32 bytes, a string or a list behind a four-byte
// little-endian length.

pub open spec fn bool_byte(b: bool) -> u8 {
    if b {
        1
    } else {
        0
    }
}

pub open spec fn option_bool_bytes(o: Option<bool>) -> Seq<u8> {
    match o {
        Some(b) => seq![1u8, bool_byte(b)],
        None => seq![0u8],
    }
}

pub open spec fn option_u64_bytes(o: Option<u64>) -> Seq<u8> {
    match o {
        Some(x) => seq![1u8] + spec_u64_to_le_bytes(x),
        None => seq![0u8],
    }
}

pub open spec fn option_key_bytes(o: Option<Seq<u8>>) -> Seq<u8> {
    match o {
        Some(k) => seq![1u8] + k,
        None => seq![0u8],
    }
}

pub open spec fn creator_list_bytes(cs: Seq<Creator>) -> Seq<u8>
    decreases cs.len(),
{
    if cs.len() == 0 {
        Seq::empty()
    } else {
        cs[0].address@ + seq![bool_byte(cs[0].verified), cs[0].share] + creator_list_bytes(
            cs.drop_first(),
        )
    }
}

pub open spec fn option_creators_bytes(o: Option<Seq<Creator>>) -> Seq<u8> {
    match o {
        Some(cs) => seq![1u8] + spec_u32_to_le_bytes(cs.len() as u32) + creator_list_bytes(cs),
        None => seq![0u8],
    }
}

/// Encoded metadata fields, with no collection and no uses.
pub open spec fn data_bytes(
    name: Seq<char>,
    symbol: Seq<char>,
    uri: Seq<char>,
    seller_fee_basis_points: u16,
    creators: Option<Seq<Creator>>,
) -> Seq<u8> {
    string_bytes(name) + string_bytes(symbol) + string_bytes(uri) + spec_u16_to_le_bytes(
        seller_fee_basis_points,
    ) + option_creators_bytes(creators) + seq![0u8, 0u8]
}

/// Whether a creator list can be encoded: its length fits its four-byte prefix.
pub open spec fn creators_fit(o: Option<Seq<Creator>>) -> bool {
    match o {
        Some(cs) => cs.len() <= u32::MAX,
        None => true,
    }
}

/// Relies on `mpl_token_metadata::instruction::create_metadata_accounts_v3`: the accounts are
/// the metadata (writable), the mint, the mint authority (signer), the payer (writable signer),
/// the update authority (signer when asked) and the system program; the data is the kind
/// index 33, the metadata fields, `is_mutable`, and no collection details. Encoding a string or
/// list longer than its four-byte prefix allows makes it panic.
#[verifier::external_body]
fn create_metadata_ix(
    program: Address,
    accounts: [Address; 5],
    name: String,
    symbol: String,
    uri: String,
    creators: Option<Vec<Creator>>,
    seller_fee_basis_points: u16,
    update_authority_is_signer: bool,
    is_mutable: bool,
) -> (r: Instruction)
    requires
        storable(name@),
        storable(symbol@),
        storable(uri@),
        creators_fit(creators_view(creators)),
    ensures
        r.program_id == program,
        r.data@ == seq![33u8] + data_bytes(
            name@,
            symbol@,
            uri@,
            seller_fee_basis_points,
            creators_view(creators),
        ) + seq![bool_byte(is_mutable), 0u8],
        r.accounts@.len() == 6,
        r.accounts@.subrange(0, 5) == seq![
            meta(accounts[0], false, true),
            meta(accounts[1], false, false),
            meta(accounts[2], true, false),
            meta(accounts[3], true, true),
            meta(accounts[4], update_authority_is_signer, false),
        ],
        is_system_program(r.accounts@[5]),
{
    let k = accounts.map(|a| a.bytes.into());
    let creators = creators.map(|v| v.iter().map(|c| OutCreator { address: c.address.bytes.into(),
        verified: c.verified, share: c.share }).collect());
    let ix = create_metadata_accounts_v3(program.bytes.into(), k[0], k[1], k[2], k[3], k[4],
        name, symbol, uri, creators, seller_fee_basis_points, update_authority_is_signer, is_mutable, None, None, None);
    Instruction { program_id: program, accounts: ix.accounts.into_iter().map(|OutMeta { pubkey, is_signer,
        is_writable }| AccountMeta { pubkey: Address { bytes: pubkey.to_bytes() }, is_signer, is_writable }).collect(),
        data: ix.data }
}

/// Relies on `mpl_token_metadata::instruction::sign_metadata`: the accounts are the metadata
/// (writable) and the creator (signer); the data is the kind index 7.
#[verifier::external_body]
fn sign_metadata_ix(program: Address, metadata: Address, creator: Address) -> (r: Instruction)
    ensures
        r.program_id == program,
        r.data@ == seq![7u8],
        r.accounts@ == seq![meta(metadata, false, true), meta(creator, true, false)],
{
    let ix = sign_metadata(program.bytes.into(), metadata.bytes.into(), creator.bytes.into());
    Instruction { program_id: program, accounts: ix.accounts.into_iter().map(|OutMeta { pubkey, is_signer,
        is_writable }| AccountMeta { pubkey: Address { bytes: pubkey.to_bytes() }, is_signer, is_writable }).collect(),
        data: ix.data }
}

/// Relies on `mpl_token_metadata::instruction::create_master_edition_v3`: the accounts are the
/// edition and the mint (writable), the update and mint authorities (signers), the payer
/// (writable signer), the metadata (writable), the token program and the system program; the
/// data is the kind index 17 and `max_supply`.
#[verifier::external_body]
fn create_master_edition_ix(program: Address, accounts: [Address; 6], max_supply: Option<u64>) -> (r: Instruction)
    ensures
        r.program_id == program,
        r.data@ == seq![17u8] + option_u64_bytes(max_supply),
        r.accounts@.len() == 8,
        r.accounts@.subrange(0, 6) == seq![
            meta(accounts[0], false, true),
            meta(accounts[1], false, true),
            meta(accounts[2], true, false),
            meta(accounts[3], true, false),
            meta(accounts[4], true, true),
            meta(accounts[5], false, true),
        ],
        is_system_program(r.accounts@[7]),
{
    let k = accounts.map(|a| a.bytes.into());
    let ix = create_master_edition_v3(program.bytes.into(), k[0], k[1], k[2], k[3], k[5], k[4], max_supply);
    Instruction { program_id: program, accounts: ix.accounts.into_iter().map(|OutMeta { pubkey, is_signer,
        is_writable }| AccountMeta { pubkey: Address { bytes: pubkey.to_bytes() }, is_signer, is_writable }).collect(),
        data: ix.data }
}

/// Relies on `mpl_token_metadata::instruction::approve_collection_authority`: the accounts are
/// the authority record (writable), the new authority, the update authority and the payer
/// (writable signers), the metadata, the mint and the system program; the data is the kind
/// index 23.
#[verifier::external_body]
fn approve_collection_authority_ix(program: Address, accounts: [Address; 6]) -> (r: Instruction)
    ensures
        r.program_id == program,
        r.data@ == seq![23u8],
        r.accounts@.len() == 7,
        r.accounts@.subrange(0, 6) == seq![
            meta(accounts[0], false, true),
            meta(accounts[1], false, false),
            meta(accounts[2], true, true),
            meta(accounts[3], true, true),
            meta(accounts[4], false, false),
            meta(accounts[5], false, false),
        ],
        is_system_program(r.accounts@[6]),
{
    let k = accounts.map(|a| a.bytes.into());
    let ix = approve_collection_authority(program.bytes.into(), k[0], k[1], k[2], k[3], k[4], k[5]);
    Instruction { program_id: program, accounts: ix.accounts.into_iter().map(|OutMeta { pubkey, is_signer,
        is_writable }| AccountMeta { pubkey: Address { bytes: pubkey.to_bytes() }, is_signer, is_writable }).collect(),
        data: ix.data }
}

/// Relies on `mpl_token_metadata::instruction::update_metadata_accounts_v2`: the accounts are
/// the metadata (writable) and the update authority (signer); the data is the kind index 15,
/// the new metadata fields, the new update authority, `primary_sale_happened` and
/// `is_mutable`. Encoding a string or list longer than its four-byte prefix allows makes it
/// panic.
#[verifier::external_body]
fn update_metadata_ix(
    program: Address,
    metadata: Address,
    update_authority: Address,
    new_update_authority: Option<[u8; 32]>,
    data: Option<(String, String, String, u16, Option<Vec<Creator>>)>,
    primary_sale_happened: Option<bool>,
    is_mutable: Option<bool>,
) -> (r: Instruction)
    requires
        data matches Some(d) ==> storable(d.0@) && storable(d.1@) && storable(d.2@) && creators_fit(
            creators_view(d.4),
        ),
    ensures
        r.program_id == program,
        r.data@ == seq![15u8] + match data {
            Some(d) => seq![1u8] + data_bytes(d.0@, d.1@, d.2@, d.3, creators_view(d.4)),
            None => seq![0u8],
        } + option_key_bytes(
            match new_update_authority {
                Some(k) => Some(k@),
                None => None,
            },
        ) + option_bool_bytes(primary_sale_happened) + option_bool_bytes(is_mutable),
        r.accounts@ == seq![meta(metadata, false, true), meta(update_authority, true, false)],
{
    let ix = update_metadata_accounts_v2(program.bytes.into(), metadata.bytes.into(), update_authority.bytes.into(),
        new_update_authority.map(Into::into), data.map(|(name, symbol, uri, seller_fee_basis_points, creators)|
        DataV2 { name, symbol, uri, seller_fee_basis_points, creators: creators.map(|v| v.iter().map(|c|
        OutCreator { address: c.address.bytes.into(), verified: c.verified, share: c.share }).collect()),
        collection: None, uses: None }), primary_sale_happened, is_mutable);
    Instruction { program_id: program, accounts: ix.accounts.into_iter().map(|OutMeta { pubkey, is_signer,
        is_writable }| AccountMeta { pubkey: Address { bytes: pubkey.to_bytes() }, is_signer, is_writable }).collect(),
        data: ix.data }
}

/// Relies on `mpl_token_metadata::instruction::set_and_verify_collection`: the accounts are the
/// metadata (writable), the collection authority and the payer (writable signers), the update
/// authority, the collection mint, its metadata and its master edition, then the authority
/// record when one is given; the data is the kind index 25.
#[verifier::external_body]
fn set_and_verify_collection_ix(program: Address, accounts: [Address; 7], record: Option<Address>) -> (r: Instruction)
    ensures
        r.program_id == program,
        r.data@ == seq![25u8],
        r.accounts@.subrange(0, 7) == seq![
            meta(accounts[0], false, true),
            meta(accounts[1], true, true),
            meta(accounts[2], true, true),
            meta(accounts[3], false, false),
            meta(accounts[4], false, false),
            meta(accounts[5], false, false),
            meta(accounts[6], false, false),
        ],
        r.accounts@.len() == (if record is Some { 8int } else { 7int }),
        record matches Some(a) ==> r.accounts@[7] == meta(a, false, false),
{
    let k = accounts.map(|a| a.bytes.into());
    let ix = set_and_verify_collection(program.bytes.into(), k[0], k[1], k[2], k[3], k[4], k[5], k[6],
        record.map(|a| a.bytes.into()));
    Instruction { program_id: program, accounts: ix.accounts.into_iter().map(|OutMeta { pubkey, is_signer,
        is_writable }| AccountMeta { pubkey: Address { bytes: pubkey.to_bytes() }, is_signer, is_writable }).collect(),
        data: ix.data }
}

/// Whether a request goes to the metadata registry.
pub open spec fn is_metadata_request(req: RequestView) -> bool {
    match req {
        RequestView::CreateMetadata { .. } | RequestView::SignMetadata { .. }
        | RequestView::CreateMasterEdition { .. } | RequestView::ApproveCollectionAuthority { .. }
        | RequestView::UpdateMetadata { .. } | RequestView::SetAndVerifyCollection { .. } => true,
        _ => false,
    }
}

/// The accounts that the metadata registry's instruction for `req` names.
pub open spec fn accounts_for(req: RequestView, a: Seq<AccountMeta>) -> bool {
    match req {
        RequestView::CreateMetadata { metadata, mint, mint_authority, payer, update_authority,
            update_authority_is_signer, .. } => {
            &&& a.len() == 6
            &&& a.subrange(0, 5) == seq![
                meta(metadata, false, true),
                meta(mint, false, false),
                meta(mint_authority, true, false),
                meta(payer, true, true),
                meta(update_authority, update_authority_is_signer, false),
            ]
            &&& is_system_program(a[5])
        },
        RequestView::SignMetadata { metadata, creator, .. } => a == seq![
            meta(metadata, false, true),
            meta(creator, true, false),
        ],
        RequestView::CreateMasterEdition { edition, mint, update_authority, mint_authority, metadata,
            payer, .. } => {
            &&& a.len() == 8
            &&& a.subrange(0, 6) == seq![
                meta(edition, false, true),
                meta(mint, false, true),
                meta(update_authority, true, false),
                meta(mint_authority, true, false),
                meta(payer, true, true),
                meta(metadata, false, true),
            ]
            &&& is_system_program(a[7])
        },
        RequestView::ApproveCollectionAuthority { authority_record, new_authority, update_authority,
            payer, metadata, mint } => {
            &&& a.len() == 7
            &&& a.subrange(0, 6) == seq![
                meta(authority_record, false, true),
                meta(new_authority, false, false),
                meta(update_authority, true, true),
                meta(payer, true, true),
                meta(metadata, false, false),
                meta(mint, false, false),
            ]
            &&& is_system_program(a[6])
        },
        RequestView::UpdateMetadata { metadata, update_authority, .. } => a == seq![
            meta(metadata, false, true),
            meta(update_authority, true, false),
        ],
        RequestView::SetAndVerifyCollection { metadata, collection_authority, payer,
            update_authority, collection_mint, collection_metadata, collection_master_edition,
            authority_record, .. } => {
            &&& a.subrange(0, 7) == seq![
                meta(metadata, false, true),
                meta(collection_authority, true, true),
                meta(payer, true, true),
                meta(update_authority, false, false),
                meta(collection_mint, false, false),
                meta(collection_metadata, false, false),
                meta(collection_master_edition, false, false),
            ]
            &&& a.len() == (if authority_record is Some { 8int } else { 7int })
            &&& (authority_record matches Some(r) ==> a[7] == meta(r, false, false))
        },
        _ => false,
    }
}

/// Whether the registry can encode the strings and lists of `req`.
pub open spec fn request_encodable(req: RequestView) -> bool {
    match req {
        RequestView::CreateMetadata { name, symbol, uri, creators, .. } => storable(name) && storable(
            symbol,
        ) && storable(uri) && creators_fit(creators),
        RequestView::UpdateMetadata { data, .. } => match data {
            Some(d) => storable(d.name) && storable(d.symbol) && storable(d.uri) && creators_fit(
                d.creators,
            ),
            None => true,
        },
        _ => true,
    }
}

/// The data of the metadata registry's instruction for `req`.
pub open spec fn request_data(req: RequestView) -> Seq<u8> {
    match req {
        RequestView::CreateMetadata {
            name,
            symbol,
            uri,
            creators,
            seller_fee_basis_points,
            is_mutable,
            ..
        } => seq![33u8] + data_bytes(name, symbol, uri, seller_fee_basis_points, creators) + seq![
            bool_byte(is_mutable),
            0u8,
        ],
        RequestView::SignMetadata { .. } => seq![7u8],
        RequestView::CreateMasterEdition { max_supply, .. } => seq![17u8] + option_u64_bytes(
            max_supply,
        ),
        RequestView::ApproveCollectionAuthority { .. } => seq![23u8],
        RequestView::UpdateMetadata {
            new_update_authority,
            data,
            primary_sale_happened,
            is_mutable,
            ..
        } => seq![15u8] + match data {
            Some(d) => seq![1u8] + data_bytes(
                d.name,
                d.symbol,
                d.uri,
                d.seller_fee_basis_points,
                d.creators,
            ),
            None => seq![0u8],
        } + option_key_bytes(
            match new_update_authority {
                Some(k) => Some(k@),
                None => None,
            },
        ) + option_bool_bytes(primary_sale_happened) + option_bool_bytes(is_mutable),
        RequestView::SetAndVerifyCollection { .. } => seq![25u8],
        _ => Seq::empty(),
    }
}

fn string_fits(s: &String) -> (r: bool)
    ensures
        r == storable(s@),
{
    s.as_str().as_bytes().len() <= u32::MAX as usize
}

fn creators_fit_exec(c: &Option<Vec<Creator>>) -> (r: bool)
    ensures
        r == creators_fit(creators_view(*c)),
{
    match c {
        Some(v) => v.len() <= u32::MAX as usize,
        None => true,
    }
}

fn copy_creators(c: &Option<Vec<Creator>>) -> (r: Option<Vec<Creator>>)
    ensures
        creators_view(r) == creators_view(*c),
{
    match c {
        Some(v) => {
            let mut out: Vec<Creator> = Vec::new();
            let mut i: usize = 0;
            while i < v.len()
                invariant
                    0 <= i <= v@.len(),
                    out@ == v@.subrange(0, i as int),
                decreases v@.len() - i,
            {
                out.push(v[i]);
                i = i + 1;
                assert(out@ =~= v@.subrange(0, i as int));
            }
            assert(out@ =~= v@);
            Some(out)
        },
        None => None,
    }
}

/// The metadata registry's instruction for `req`, or `None` for a request to another program
/// or one whose strings or lists are too long to encode.
pub fn metadata_instruction(req: &Request, program: &Address) -> (r: Option<Instruction>)
    ensures
        r is Some == (is_metadata_request(req@) && request_encodable(req@)),
        r matches Some(ix) ==> ix.program_id == *program && accounts_for(req@, ix.accounts@)
            && ix.data@ == request_data(req@),
{
    match req {
        Request::CreateMetadata {
            metadata,
            mint,
            mint_authority,
            payer,
            update_authority,
            name,
            symbol,
            uri,
            creators,
            seller_fee_basis_points,
            update_authority_is_signer,
            is_mutable,
        } => {
            if !string_fits(name) || !string_fits(symbol) || !string_fits(uri) || !creators_fit_exec(
                creators,
            ) {
                return None;
            }
            Some(
            create_metadata_ix(
                *program,
                [*metadata, *mint, *mint_authority, *payer, *update_authority],
                name.clone(),
                symbol.clone(),
                uri.clone(),
                copy_creators(creators),
                *seller_fee_basis_points,
                *update_authority_is_signer,
                *is_mutable,
            ),
        )
        },
        Request::SignMetadata { metadata, creator, .. } => Some(
            sign_metadata_ix(*program, *metadata, *creator),
        ),
        Request::CreateMasterEdition {
            edition,
            mint,
            update_authority,
            mint_authority,
            metadata,
            payer,
            max_supply,
        } => Some(
            create_master_edition_ix(
                *program,
                [*edition, *mint, *update_authority, *mint_authority, *payer, *metadata],
                *max_supply,
            ),
        ),
        Request::ApproveCollectionAuthority {
            authority_record,
            new_authority,
            update_authority,
            payer,
            metadata,
            mint,
        } => Some(
            approve_collection_authority_ix(
                *program,
                [*authority_record, *new_authority, *update_authority, *payer, *metadata, *mint],
            ),
        ),
        Request::UpdateMetadata {
            metadata,
            update_authority,
            new_update_authority,
            data,
            primary_sale_happened,
            is_mutable,
        } => {
            let data = match data {
                Some(d) => {
                    if !string_fits(&d.name) || !string_fits(&d.symbol) || !string_fits(&d.uri)
                        || !creators_fit_exec(&d.creators) {
                        return None;
                    }
                    Some(
                    (
                        d.name.clone(),
                        d.symbol.clone(),
                        d.uri.clone(),
                        d.seller_fee_basis_points,
                        copy_creators(&d.creators),
                    ),
                )
                },
                None => None,
            };
            Some(
                update_metadata_ix(
                    *program,
                    *metadata,
                    *update_authority,
                    match new_update_authority {
                        Some(a) => Some(a.bytes),
                        None => None,
                    },
                    data,
                    *primary_sale_happened,
                    *is_mutable,
                ),
            )
        },
        Request::SetAndVerifyCollection {
            metadata,
            collection_authority,
            payer,
            update_authority,
            collection_mint,
            collection_metadata,
            collection_master_edition,
            authority_record,
            ..
        } => Some(
            set_and_verify_collection_ix(
                *program,
                [
                    *metadata,
                    *collection_authority,
                    *payer,
                    *update_authority,
                    *collection_mint,
                    *collection_metadata,
                    *collection_master_edition,
                ],
                *authority_record,
            ),
        ),
        _ => None,
    }
}

} // verus!

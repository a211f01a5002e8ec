use vstd::prelude::*;
use vstd::bytes::{lemma_auto_spec_u64_to_from_le_bytes, spec_u64_to_le_bytes, u64_to_le_bytes};
use vstd::utf8::{encode_utf8, is_ascii_chars, is_ascii_chars_encode_utf8};
use vstd::slice::slice_to_vec;
use vstd::string::{StrSliceExecFns, StringSliceAdditionalSpecFns};
use anchor_lang::solana_program::pubkey::Pubkey;

verus! {

/// A 32-byte account address.
#[derive(Clone, Copy, Debug)]
pub struct Address {
    pub bytes: [u8; 32],
}

impl View for Address {
    type V = Seq<u8>;

    open spec fn view(&self) -> Seq<u8> {
        self.bytes@
    }
}

impl PartialEq for Address {
    fn eq(&self, other: &Address) -> (r: bool)
        ensures
            r == (self@ == other@),
    {
        self.same(other)
    }
}

impl vstd::std_specs::cmp::PartialEqSpecImpl for Address {
    open spec fn obeys_eq_spec() -> bool {
        true
    }

    open spec fn eq_spec(&self, other: &Address) -> bool {
        self@ == other@
    }
}

impl Address {
    pub fn new(bytes: [u8; 32]) -> (r: Address)
        ensures
            r@ == bytes@,
    {
        Address { bytes }
    }

    /// Whether two addresses hold the same bytes.
    pub fn same(&self, other: &Address) -> (r: bool)
        ensures
            r == (self@ == other@),
    {
        let mut i: usize = 0;
        while i < 32
            invariant
                0 <= i <= 32,
                self@.len() == 32,
                other@.len() == 32,
                forall|j: int| 0 <= j < i ==> self@[j] == other@[j],
            decreases 32 - i,
        {
            if self.bytes[i] != other.bytes[i] {
                return false;
            }
            i = i + 1;
        }
        assert(self@ =~= other@);
        true
    }

    /// The address held by a 32-byte slice.
    pub fn from_slice(b: &[u8]) -> (r: Address)
        requires
            b@.len() == 32,
        ensures
            r@ == b@,
    {
        let mut bytes: [u8; 32] = vstd::array::array_fill_for_copy_types(0u8);
        let mut i: usize = 0;
        while i < 32
            invariant
                0 <= i <= 32,
                b@.len() == 32,
                bytes@.len() == 32,
                forall|j: int| 0 <= j < i ==> bytes@[j] == b@[j],
            decreases 32 - i,
        {
            bytes[i] = b[i];
            i = i + 1;
        }
        assert(bytes@ =~= b@);
        Address { bytes }
    }

    /// The address as a seed.
    pub fn to_vec(&self) -> (r: Vec<u8>)
        ensures
            r@ == self@,
    {
        slice_to_vec(self.bytes.as_slice())
    }
}

/// The views of a list of seeds.
pub open spec fn seeds_view(seeds: Seq<Vec<u8>>) -> Seq<Seq<u8>> {
    seeds.map_values(|s: Vec<u8>| s@)
}

/// Whether a list of seeds is one that address derivation accepts with one more seed
/// (the bump) appended.
pub open spec fn seeds_fit(seeds: Seq<Seq<u8>>) -> bool {
    seeds.len() < 16 && forall|i: int| 0 <= i < seeds.len() ==> #[trigger] seeds[i].len() <= 32
}

/// The address that the runtime derives from seeds and a program id, or `None` where the
/// derived point lies on the curve or the seeds are refused.
pub uninterp spec fn program_address(seeds: Seq<Seq<u8>>, program_id: Seq<u8>) -> Option<Seq<u8>>;

/// The first bump from `bump` down to 1 for which the seeds with that bump appended give an
/// address, with that address.
pub open spec fn bump_search(seeds: Seq<Seq<u8>>, program_id: Seq<u8>, bump: u8) -> Option<(Seq<u8>, u8)>
    decreases bump,
{
    if bump == 0 {
        None
    } else {
        match program_address(seeds.push(seq![bump]), program_id) {
            Some(a) => Some((a, bump)),
            None => bump_search(seeds, program_id, (bump - 1) as u8),
        }
    }
}

proof fn lemma_bump_search(seeds: Seq<Seq<u8>>, program_id: Seq<u8>, bump: u8)
    ensures
        bump_search(seeds, program_id, bump) matches Some((a, b)) ==> program_address(
            seeds.push(seq![b]),
            program_id,
        ) == Some(a),
    decreases bump,
{
    if bump > 0 && program_address(seeds.push(seq![bump]), program_id) is None {
        lemma_bump_search(seeds, program_id, (bump - 1) as u8);
    }
}

/// The address and bump that the canonical bump search finds for seeds and a program id.
pub open spec fn canonical_address(seeds: Seq<Seq<u8>>, program_id: Seq<u8>) -> Option<(Seq<u8>, u8)> {
    bump_search(seeds, program_id, 255)
}

/// The SHA-256 digest of a byte string.
pub uninterp spec fn sha256_of(data: Seq<u8>) -> Seq<u8>;

pub open spec fn address_opt_view(r: Option<Address>) -> Option<Seq<u8>> {
    match r {
        Some(a) => Some(a@),
        None => None,
    }
}

pub open spec fn address_bump_opt_view(r: Option<(Address, u8)>) -> Option<(Seq<u8>, u8)> {
    match r {
        Some((a, b)) => Some((a@, b)),
        None => None,
    }
}

/// Relies on `Pubkey::create_program_address`: its result depends on the seeds and the
/// program id alone, and more than 16 seeds or a seed over 32 bytes is an error.
#[verifier::external_body]
fn create_program_address(seeds: &Vec<Vec<u8>>, program_id: &Address) -> (r: Option<Address>)
    ensures
        address_opt_view(r) == program_address(seeds_view(seeds@), program_id@),
        (seeds@.len() > 16 || exists|i: int| 0 <= i < seeds@.len() && #[trigger] seeds@[i]@.len() > 32)
            ==> r is None,
{
    let s: Vec<&[u8]> = seeds.iter().map(|v| v.as_slice()).collect();
    let key = Pubkey::new_from_array(program_id.bytes);
    Pubkey::create_program_address(&s, &key).ok().map(|k| Address { bytes: k.to_bytes() })
}

/// Relies on `Pubkey::try_find_program_address`: it tries the bumps from 255 down to 1 and
/// returns the first address that `create_program_address` gives with the bump appended as one
/// more seed, or `None` when there is none. Within a program the search is the runtime's, which
/// is only asked for seeds that leave room for the bump.
#[verifier::external_body]
fn try_find_program_address(seeds: &Vec<Vec<u8>>, program_id: &Address) -> (r: Option<(Address, u8)>)
    requires
        seeds_fit(seeds_view(seeds@)),
    ensures
        address_bump_opt_view(r) == canonical_address(seeds_view(seeds@), program_id@),
{
    let s: Vec<&[u8]> = seeds.iter().map(|v| v.as_slice()).collect();
    let key = Pubkey::new_from_array(program_id.bytes);
    Pubkey::try_find_program_address(&s, &key).map(|(k, b)| (Address { bytes: k.to_bytes() }, b))
}

/// Relies on `solana_program::hash::hash`: the SHA-256 digest of its input, 32 bytes.
#[verifier::external_body]
pub(crate) fn sha256(data: &[u8]) -> (r: [u8; 32])
    ensures
        r@ == sha256_of(data@),
{
    anchor_lang::solana_program::hash::hash(data).to_bytes()
}

/// Seeds of the user record of `owner`.
pub open spec fn user_seeds(owner: Seq<u8>) -> Seq<Seq<u8>> {
    seq![vstd::utf8::encode_utf8("user"@), owner]
}

/// Seeds of the `sequence`-th collection record of `owner`.
pub open spec fn collection_seeds(owner: Seq<u8>, sequence: u64) -> Seq<Seq<u8>> {
    seq![vstd::utf8::encode_utf8("collection"@), owner, spec_u64_to_le_bytes(sequence)]
}

/// Seeds of the member record for the member mint `mint` of the collection record `collection`.
pub open spec fn member_seeds(collection: Seq<u8>, mint: Seq<u8>) -> Seq<Seq<u8>> {
    seq![vstd::utf8::encode_utf8("nft"@), collection, mint]
}

/// Seeds under which the metadata registry keeps the metadata of `mint`.
pub open spec fn metadata_seeds(registry: Seq<u8>, mint: Seq<u8>) -> Seq<Seq<u8>> {
    seq![vstd::utf8::encode_utf8("metadata"@), registry, mint]
}

/// Seeds under which the metadata registry keeps the master edition of `mint`.
pub open spec fn edition_seeds(registry: Seq<u8>, mint: Seq<u8>) -> Seq<Seq<u8>> {
    seq![
        vstd::utf8::encode_utf8("metadata"@),
        registry,
        mint,
        vstd::utf8::encode_utf8("edition"@),
    ]
}

/// A namespace tag of ASCII characters is stored as one byte per character.
proof fn lemma_tag(tag: Seq<char>)
    requires
        is_ascii_chars(tag),
    ensures
        encode_utf8(tag).len() == tag.len(),
{
    is_ascii_chars_encode_utf8(tag);
}

pub fn user_seed_list(owner: &Address) -> (r: Vec<Vec<u8>>)
    ensures
        seeds_view(r@) == user_seeds(owner@),
        seeds_fit(seeds_view(r@)),
{
    let mut r: Vec<Vec<u8>> = Vec::new();
    r.push("user".as_bytes_vec());
    r.push(owner.to_vec());
    assert(seeds_view(r@) =~= user_seeds(owner@));
    proof {
        reveal_strlit("user");
        assert(is_ascii_chars("user"@));
        lemma_tag("user"@);
        assert(seeds_fit(seeds_view(r@)));
    }
    r
}

pub fn collection_seed_list(owner: &Address, sequence: u64) -> (r: Vec<Vec<u8>>)
    ensures
        seeds_view(r@) == collection_seeds(owner@, sequence),
        seeds_fit(seeds_view(r@)),
{
    let mut r: Vec<Vec<u8>> = Vec::new();
    r.push("collection".as_bytes_vec());
    r.push(owner.to_vec());
    r.push(u64_to_le_bytes(sequence));
    assert(seeds_view(r@) =~= collection_seeds(owner@, sequence));
    proof {
        reveal_strlit("collection");
        assert(is_ascii_chars("collection"@));
        lemma_tag("collection"@);
        lemma_auto_spec_u64_to_from_le_bytes();
        assert(seeds_fit(seeds_view(r@)));
    }
    r
}

pub fn member_seed_list(collection: &Address, mint: &Address) -> (r: Vec<Vec<u8>>)
    ensures
        seeds_view(r@) == member_seeds(collection@, mint@),
        seeds_fit(seeds_view(r@)),
{
    let mut r: Vec<Vec<u8>> = Vec::new();
    r.push("nft".as_bytes_vec());
    r.push(collection.to_vec());
    r.push(mint.to_vec());
    assert(seeds_view(r@) =~= member_seeds(collection@, mint@));
    proof {
        reveal_strlit("nft");
        assert(is_ascii_chars("nft"@));
        lemma_tag("nft"@);
        assert(seeds_fit(seeds_view(r@)));
    }
    r
}

pub fn metadata_seed_list(registry: &Address, mint: &Address) -> (r: Vec<Vec<u8>>)
    ensures
        seeds_view(r@) == metadata_seeds(registry@, mint@),
        seeds_fit(seeds_view(r@)),
{
    let mut r: Vec<Vec<u8>> = Vec::new();
    r.push("metadata".as_bytes_vec());
    r.push(registry.to_vec());
    r.push(mint.to_vec());
    assert(seeds_view(r@) =~= metadata_seeds(registry@, mint@));
    proof {
        reveal_strlit("metadata");
        assert(is_ascii_chars("metadata"@));
        lemma_tag("metadata"@);
        assert(seeds_fit(seeds_view(r@)));
    }
    r
}

pub fn edition_seed_list(registry: &Address, mint: &Address) -> (r: Vec<Vec<u8>>)
    ensures
        seeds_view(r@) == edition_seeds(registry@, mint@),
        seeds_fit(seeds_view(r@)),
{
    let mut r: Vec<Vec<u8>> = Vec::new();
    r.push("metadata".as_bytes_vec());
    r.push(registry.to_vec());
    r.push(mint.to_vec());
    r.push("edition".as_bytes_vec());
    assert(seeds_view(r@) =~= edition_seeds(registry@, mint@));
    proof {
        reveal_strlit("metadata");
        assert(is_ascii_chars("metadata"@));
        lemma_tag("metadata"@);
        reveal_strlit("edition");
        assert(is_ascii_chars("edition"@));
        lemma_tag("edition"@);
        assert(seeds_fit(seeds_view(r@)));
    }
    r
}

/// Derives the address and canonical bump for a list of seeds under `program_id`.
pub fn derive_address(seeds: &Vec<Vec<u8>>, program_id: &Address) -> (r: Option<(Address, u8)>)
    requires
        seeds_fit(seeds_view(seeds@)),
    ensures
        address_bump_opt_view(r) == canonical_address(seeds_view(seeds@), program_id@),
        r matches Some((a, b)) ==> program_address(
            seeds_view(seeds@).push(seq![b]),
            program_id@,
        ) == Some(a@),
{
    proof { lemma_bump_search(seeds_view(seeds@), program_id@, 255); }
    try_find_program_address(seeds, program_id)
}

/// Re-derives the address of a list of seeds with a known bump appended.
pub fn derive_with_bump(seeds: &Vec<Vec<u8>>, bump: u8, program_id: &Address) -> (r: Option<Address>)
    ensures
        address_opt_view(r) == program_address(seeds_view(seeds@).push(seq![bump]), program_id@),
{
    let mut full: Vec<Vec<u8>> = Vec::new();
    let mut i: usize = 0;
    while i < seeds.len()
        invariant
            0 <= i <= seeds@.len(),
            full@.len() == i,
            forall|j: int| 0 <= j < i ==> #[trigger] full@[j]@ == seeds@[j]@,
        decreases seeds@.len() - i,
    {
        full.push(slice_to_vec(seeds[i].as_slice()));
        i = i + 1;
    }
    let ghost before = seeds_view(seeds@);
    assert(seeds_view(full@) =~= before);
    let mut b: Vec<u8> = Vec::new();
    b.push(bump);
    full.push(b);
    assert(seeds_view(full@) =~= before.push(seq![bump]));
    create_program_address(&full, program_id)
}

} // verus!

use vstd::prelude::*;
use vstd::bytes::*;
use vstd::slice::slice_subrange;
use vstd::utf8::encode_utf8;
use vstd::string::{StrSliceExecFns, StringSliceAdditionalSpecFns};
use crate::address::{Address, sha256, sha256_of};
use crate::codec::{
    at_offset, bytes_eq, lemma_string_pieces, get_i64, get_string, get_u16, get_u64, get_u8, i64_bytes, put_bytes,
    put_i64, put_string, put_u16, put_u64, put_u8, storable, string_bytes, take,
};
use crate::layout::{
    string_size, DISCRIMINATOR_LENGTH, I64_LENGTH, PUBLIC_KEY_LENGTH, U16_LENGTH, U8_LENGTH,
};

verus! {

/// The type tag of a record kind: the first eight bytes of the SHA-256 digest of
/// `account:` followed by the kind's name.
pub open spec fn discriminator_of(kind: Seq<char>) -> Seq<u8> {
    first_eight(sha256_of(encode_utf8("account:"@ + kind)))
}

pub open spec fn first_eight(digest: Seq<u8>) -> Seq<u8> {
    Seq::new(8, |i: int| digest[i])
}

fn discriminator(tagged: &str) -> (r: Vec<u8>)
    ensures
        r@ == first_eight(sha256_of(encode_utf8(tagged@))),
{
    let digest = sha256(tagged.as_bytes());
    let r = vstd::slice::slice_to_vec(slice_subrange(digest.as_slice(), 0, 8));
    assert(r@ =~= first_eight(sha256_of(encode_utf8(tagged@))));
    r
}

// ---------------------------------------------------------------- user record

/// The per-owner record that numbers the owner's collections.
#[derive(Clone, Copy, Debug)]
pub struct UserAccount {
    pub collection_count: u64,
    pub bump: u8,
}

/// Stored bytes of a user record.
pub open spec fn user_bytes(u: UserAccount) -> Seq<u8> {
    discriminator_of("UserAccount"@) + spec_u64_to_le_bytes(u.collection_count) + seq![u.bump]
}

impl UserAccount {
    /// Stored size of a user record.
    pub fn get_space() -> (r: usize)
        ensures
            r == DISCRIMINATOR_LENGTH + I64_LENGTH + U8_LENGTH,
    {
        DISCRIMINATOR_LENGTH + I64_LENGTH + U8_LENGTH
    }

    pub fn serialize(&self) -> (r: Vec<u8>)
        ensures
            r@ == user_bytes(*self),
            r@.len() == DISCRIMINATOR_LENGTH + I64_LENGTH + U8_LENGTH,
    {
        let mut buf = discriminator("account:UserAccount");
        proof { reveal_strlit("account:UserAccount"); reveal_strlit("UserAccount"); reveal_strlit("account:"); 
            assert("account:UserAccount"@ =~= "account:"@ + "UserAccount"@);
            lemma_auto_spec_u64_to_from_le_bytes();
        }
        put_u64(&mut buf, self.collection_count);
        put_u8(&mut buf, self.bump);
        buf
    }

    pub fn deserialize(data: &[u8]) -> (r: Option<UserAccount>)
        ensures
            r matches Some(u) ==> user_bytes(u) == data@,
            forall|u: UserAccount| #[trigger] user_bytes(u) == data@ ==> r == Some(u),
    {
        let disc = discriminator("account:UserAccount");
        proof { reveal_strlit("account:UserAccount"); reveal_strlit("UserAccount"); reveal_strlit("account:");
            assert("account:UserAccount"@ =~= "account:"@ + "UserAccount"@);
            lemma_auto_spec_u64_to_from_le_bytes();
            assert forall|u: UserAccount| #[trigger] user_bytes(u) == data@ implies
                at_offset(data@, 0, discriminator_of("UserAccount"@))
                && at_offset(data@, 8, spec_u64_to_le_bytes(u.collection_count))
                && at_offset(data@, 16, seq![u.bump]) && data@.len() == 17 by {
                assert(data@.subrange(0, 8) =~= discriminator_of("UserAccount"@));
                assert(data@.subrange(8, 16) =~= spec_u64_to_le_bytes(u.collection_count));
                assert(data@.subrange(16, 17) =~= seq![u.bump]);
            }
        }
        if data.len() != 17 {
            return None;
        }
        let head = slice_subrange(data, 0, 8);
        if !bytes_eq(head, disc.as_slice()) {
            return None;
        }
        let count = match get_u64(data, 8) { Some(v) => v, None => return None };
        let bump = match get_u8(data, 16) { Some(v) => v, None => return None };
        let u = UserAccount { collection_count: count, bump };
        assert(data@ =~= head@ + data@.subrange(8, 16) + data@.subrange(16, 17));
        Some(u)
    }
}

} // verus!

verus! {

// ---------------------------------------------------------- collection record

/// One issued collection.
#[derive(Clone, Debug)]
pub struct CollectionAccount {
    pub owner: Address,
    pub token_mint: Address,
    pub sequence: u64,
    pub member_count: u16,
    pub bump: u8,
    pub created: i64,
    pub name: String,
    pub symbol: String,
    pub ipfs_image_hash: String,
}

/// What a collection record holds.
pub struct CollectionView {
    pub owner: Seq<u8>,
    pub token_mint: Seq<u8>,
    pub sequence: u64,
    pub member_count: u16,
    pub bump: u8,
    pub created: i64,
    pub name: Seq<char>,
    pub symbol: Seq<char>,
    pub ipfs_image_hash: Seq<char>,
}

impl CollectionView {
    pub open spec fn wf(self) -> bool {
        &&& self.owner.len() == 32
        &&& self.token_mint.len() == 32
        &&& storable(self.name)
        &&& storable(self.symbol)
        &&& storable(self.ipfs_image_hash)
    }
}

impl View for CollectionAccount {
    type V = CollectionView;

    open spec fn view(&self) -> CollectionView {
        CollectionView {
            owner: self.owner@,
            token_mint: self.token_mint@,
            sequence: self.sequence,
            member_count: self.member_count,
            bump: self.bump,
            created: self.created,
            name: self.name@,
            symbol: self.symbol@,
            ipfs_image_hash: self.ipfs_image_hash@,
        }
    }
}

/// Bytes of the fixed-width part of a stored collection record.
pub open spec fn collection_fixed_bytes(v: CollectionView) -> Seq<u8> {
    discriminator_of("CollectionAccount"@) + v.owner + v.token_mint + spec_u64_to_le_bytes(v.sequence)
        + spec_u16_to_le_bytes(v.member_count) + seq![v.bump] + i64_bytes(v.created)
}

/// Stored bytes of a collection record.
pub open spec fn collection_bytes(v: CollectionView) -> Seq<u8> {
    collection_fixed_bytes(v) + string_bytes(v.name) + string_bytes(v.symbol) + string_bytes(
        v.ipfs_image_hash,
    )
}

/// Stored size of a collection record with these strings.
pub open spec fn collection_space(name: Seq<char>, symbol: Seq<char>, image: Seq<char>) -> int {
    DISCRIMINATOR_LENGTH + PUBLIC_KEY_LENGTH + PUBLIC_KEY_LENGTH + I64_LENGTH + U16_LENGTH
        + U8_LENGTH + I64_LENGTH + string_size(name) + string_size(symbol) + string_size(image)
}

pub proof fn lemma_string_bytes_len(s: Seq<char>)
    ensures
        string_bytes(s).len() == string_size(s),
{
    lemma_auto_spec_u32_to_from_le_bytes();
}

/// Two storable strings stored at the same offset of the same bytes are the same string.
pub proof fn lemma_string_at(data: Seq<u8>, at: int, x: Seq<char>, y: Seq<char>)
    requires
        storable(x),
        storable(y),
        at_offset(data, at, string_bytes(x)),
        at_offset(data, at, string_bytes(y)),
    ensures
        x == y,
{
    lemma_auto_spec_u32_to_from_le_bytes();
    lemma_string_pieces(data, at, x);
    lemma_string_pieces(data, at, y);
    let kx = encode_utf8(x).len();
    let ky = encode_utf8(y).len();
    assert(data.subrange(at, at + 4) == spec_u32_to_le_bytes(kx as u32));
    assert(data.subrange(at, at + 4) == spec_u32_to_le_bytes(ky as u32));
    assert(kx == ky);
    vstd::utf8::encode_utf8_decode_utf8(x);
    vstd::utf8::encode_utf8_decode_utf8(y);
}

proof fn lemma_collection_pieces(v: CollectionView, data: Seq<u8>)
    requires
        v.wf(),
        collection_bytes(v) == data,
    ensures
        at_offset(data, 0, discriminator_of("CollectionAccount"@)),
        at_offset(data, 8, v.owner),
        at_offset(data, 40, v.token_mint),
        at_offset(data, 72, spec_u64_to_le_bytes(v.sequence)),
        at_offset(data, 80, spec_u16_to_le_bytes(v.member_count)),
        at_offset(data, 82, seq![v.bump]),
        at_offset(data, 83, i64_bytes(v.created)),
        at_offset(data, 91, string_bytes(v.name)),
        at_offset(data, 91 + string_bytes(v.name).len() as int, string_bytes(v.symbol)),
        at_offset(
            data,
            91 + string_bytes(v.name).len() as int + string_bytes(v.symbol).len() as int,
            string_bytes(v.ipfs_image_hash),
        ),
        data.len() == 91 + string_bytes(v.name).len() + string_bytes(v.symbol).len()
            + string_bytes(v.ipfs_image_hash).len(),
        data.len() == collection_space(v.name, v.symbol, v.ipfs_image_hash),
{
    lemma_auto_spec_u64_to_from_le_bytes();
    lemma_auto_spec_u16_to_from_le_bytes();
    lemma_string_bytes_len(v.name);
    lemma_string_bytes_len(v.symbol);
    lemma_string_bytes_len(v.ipfs_image_hash);
    let f = collection_fixed_bytes(v);
    assert(f.len() == 91);
    assert(data.subrange(0, 8) =~= discriminator_of("CollectionAccount"@));
    assert(data.subrange(8, 40) =~= v.owner);
    assert(data.subrange(40, 72) =~= v.token_mint);
    assert(data.subrange(72, 80) =~= spec_u64_to_le_bytes(v.sequence));
    assert(data.subrange(80, 82) =~= spec_u16_to_le_bytes(v.member_count));
    assert(data.subrange(82, 83) =~= seq![v.bump]);
    assert(data.subrange(83, 91) =~= i64_bytes(v.created));
    let a = string_bytes(v.name).len() as int;
    let b = string_bytes(v.symbol).len() as int;
    let c = string_bytes(v.ipfs_image_hash).len() as int;
    assert(data.subrange(91, 91 + a) =~= string_bytes(v.name));
    assert(data.subrange(91 + a, 91 + a + b) =~= string_bytes(v.symbol));
    assert(data.subrange(91 + a + b, 91 + a + b + c) =~= string_bytes(v.ipfs_image_hash));
}

/// The stored bytes of a collection record determine it: reading back what was written gives
/// the record that was written, every string field included.
pub proof fn lemma_collection_round_trip(v: CollectionView, w: CollectionView)
    requires
        v.wf(),
        w.wf(),
        collection_bytes(v) == collection_bytes(w),
    ensures
        v == w,
        collection_bytes(v).len() == collection_space(v.name, v.symbol, v.ipfs_image_hash),
{
    let d = collection_bytes(v);
    lemma_collection_pieces(v, d);
    lemma_collection_pieces(w, d);
    lemma_auto_spec_u64_to_from_le_bytes();
    lemma_auto_spec_u16_to_from_le_bytes();
    assert(v.owner =~= d.subrange(8, 40));
    assert(w.owner =~= d.subrange(8, 40));
    assert(v.token_mint =~= d.subrange(40, 72));
    assert(w.token_mint =~= d.subrange(40, 72));
    assert(spec_u64_to_le_bytes(v.sequence) == spec_u64_to_le_bytes(w.sequence));
    assert(spec_u16_to_le_bytes(v.member_count) == spec_u16_to_le_bytes(w.member_count));
    assert(seq![v.bump][0] == seq![w.bump][0]);
    assert(i64_bytes(v.created) == i64_bytes(w.created));
    assert(v.created as u64 == w.created as u64);
    let a = v.created;
    let b = w.created;
    assert(a == b) by (bit_vector)
        requires
            a as u64 == b as u64,
    ;
    lemma_string_at(d, 91, v.name, w.name);
    lemma_string_at(d, 91 + string_bytes(v.name).len() as int, v.symbol, w.symbol);
    lemma_string_at(
        d,
        91 + string_bytes(v.name).len() as int + string_bytes(v.symbol).len() as int,
        v.ipfs_image_hash,
        w.ipfs_image_hash,
    );
}

impl CollectionAccount {
    pub open spec fn wf(&self) -> bool {
        self@.wf()
    }

    /// Stored size of one string field.
    pub fn get_string_size(property: &str) -> (r: usize)
        requires
            string_size(property@) <= usize::MAX,
        ensures
            r == string_size(property@),
    {
        crate::layout::get_string_size(property)
    }

    /// Exact stored size of a collection record with these strings.
    pub fn get_space(name: &str, symbol: &str, ipfs_image_hash: &str) -> (r: usize)
        requires
            collection_space(name@, symbol@, ipfs_image_hash@) <= usize::MAX,
        ensures
            r == collection_space(name@, symbol@, ipfs_image_hash@),
    {
        DISCRIMINATOR_LENGTH + PUBLIC_KEY_LENGTH + PUBLIC_KEY_LENGTH + I64_LENGTH + U16_LENGTH
            + U8_LENGTH + I64_LENGTH + Self::get_string_size(name) + Self::get_string_size(symbol)
            + Self::get_string_size(ipfs_image_hash)
    }

    /// The same record with `member_count` members.
    pub fn with_member_count(&self, member_count: u16) -> (r: CollectionAccount)
        ensures
            r@ == (CollectionView { member_count, ..self@ }),
    {
        CollectionAccount {
            owner: self.owner,
            token_mint: self.token_mint,
            sequence: self.sequence,
            member_count,
            bump: self.bump,
            created: self.created,
            name: self.name.clone(),
            symbol: self.symbol.clone(),
            ipfs_image_hash: self.ipfs_image_hash.clone(),
        }
    }

    pub fn serialize(&self) -> (r: Vec<u8>)
        requires
            self.wf(),
        ensures
            r@ == collection_bytes(self@),
            r@.len() == collection_space(self.name@, self.symbol@, self.ipfs_image_hash@),
    {
        let mut buf = discriminator("account:CollectionAccount");
        proof {
            reveal_strlit("account:CollectionAccount");
            reveal_strlit("CollectionAccount");
            reveal_strlit("account:");
            assert("account:CollectionAccount"@ =~= "account:"@ + "CollectionAccount"@);
        }
        put_bytes(&mut buf, self.owner.bytes.as_slice());
        put_bytes(&mut buf, self.token_mint.bytes.as_slice());
        put_u64(&mut buf, self.sequence);
        put_u16(&mut buf, self.member_count);
        put_u8(&mut buf, self.bump);
        put_i64(&mut buf, self.created);
        put_string(&mut buf, self.name.as_str());
        put_string(&mut buf, self.symbol.as_str());
        put_string(&mut buf, self.ipfs_image_hash.as_str());
        proof {
            assert(buf@ =~= collection_bytes(self@));
            lemma_collection_pieces(self@, buf@);
        }
        buf
    }

    pub fn deserialize(data: &[u8]) -> (r: Option<CollectionAccount>)
        ensures
            r matches Some(c) ==> c.wf() && collection_bytes(c@) == data@,
            forall|v: CollectionView|
                v.wf() && #[trigger] collection_bytes(v) == data@ ==> (r is Some && r->0@ == v),
    {
        let disc = discriminator("account:CollectionAccount");
        proof {
            reveal_strlit("account:CollectionAccount");
            reveal_strlit("CollectionAccount");
            reveal_strlit("account:");
            assert("account:CollectionAccount"@ =~= "account:"@ + "CollectionAccount"@);
            assert forall|v: CollectionView| v.wf() && #[trigger] collection_bytes(v) == data@ implies
                at_offset(data@, 0, discriminator_of("CollectionAccount"@))
                && at_offset(data@, 8, v.owner)
                && at_offset(data@, 40, v.token_mint)
                && at_offset(data@, 72, spec_u64_to_le_bytes(v.sequence))
                && at_offset(data@, 80, spec_u16_to_le_bytes(v.member_count))
                && at_offset(data@, 82, seq![v.bump])
                && at_offset(data@, 83, i64_bytes(v.created))
                && at_offset(data@, 91, string_bytes(v.name))
                && at_offset(data@, 91 + string_bytes(v.name).len() as int, string_bytes(v.symbol))
                && at_offset(data@, 91 + string_bytes(v.name).len() as int + string_bytes(v.symbol).len() as int,
                    string_bytes(v.ipfs_image_hash))
                && data@.len() == 91 + string_bytes(v.name).len() + string_bytes(v.symbol).len()
                    + string_bytes(v.ipfs_image_hash).len() by {
                lemma_collection_pieces(v, data@);
            }
        }
        let head = match take(data, 0, 8) { Some(h) => h, None => return None };
        if !bytes_eq(head, disc.as_slice()) {
            return None;
        }
        let owner = match take(data, 8, 32) { Some(b) => Address::from_slice(b), None => return None };
        let mint = match take(data, 40, 32) { Some(b) => Address::from_slice(b), None => return None };
        let sequence = match get_u64(data, 72) { Some(v) => v, None => return None };
        let member_count = match get_u16(data, 80) { Some(v) => v, None => return None };
        let bump = match get_u8(data, 82) { Some(v) => v, None => return None };
        let created = match get_i64(data, 83) { Some(v) => v, None => return None };
        let (name, after_name) = match get_string(data, 91) { Some(x) => x, None => return None };
        let (symbol, after_symbol) = match get_string(data, after_name) { Some(x) => x, None => return None };
        let (image, end) = match get_string(data, after_symbol) { Some(x) => x, None => return None };
        if end != data.len() {
            return None;
        }
        let c = CollectionAccount {
            owner,
            token_mint: mint,
            sequence,
            member_count,
            bump,
            created,
            name,
            symbol,
            ipfs_image_hash: image,
        };
        proof {
            lemma_auto_spec_u32_to_from_le_bytes();
            lemma_auto_spec_u64_to_from_le_bytes();
            lemma_auto_spec_u16_to_from_le_bytes();
            assert(string_bytes(c.name@).len() == 4 + encode_utf8(c.name@).len());
            assert(string_bytes(c.symbol@).len() == 4 + encode_utf8(c.symbol@).len());
            assert(string_bytes(c.ipfs_image_hash@).len() == 4 + encode_utf8(c.ipfs_image_hash@).len());
            let d = data@;
            assert(d =~= d.subrange(0, 8) + d.subrange(8, 40) + d.subrange(40, 72) + d.subrange(72, 80)
                + d.subrange(80, 82) + d.subrange(82, 83) + d.subrange(83, 91) + d.subrange(
                91,
                after_name as int,
            ) + d.subrange(after_name as int, after_symbol as int) + d.subrange(after_symbol as int, end as int));
            assert(d.subrange(0, 8) == discriminator_of("CollectionAccount"@));
            assert(d.subrange(8, 40) == c.owner@);
            assert(d.subrange(40, 72) == c.token_mint@);
            assert(d.subrange(72, 80) == spec_u64_to_le_bytes(sequence));
            assert(d.subrange(80, 82) == spec_u16_to_le_bytes(member_count));
            assert(d.subrange(82, 83) =~= seq![bump]);
            assert(d.subrange(83, 91) == i64_bytes(created));
            assert(d.subrange(91, after_name as int) == string_bytes(c.name@));
            assert(d.subrange(after_name as int, after_symbol as int) == string_bytes(c.symbol@));
            assert(d.subrange(after_symbol as int, end as int) == string_bytes(c.ipfs_image_hash@));
            assert(data@ =~= collection_bytes(c@));
        }
        Some(c)
    }
}

} // verus!

verus! {

// -------------------------------------------------------------- member record

/// One item minted into a collection.
#[derive(Clone, Debug)]
pub struct NftAccount {
    pub token_mint: Address,
    pub collection_mint: Address,
    pub created: i64,
    pub name: String,
    pub ipfs_image_hash: String,
}

/// What a member record holds.
pub struct NftView {
    pub token_mint: Seq<u8>,
    pub collection_mint: Seq<u8>,
    pub created: i64,
    pub name: Seq<char>,
    pub ipfs_image_hash: Seq<char>,
}

impl NftView {
    pub open spec fn wf(self) -> bool {
        &&& self.token_mint.len() == 32
        &&& self.collection_mint.len() == 32
        &&& storable(self.name)
        &&& storable(self.ipfs_image_hash)
    }
}

impl View for NftAccount {
    type V = NftView;

    open spec fn view(&self) -> NftView {
        NftView {
            token_mint: self.token_mint@,
            collection_mint: self.collection_mint@,
            created: self.created,
            name: self.name@,
            ipfs_image_hash: self.ipfs_image_hash@,
        }
    }
}

/// Stored bytes of a member record.
pub open spec fn nft_bytes(v: NftView) -> Seq<u8> {
    discriminator_of("NftAccount"@) + v.token_mint + v.collection_mint + i64_bytes(v.created)
        + string_bytes(v.name) + string_bytes(v.ipfs_image_hash)
}

/// Stored size of a member record with these strings.
pub open spec fn nft_space(name: Seq<char>, image: Seq<char>) -> int {
    DISCRIMINATOR_LENGTH + PUBLIC_KEY_LENGTH + PUBLIC_KEY_LENGTH + I64_LENGTH + string_size(name)
        + string_size(image)
}

proof fn lemma_nft_pieces(v: NftView, data: Seq<u8>)
    requires
        v.wf(),
        nft_bytes(v) == data,
    ensures
        at_offset(data, 0, discriminator_of("NftAccount"@)),
        at_offset(data, 8, v.token_mint),
        at_offset(data, 40, v.collection_mint),
        at_offset(data, 72, i64_bytes(v.created)),
        at_offset(data, 80, string_bytes(v.name)),
        at_offset(data, 80 + string_bytes(v.name).len() as int, string_bytes(v.ipfs_image_hash)),
        data.len() == 80 + string_bytes(v.name).len() + string_bytes(v.ipfs_image_hash).len(),
        data.len() == nft_space(v.name, v.ipfs_image_hash),
{
    lemma_auto_spec_u64_to_from_le_bytes();
    lemma_string_bytes_len(v.name);
    lemma_string_bytes_len(v.ipfs_image_hash);
    assert(data.subrange(0, 8) =~= discriminator_of("NftAccount"@));
    assert(data.subrange(8, 40) =~= v.token_mint);
    assert(data.subrange(40, 72) =~= v.collection_mint);
    assert(data.subrange(72, 80) =~= i64_bytes(v.created));
    let a = string_bytes(v.name).len() as int;
    let b = string_bytes(v.ipfs_image_hash).len() as int;
    assert(data.subrange(80, 80 + a) =~= string_bytes(v.name));
    assert(data.subrange(80 + a, 80 + a + b) =~= string_bytes(v.ipfs_image_hash));
}

/// The stored bytes of a member record determine it: reading back what was written gives the
/// record that was written, and it fills exactly the size formula.
pub proof fn lemma_nft_round_trip(v: NftView, w: NftView)
    requires
        v.wf(),
        w.wf(),
        nft_bytes(v) == nft_bytes(w),
    ensures
        v == w,
        nft_bytes(v).len() == nft_space(v.name, v.ipfs_image_hash),
{
    let d = nft_bytes(v);
    lemma_nft_pieces(v, d);
    lemma_nft_pieces(w, d);
    lemma_auto_spec_u64_to_from_le_bytes();
    assert(v.token_mint =~= d.subrange(8, 40));
    assert(w.token_mint =~= d.subrange(8, 40));
    assert(v.collection_mint =~= d.subrange(40, 72));
    assert(w.collection_mint =~= d.subrange(40, 72));
    assert(i64_bytes(v.created) == i64_bytes(w.created));
    let a = v.created;
    let b = w.created;
    assert(a == b) by (bit_vector)
        requires
            a as u64 == b as u64,
    ;
    lemma_string_at(d, 80, v.name, w.name);
    lemma_string_at(d, 80 + string_bytes(v.name).len() as int, v.ipfs_image_hash, w.ipfs_image_hash);
}

impl NftAccount {
    pub open spec fn wf(&self) -> bool {
        self@.wf()
    }

    /// Stored size of one string field.
    pub fn get_string_size(property: &str) -> (r: usize)
        requires
            string_size(property@) <= usize::MAX,
        ensures
            r == string_size(property@),
    {
        crate::layout::get_string_size(property)
    }

    /// Exact stored size of a member record with these strings.
    pub fn get_space(name: &str, ipfs_image_hash: &str) -> (r: usize)
        requires
            nft_space(name@, ipfs_image_hash@) <= usize::MAX,
        ensures
            r == nft_space(name@, ipfs_image_hash@),
    {
        DISCRIMINATOR_LENGTH + PUBLIC_KEY_LENGTH + PUBLIC_KEY_LENGTH + I64_LENGTH
            + Self::get_string_size(name) + Self::get_string_size(ipfs_image_hash)
    }

    pub fn serialize(&self) -> (r: Vec<u8>)
        requires
            self.wf(),
        ensures
            r@ == nft_bytes(self@),
            r@.len() == nft_space(self.name@, self.ipfs_image_hash@),
    {
        let mut buf = discriminator("account:NftAccount");
        proof {
            reveal_strlit("account:NftAccount");
            reveal_strlit("NftAccount");
            reveal_strlit("account:");
            assert("account:NftAccount"@ =~= "account:"@ + "NftAccount"@);
        }
        put_bytes(&mut buf, self.token_mint.bytes.as_slice());
        put_bytes(&mut buf, self.collection_mint.bytes.as_slice());
        put_i64(&mut buf, self.created);
        put_string(&mut buf, self.name.as_str());
        put_string(&mut buf, self.ipfs_image_hash.as_str());
        proof {
            assert(buf@ =~= nft_bytes(self@));
            lemma_nft_pieces(self@, buf@);
        }
        buf
    }

    pub fn deserialize(data: &[u8]) -> (r: Option<NftAccount>)
        ensures
            r matches Some(c) ==> c.wf() && nft_bytes(c@) == data@,
            forall|v: NftView| v.wf() && #[trigger] nft_bytes(v) == data@ ==> (r is Some && r->0@ == v),
    {
        let disc = discriminator("account:NftAccount");
        proof {
            reveal_strlit("account:NftAccount");
            reveal_strlit("NftAccount");
            reveal_strlit("account:");
            assert("account:NftAccount"@ =~= "account:"@ + "NftAccount"@);
            assert forall|v: NftView| v.wf() && #[trigger] nft_bytes(v) == data@ implies
                at_offset(data@, 0, discriminator_of("NftAccount"@))
                && at_offset(data@, 8, v.token_mint)
                && at_offset(data@, 40, v.collection_mint)
                && at_offset(data@, 72, i64_bytes(v.created))
                && at_offset(data@, 80, string_bytes(v.name))
                && at_offset(data@, 80 + string_bytes(v.name).len() as int, string_bytes(v.ipfs_image_hash))
                && data@.len() == 80 + string_bytes(v.name).len() + string_bytes(v.ipfs_image_hash).len() by {
                lemma_nft_pieces(v, data@);
            }
        }
        let head = match take(data, 0, 8) { Some(h) => h, None => return None };
        if !bytes_eq(head, disc.as_slice()) {
            return None;
        }
        let mint = match take(data, 8, 32) { Some(b) => Address::from_slice(b), None => return None };
        let collection_mint = match take(data, 40, 32) {
            Some(b) => Address::from_slice(b),
            None => return None,
        };
        let created = match get_i64(data, 72) { Some(v) => v, None => return None };
        let (name, after_name) = match get_string(data, 80) { Some(x) => x, None => return None };
        let (image, end) = match get_string(data, after_name) { Some(x) => x, None => return None };
        if end != data.len() {
            return None;
        }
        let c = NftAccount { token_mint: mint, collection_mint, created, name, ipfs_image_hash: image };
        proof {
            lemma_auto_spec_u64_to_from_le_bytes();
            let d = data@;
            assert(d =~= d.subrange(0, 8) + d.subrange(8, 40) + d.subrange(40, 72) + d.subrange(72, 80)
                + d.subrange(80, after_name as int) + d.subrange(after_name as int, end as int));
            assert(d.subrange(0, 8) == discriminator_of("NftAccount"@));
            assert(d.subrange(72, 80) == i64_bytes(created));
            assert(data@ =~= nft_bytes(c@));
        }
        Some(c)
    }
}

} // verus!

use vstd::prelude::*;
use vstd::bytes::*;
use vstd::slice::slice_subrange;
use vstd::utf8::{encode_utf8, valid_utf8, encode_utf8_valid_utf8, encode_utf8_decode_utf8};
use vstd::string::StringSliceAdditionalSpecFns;

verus! {

/// Whether `piece` stands in `data` from offset `at` on.
pub open spec fn at_offset(data: Seq<u8>, at: int, piece: Seq<u8>) -> bool {
    0 <= at && at + piece.len() <= data.len() && data.subrange(at, at + piece.len()) == piece
}

/// Stored form of a string: its UTF-8 length as four little-endian bytes, then the bytes.
pub open spec fn string_bytes(s: Seq<char>) -> Seq<u8> {
    spec_u32_to_le_bytes(encode_utf8(s).len() as u32) + encode_utf8(s)
}

/// Whether a string's stored length fits its four-byte prefix.
pub open spec fn storable(s: Seq<char>) -> bool {
    encode_utf8(s).len() <= u32::MAX
}

/// Stored form of an `i64`: its two's complement bits, little-endian.
pub open spec fn i64_bytes(v: i64) -> Seq<u8> {
    spec_u64_to_le_bytes(v as u64)
}

/// Relies on `String::from_utf8`: it succeeds exactly on valid UTF-8 and keeps the bytes.
#[verifier::external_body]
fn string_from_utf8(bytes: Vec<u8>) -> (r: Option<String>)
    ensures
        r is Some <==> valid_utf8(bytes@),
        r matches Some(s) ==> encode_utf8(s@) == bytes@,
{
    String::from_utf8(bytes).ok()
}

pub fn put_bytes(buf: &mut Vec<u8>, b: &[u8])
    ensures
        final(buf)@ == old(buf)@ + b@,
{
    let ghost start = buf@;
    let mut i: usize = 0;
    while i < b.len()
        invariant
            0 <= i <= b@.len(),
            buf@ =~= start + b@.subrange(0, i as int),
        decreases b@.len() - i,
    {
        buf.push(b[i]);
        i = i + 1;
    }
    assert(b@.subrange(0, b@.len() as int) =~= b@);
}

pub fn put_u8(buf: &mut Vec<u8>, v: u8)
    ensures
        final(buf)@ == old(buf)@ + seq![v],
{
    buf.push(v);
    assert(final(buf)@ =~= old(buf)@ + seq![v]);
}

pub fn put_u16(buf: &mut Vec<u8>, v: u16)
    ensures
        final(buf)@ == old(buf)@ + spec_u16_to_le_bytes(v),
{
    let b = u16_to_le_bytes(v);
    put_bytes(buf, b.as_slice());
}

pub fn put_u64(buf: &mut Vec<u8>, v: u64)
    ensures
        final(buf)@ == old(buf)@ + spec_u64_to_le_bytes(v),
{
    let b = u64_to_le_bytes(v);
    put_bytes(buf, b.as_slice());
}

pub fn put_i64(buf: &mut Vec<u8>, v: i64)
    ensures
        final(buf)@ == old(buf)@ + i64_bytes(v),
{
    put_u64(buf, v as u64);
}

pub fn put_string(buf: &mut Vec<u8>, s: &str)
    requires
        encode_utf8(s@).len() <= u32::MAX,
    ensures
        final(buf)@ == old(buf)@ + string_bytes(s@),
{
    let bytes = s.as_bytes();
    let n = u32_to_le_bytes(bytes.len() as u32);
    put_bytes(buf, n.as_slice());
    put_bytes(buf, bytes);
    assert(final(buf)@ =~= old(buf)@ + string_bytes(s@));
}

/// Reads `n` bytes at `at`.
pub fn take(data: &[u8], at: usize, n: usize) -> (r: Option<&[u8]>)
    ensures
        r is Some <==> at + n <= data@.len(),
        r matches Some(v) ==> v@ == data@.subrange(at as int, at + n),
{
    if at <= data.len() && n <= data.len() - at {
        Some(slice_subrange(data, at, at + n))
    } else {
        None
    }
}

pub fn get_u8(data: &[u8], at: usize) -> (r: Option<u8>)
    ensures
        r is Some <==> at + 1 <= data@.len(),
        r matches Some(v) ==> at_offset(data@, at as int, seq![v]),
        forall|x: u8| at_offset(data@, at as int, seq![x]) ==> r == Some(x),
{
    if at < data.len() {
        let v = data[at];
        assert(data@.subrange(at as int, at + 1) =~= seq![v]);
        proof {
            assert forall|x: u8| at_offset(data@, at as int, seq![x]) implies v == x by {
                assert(data@.subrange(at as int, at + 1)[0] == data@[at as int]);
            }
        }
        Some(v)
    } else {
        None
    }
}

pub fn get_u16(data: &[u8], at: usize) -> (r: Option<u16>)
    ensures
        r is Some <==> at + 2 <= data@.len(),
        r matches Some(v) ==> at_offset(data@, at as int, spec_u16_to_le_bytes(v)),
        forall|x: u16| at_offset(data@, at as int, spec_u16_to_le_bytes(x)) ==> r == Some(x),
{
    proof { lemma_auto_spec_u16_to_from_le_bytes(); }
    match take(data, at, 2) {
        Some(b) => Some(u16_from_le_bytes(b)),
        None => None,
    }
}

pub fn get_u32(data: &[u8], at: usize) -> (r: Option<u32>)
    ensures
        r is Some <==> at + 4 <= data@.len(),
        r matches Some(v) ==> at_offset(data@, at as int, spec_u32_to_le_bytes(v)),
        forall|x: u32| at_offset(data@, at as int, spec_u32_to_le_bytes(x)) ==> r == Some(x),
{
    proof { lemma_auto_spec_u32_to_from_le_bytes(); }
    match take(data, at, 4) {
        Some(b) => Some(u32_from_le_bytes(b)),
        None => None,
    }
}

pub fn get_u64(data: &[u8], at: usize) -> (r: Option<u64>)
    ensures
        r is Some <==> at + 8 <= data@.len(),
        r matches Some(v) ==> at_offset(data@, at as int, spec_u64_to_le_bytes(v)),
        forall|x: u64| at_offset(data@, at as int, spec_u64_to_le_bytes(x)) ==> r == Some(x),
{
    proof { lemma_auto_spec_u64_to_from_le_bytes(); }
    match take(data, at, 8) {
        Some(b) => Some(u64_from_le_bytes(b)),
        None => None,
    }
}

pub fn get_i64(data: &[u8], at: usize) -> (r: Option<i64>)
    ensures
        r is Some <==> at + 8 <= data@.len(),
        r matches Some(v) ==> at_offset(data@, at as int, i64_bytes(v)),
        forall|x: i64| at_offset(data@, at as int, i64_bytes(x)) ==> r == Some(x),
{
    match get_u64(data, at) {
        Some(u) => {
            let v = u as i64;
            assert((v as u64) == u) by (bit_vector)
                requires
                    v == u as i64,
            ;
            proof {
                assert forall|x: i64| at_offset(data@, at as int, i64_bytes(x)) implies v == x by {
                    assert(u == x as u64);
                    assert(x == (x as u64) as i64) by (bit_vector);
                }
            }
            Some(v)
        },
        None => None,
    }
}

/// A stored string at `at` is its length prefix at `at` and its UTF-8 bytes just after.
pub proof fn lemma_string_pieces(data: Seq<u8>, at: int, x: Seq<char>)
    requires
        storable(x),
        at_offset(data, at, string_bytes(x)),
    ensures
        at_offset(data, at, spec_u32_to_le_bytes(encode_utf8(x).len() as u32)),
        at_offset(data, at + 4, encode_utf8(x)),
        (encode_utf8(x).len() as u32) as int == encode_utf8(x).len(),
{
    lemma_auto_spec_u32_to_from_le_bytes();
    let k = encode_utf8(x).len() as u32;
    assert(data.subrange(at, at + 4) =~= string_bytes(x).subrange(0, 4));
    assert(string_bytes(x).subrange(0, 4) =~= spec_u32_to_le_bytes(k));
    assert(data.subrange(at + 4, at + 4 + k) =~= string_bytes(x).subrange(4, 4 + k as int));
    assert(string_bytes(x).subrange(4, 4 + k as int) =~= encode_utf8(x));
}

/// Reads a stored string at `at`, with the offset just after it.
pub fn get_string(data: &[u8], at: usize) -> (r: Option<(String, usize)>)
    ensures
        r matches Some((s, next)) ==> storable(s@) && next == at + string_bytes(s@).len() && at_offset(
            data@,
            at as int,
            string_bytes(s@),
        ),
        forall|x: Seq<char>|
            storable(x) && #[trigger] at_offset(data@, at as int, string_bytes(x)) ==> (r is Some && (r->0).0@ == x),
{
    proof {
        lemma_auto_spec_u32_to_from_le_bytes();
        assert forall|x: Seq<char>| storable(x) && #[trigger] at_offset(data@, at as int, string_bytes(x))
            implies at_offset(data@, at as int, spec_u32_to_le_bytes(encode_utf8(x).len() as u32))
            && at_offset(data@, at + 4, encode_utf8(x)) && (encode_utf8(x).len() as u32) as int
            == encode_utf8(x).len() by {
            lemma_string_pieces(data@, at as int, x);
        }
    }
    let len = data.len();
    assert(data@.len() == len);
    let n = match get_u32(data, at) {
        Some(n) => n,
        None => return None,
    };
    if at > usize::MAX - 4 {
        return None;
    }
    let start = at + 4;
    let body = match take(data, start, n as usize) {
        Some(b) => b,
        None => return None,
    };
    let owned = vstd::slice::slice_to_vec(body);
    match string_from_utf8(owned) {
        Some(s) => {
            let next = start + n as usize;
            proof {
                encode_utf8_decode_utf8(s@);
                assert(data@.subrange(at as int, next as int) =~= data@.subrange(at as int, at + 4) + body@);
                assert(data@.subrange(at as int, next as int) =~= string_bytes(s@));
                assert forall|x: Seq<char>|
                    storable(x) && #[trigger] at_offset(data@, at as int, string_bytes(x)) implies s@
                    == x by {
                    encode_utf8_decode_utf8(x);
                }
            }
            Some((s, next))
        },
        None => {
            proof {
                assert forall|x: Seq<char>|
                    storable(x) && #[trigger] at_offset(data@, at as int, string_bytes(x)) implies false by {
                    encode_utf8_valid_utf8(x);
                }
            }
            None
        },
    }
}

} // verus!

verus! {

/// Whether two byte strings are equal.
pub fn bytes_eq(a: &[u8], b: &[u8]) -> (r: bool)
    ensures
        r == (a@ == b@),
{
    if a.len() != b.len() {
        return false;
    }
    let mut i: usize = 0;
    while i < a.len()
        invariant
            0 <= i <= a@.len(),
            a@.len() == b@.len(),
            forall|j: int| 0 <= j < i ==> a@[j] == b@[j],
        decreases a@.len() - i,
    {
        if a[i] != b[i] {
            return false;
        }
        i = i + 1;
    }
    assert(a@ =~= b@);
    true
}

} // verus!

use vstd::prelude::*;
use vstd::string::StringSliceAdditionalSpecFns;

verus! {

/// Bytes of the type tag that opens every stored record.
pub const DISCRIMINATOR_LENGTH: usize = 8;

/// Bytes of an address.
pub const PUBLIC_KEY_LENGTH: usize = 32;

/// Bytes of the length prefix in front of every stored string.
pub const STRING_PREFIX_LENGTH: usize = 4;

/// Bytes of an `i64` or `u64` field.
pub const I64_LENGTH: usize = 8;

/// Bytes of a `u16` field.
pub const U16_LENGTH: usize = 2;

/// Bytes of a `u8` field.
pub const U8_LENGTH: usize = 1;

/// Stored size of a string: its length prefix and its UTF-8 bytes.
pub open spec fn string_size(s: Seq<char>) -> int {
    STRING_PREFIX_LENGTH + vstd::utf8::encode_utf8(s).len()
}

/// Stored size of one string field.
pub fn get_string_size(property: &str) -> (r: usize)
    requires
        property.spec_bytes().len() + STRING_PREFIX_LENGTH <= usize::MAX,
    ensures
        r == string_size(property@),
{
    property.as_bytes().len() + STRING_PREFIX_LENGTH
}

} // verus!

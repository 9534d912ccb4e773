//! Validation of a vault buffer's structural header.
//!
//! A vault buffer starts with a four-byte little-endian length, then that
//! many bytes of JSON carrying the format's magic string and version;
//! everything after the header is opaque payload, never read here.
//! Validation fails closed: any malformed prefix classifies the whole
//! buffer as untrusted, and no error is surfaced beyond the boolean.

use vstd::bytes::spec_u32_from_le_bytes;
use vstd::bytes::u32_from_le_bytes;
use vstd::prelude::*;
use vstd::slice::slice_subrange;
use vstd::slice::slice_to_vec;

use crate::jsonio::header_fields_of;
use crate::jsonio::parse_header_fields;

verus! {

/// The single supported format version.
pub const VAULT_VERSION: u64 = 1;

/// The magic string every vault header carries.
pub open spec fn vault_magic() -> Seq<char> {
    "CROWNIX_VAULT"@
}

/// The header length the first four bytes declare.
pub open spec fn header_len_of(buffer: Seq<u8>) -> u32
    recommends
        buffer.len() >= 4,
{
    spec_u32_from_le_bytes(buffer.subrange(0, 4))
}

/// The declared header region: the bytes after the length prefix.
pub open spec fn header_bytes_of(buffer: Seq<u8>) -> Seq<u8>
    recommends
        4 + header_len_of(buffer) <= buffer.len(),
{
    buffer.subrange(4, 4 + header_len_of(buffer))
}

/// A buffer trusted as a vault: long enough for its declared header, whose
/// header region parses as JSON carrying the magic string and the supported
/// version.
pub open spec fn valid_vault_header(buffer: Seq<u8>) -> bool {
    &&& buffer.len() >= 4
    &&& 4 + header_len_of(buffer) <= buffer.len()
    &&& header_fields_of(header_bytes_of(buffer)).0 == Some(vault_magic())
    &&& header_fields_of(header_bytes_of(buffer)).1 == Some(VAULT_VERSION)
}

/// Classifies a buffer: `true` exactly when its header is structurally
/// valid per [`valid_vault_header`].  Pure; the payload does not matter.
pub fn validate_vault_header(buffer: &Vec<u8>) -> (r: bool)
    ensures
        r == valid_vault_header(buffer@),
{
    if buffer.len() < 4 {
        return false;
    }
    let len_bytes = slice_subrange(buffer.as_slice(), 0, 4);
    let header_len = u32_from_le_bytes(len_bytes) as usize;
    if header_len > buffer.len() - 4 {
        return false;
    }
    let header = slice_to_vec(slice_subrange(buffer.as_slice(), 4, 4 + header_len));
    proof {
        assert(header@ =~= header_bytes_of(buffer@));
    }
    let (magic, version) = parse_header_fields(&header);
    let magic_ok = match magic {
        Some(m) => m == "CROWNIX_VAULT".to_owned(),
        None => false,
    };
    let version_ok = match version {
        Some(v) => v == VAULT_VERSION,
        None => false,
    };
    magic_ok && version_ok
}

/// Validity reads only the length prefix and the declared header region:
/// two buffers that agree on them classify alike, whatever payload follows
/// in either.
pub proof fn lemma_validate_ignores_payload(b1: Seq<u8>, b2: Seq<u8>)
    requires
        b1.len() >= 4,
        b2.len() >= 4,
        b1.subrange(0, 4) == b2.subrange(0, 4),
        4 + header_len_of(b1) <= b1.len(),
        4 + header_len_of(b1) <= b2.len(),
        b1.subrange(4, 4 + header_len_of(b1)) == b2.subrange(4, 4 + header_len_of(b1)),
    ensures
        valid_vault_header(b1) == valid_vault_header(b2),
{
    assert(header_len_of(b2) == header_len_of(b1));
    assert(header_bytes_of(b2) == header_bytes_of(b1));
}

} // verus!

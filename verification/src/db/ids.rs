use vstd::prelude::*;
use crate::text::{decimal, push_decimal, to_string};

verus! {

/// Whether 16 bytes carry the version (7) and variant (`10`) of a
/// time-ordered UUID.
pub open spec fn is_uuid_v7(b: Seq<u8>) -> bool {
    b.len() == 16 && b[6] & 0xF0 == 0x70 && b[8] & 0xC0 == 0x80
}

/// The 16 bytes of `uuid::Uuid::now_v7()` (taken with `as_bytes`): the
/// version nibble (high half of byte 6) is 7 and the top two bits of byte 8
/// are `10`; the other bits are the current Unix time in milliseconds, a
/// counter and random data, so nothing more is stated.
#[verifier::external_body]
fn uuid_now_v7() -> (r: [u8; 16])
    ensures
        is_uuid_v7(r@),
{
    *uuid::Uuid::now_v7().as_bytes()
}

/// A fresh time-ordered (version 7) UUID as bytes.
pub fn new_uuid_bytes() -> (r: [u8; 16])
    ensures
        is_uuid_v7(r@),
{
    uuid_now_v7()
}

/// A fresh time-ordered (version 7) UUID as a byte vector, for a BLOB column.
pub fn new_uuid_blob() -> (r: Vec<u8>)
    ensures
        is_uuid_v7(r@),
{
    let b = new_uuid_bytes();
    let v = vstd::slice::slice_to_vec(b.as_slice());
    v
}

/// The bytes of a UUID read back from a BLOB column (`uuid::Uuid::from_slice`):
/// exactly sixteen bytes, else an error naming the length found.
pub fn bytes_to_uuid(bytes: &[u8]) -> (r: Result<Vec<u8>, String>)
    ensures
        bytes@.len() == 16 <==> r is Ok,
        r matches Ok(v) ==> v@ == bytes@,
        r matches Err(m) ==> m@ == "invalid UUID bytes: invalid length: expected 16 bytes, found "@
            + decimal(bytes@.len()),
{
    if bytes.len() != 16 {
        let mut m = to_string("invalid UUID bytes: invalid length: expected 16 bytes, found ");
        push_decimal(&mut m, bytes.len() as u64);
        return Err(m);
    }
    Ok(vstd::slice::slice_to_vec(bytes))
}

} // verus!

//! Byte sizes that are checked against the machine's integers.

use crate::text::join2;
use vstd::prelude::*;

verus! {

/// The bytes of a number of single-precision elements.
pub open spec fn byte_size(elements: int, label: Seq<char>) -> Result<u64, Seq<char>> {
    if elements * 4 <= u64::MAX {
        Ok((elements * 4) as u64)
    } else {
        Err(label + " byte size overflowed"@)
    }
}

/// The bytes of a single-precision matrix.
pub open spec fn weight_byte_size(rows: int, columns: int, label: Seq<char>) -> Result<
    u64,
    Seq<char>,
> {
    if rows * columns <= usize::MAX {
        byte_size(rows * columns, label)
    } else {
        Err(label + " element count overflowed"@)
    }
}

/// A byte count as an address.
pub open spec fn addressable(bytes: u64, label: Seq<char>) -> Result<usize, Seq<char>> {
    if bytes <= usize::MAX {
        Ok(bytes as usize)
    } else {
        Err(label + " is too large"@)
    }
}

/// The bytes of a number of single-precision elements.
pub fn checked_u64_bytes(elements: usize, label: &str) -> (bytes: Result<u64, String>)
    ensures
        crate::text::said(bytes) == byte_size(elements as int, label@),
{
    match (elements as u64).checked_mul(4) {
        Some(bytes) => Ok(bytes),
        None => Err(join2(label, " byte size overflowed")),
    }
}

/// The bytes of a single-precision matrix.
pub fn checked_u64_weight_bytes(rows: usize, columns: usize, label: &str) -> (bytes: Result<
    u64,
    String,
>)
    ensures
        crate::text::said(bytes) == weight_byte_size(rows as int, columns as int, label@),
{
    match rows.checked_mul(columns) {
        Some(elements) => checked_u64_bytes(elements, label),
        None => Err(join2(label, " element count overflowed")),
    }
}

/// A byte count as an address.
pub fn checked_usize(bytes: u64, label: &str) -> (address: Result<usize, String>)
    ensures
        crate::text::said(address) == addressable(bytes, label@),
{
    if bytes <= usize::MAX as u64 {
        Ok(bytes as usize)
    } else {
        Err(join2(label, " is too large"))
    }
}

} // verus!

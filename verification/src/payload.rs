//! The data of a secp256k1 instruction, read at fixed offsets.
//!
//! The data opens with the number of recovery entries. With a single entry,
//! the layout that the increment relies on puts the recovered Ethereum address
//! at bytes 12 to 31 and the signed message at byte 97 and after. Everything
//! is validated by length before it is read: a field that the data is too
//! short to hold is reported as absent.

use crate::state::ADDRESS_LEN;
use vstd::prelude::*;
use vstd::slice::slice_subrange;

verus! {

/// Offset of the recovered address in the instruction data.
pub const ETH_ADDRESS_OFFSET: usize = 12;

/// Offset of the signed message, which runs to the end of the data.
pub const MESSAGE_OFFSET: usize = 97;

/// Whether the data is at least two bytes long and declares exactly one
/// recovery entry in its first byte.
pub open spec fn declares_single_entry(data: Seq<u8>) -> bool {
    data.len() >= 2 && data[0] == 1
}

/// The twenty bytes at the address offset, where the data reaches that far.
pub open spec fn address_field(data: Seq<u8>) -> Option<Seq<u8>> {
    if data.len() >= ETH_ADDRESS_OFFSET + ADDRESS_LEN {
        Some(data.subrange(ETH_ADDRESS_OFFSET as int, ETH_ADDRESS_OFFSET + ADDRESS_LEN))
    } else {
        None
    }
}

/// The bytes from the message offset to the end, where the data reaches that far.
pub open spec fn message_field(data: Seq<u8>) -> Option<Seq<u8>> {
    if data.len() >= MESSAGE_OFFSET {
        Some(data.subrange(MESSAGE_OFFSET as int, data.len() as int))
    } else {
        None
    }
}

/// Tells whether `data` declares exactly one recovery entry.
pub fn has_single_entry(data: &[u8]) -> (single: bool)
    ensures
        single == declares_single_entry(data@),
{
    data.len() >= 2 && data[0] == 1
}

/// The recovered address in `data`, or `None` where `data` ends before byte 32.
pub fn recovered_address(data: &[u8]) -> (address: Option<&[u8]>)
    ensures
        match address {
            Some(bytes) => address_field(data@) == Some(bytes@),
            None => address_field(data@).is_none(),
        },
{
    if data.len() >= ETH_ADDRESS_OFFSET + ADDRESS_LEN {
        Some(slice_subrange(data, ETH_ADDRESS_OFFSET, ETH_ADDRESS_OFFSET + ADDRESS_LEN))
    } else {
        None
    }
}

/// The signed message in `data`, or `None` where `data` ends before byte 97.
pub fn signed_message(data: &[u8]) -> (message: Option<&[u8]>)
    ensures
        match message {
            Some(bytes) => message_field(data@) == Some(bytes@),
            None => message_field(data@).is_none(),
        },
{
    if data.len() >= MESSAGE_OFFSET {
        Some(slice_subrange(data, MESSAGE_OFFSET, data.len()))
    } else {
        None
    }
}

/// Compares two byte strings: same length and the same byte at every index.
pub fn bytes_equal(left: &[u8], right: &[u8]) -> (equal: bool)
    ensures
        equal == (left@ == right@),
{
    if left.len() != right.len() {
        return false;
    }
    let mut i: usize = 0;
    while i < left.len()
        invariant
            left@.len() == right@.len(),
            i <= left@.len(),
            forall|k: int| 0 <= k < i ==> left@[k] == right@[k],
        decreases left@.len() - i,
    {
        if left[i] != right[i] {
            return false;
        }
        i += 1;
    }
    assert(left@ =~= right@);
    true
}

} // verus!

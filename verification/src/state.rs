//! The stored record of a counter.

use vstd::prelude::*;

verus! {

/// Number of bytes in a signer address.
pub const ADDRESS_LEN: usize = 20;

/// One counter: who may advance it, how often it was advanced, and the nonce
/// that the next signed message has to carry.
#[derive(Clone, Copy, Debug, PartialEq, Eq)]
pub struct Counter {
    /// The Ethereum-style address of the key that authorizes increments.
    pub signer_address: [u8; 20],
    /// Number of accepted increments.
    pub count: u64,
    /// Nonce expected in the next signed message.
    pub nonce: u64,
}

impl Counter {
    /// The record as `create` leaves it: bound to `signer_address`, nothing counted.
    pub open spec fn fresh(signer_address: [u8; 20]) -> Counter {
        Counter { signer_address, count: 0, nonce: 0 }
    }

    /// The record after one accepted increment.
    pub open spec fn advanced(self) -> Counter {
        Counter {
            signer_address: self.signer_address,
            count: (self.count + 1) as u64,
            nonce: (self.nonce + 1) as u64,
        }
    }

    /// Whether one more increment fits into both 64-bit fields.
    pub open spec fn can_advance(self) -> bool {
        self.nonce < u64::MAX && self.count < u64::MAX
    }
}

/// A new counter for the holder of `signer_address`, with `count` and `nonce` at zero.
pub fn create(signer_address: [u8; 20]) -> (counter: Counter)
    ensures
        counter == Counter::fresh(signer_address),
{
    Counter { signer_address, count: 0, nonce: 0 }
}

} // verus!

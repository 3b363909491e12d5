//! The resource claim tracker: a per-device bitmask recording which resource
//! slots are already claimed.

use vstd::prelude::*;

use crate::error::Error;

verus! {

/// Number of claim slots a single device may expose.
pub const CLAIM_CAPACITY: u64 = 64;

/// Whether slot `slot` is marked claimed in `mask`.
pub open spec fn mask_bit(mask: u64, slot: u64) -> bool
    recommends
        slot < CLAIM_CAPACITY,
{
    mask & (1u64 << slot) != 0
}

/// Setting one slot marks exactly that slot: every other slot keeps its
/// state, and the set slot reads back as claimed.
pub proof fn lemma_mask_set_bit(mask: u64, slot: u64, other: u64)
    by (bit_vector)
    requires
        slot < 64,
        other < 64,
    ensures
        mask_bit(mask | (1u64 << slot), other) == (mask_bit(mask, other) || other == slot),
{
}

/// The all-zero mask has no claimed slot.
pub proof fn lemma_mask_empty(slot: u64)
    by (bit_vector)
    requires
        slot < 64,
    ensures
        !mask_bit(0u64, slot),
{
}

/// Tracks which resource slots of one device are claimed. Slots are indexed
/// `0 .. CLAIM_CAPACITY`; claiming is exclusive and, except for the explicit
/// rollback path of a failed mapping, permanent for the device's lifetime.
#[derive(Clone, Copy, Debug, PartialEq, Eq, Structural)]
pub struct ClaimMask {
    bits: u64,
}

impl View for ClaimMask {
    type V = u64;

    closed spec fn view(&self) -> u64 {
        self.bits
    }
}

impl ClaimMask {
    /// A tracker with every slot free.
    pub fn new() -> (r: ClaimMask)
        ensures
            r@ == 0u64,
    {
        ClaimMask { bits: 0 }
    }

    /// Returns whether `slot` is already claimed.
    pub fn is_claimed(&self, slot: u64) -> (r: bool)
        requires
            slot < CLAIM_CAPACITY,
        ensures
            r == mask_bit(self@, slot),
    {
        self.bits & (1u64 << slot) != 0
    }

    /// Claims `slot` exclusively. Fails with [`Error::CapacityExceeded`] when
    /// the slot lies beyond the tracker's width — an out-of-range slot is
    /// never silently truncated — and with [`Error::AlreadyClaimed`] when the
    /// slot is taken; the mask is unchanged on either failure.
    pub fn claim(&mut self, slot: u64) -> (r: Result<(), Error>)
        ensures
            slot >= CLAIM_CAPACITY ==> r == Err::<(), Error>(Error::CapacityExceeded)
                && final(self)@ == old(self)@,
            slot < CLAIM_CAPACITY && mask_bit(old(self)@, slot) ==> r == Err::<(), Error>(
                Error::AlreadyClaimed,
            ) && final(self)@ == old(self)@,
            slot < CLAIM_CAPACITY && !mask_bit(old(self)@, slot) ==> r == Ok::<(), Error>(())
                && final(self)@ == (old(self)@ | (1u64 << slot)),
    {
        if slot >= CLAIM_CAPACITY {
            return Err(Error::CapacityExceeded);
        }
        if self.is_claimed(slot) {
            return Err(Error::AlreadyClaimed);
        }
        self.bits = self.bits | (1u64 << slot);
        Ok(())
    }

    /// Returns the current mask, for a later [`ClaimMask::restore`].
    pub fn snapshot(&self) -> (r: u64)
        ensures
            r == self@,
    {
        self.bits
    }

    /// Restores a mask previously taken with [`ClaimMask::snapshot`]. This
    /// is the only way a claim is ever reversed, and it exists solely for
    /// the failure path of mapped-resource acquisition.
    pub fn restore(&mut self, saved: u64)
        ensures
            final(self)@ == saved,
    {
        self.bits = saved;
    }
}

} // verus!

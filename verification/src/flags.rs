//! Capability bits of an activity, kept as the integer the service sent.

use vstd::prelude::*;

verus! {

/// The activity is an instanced session.
pub const INSTANCE: u64 = 0x001;

/// The activity can be joined.
pub const JOIN: u64 = 0x002;

/// The activity can be spectated.
pub const SPECTATE: u64 = 0x004;

/// A request to join the party can be sent.
pub const JOIN_REQUEST: u64 = 0x008;

/// The activity can be synced.
pub const SYNC: u64 = 0x010;

/// The activity can be played.
pub const PLAY: u64 = 0x020;

/// The party is open to friends only.
pub const PARTY_PRIVACY_FRIENDS: u64 = 0x040;

/// The party sits in a voice channel.
pub const PARTY_PRIVACY_VOICE_CHANNEL: u64 = 0x080;

/// The activity can be embedded.
pub const EMBEDDED: u64 = 0x100;

/// Every named bit.
pub const NAMED_BITS: u64 = 0x1ff;

/// Whether every bit of `mask` is set in `bits`.
pub open spec fn bits_include(bits: u64, mask: u64) -> bool {
    bits & mask == mask
}

/// A set of independent capabilities packed into one integer. Bits without a
/// name are kept as they came, so that the integer can be sent back unchanged.
#[derive(Clone, Copy, Debug, PartialEq, Eq, Structural, Hash)]
pub struct ActivityFlags {
    bits: u64,
}

impl View for ActivityFlags {
    type V = u64;

    closed spec fn view(&self) -> u64 {
        self.bits
    }
}

/// The set that a wire integer decodes to.
pub closed spec fn flags_of_bits(bits: u64) -> ActivityFlags {
    ActivityFlags { bits }
}

impl ActivityFlags {
    /// The set with no bit set.
    pub fn empty() -> (flags: ActivityFlags)
        ensures
            flags@ == 0,
    {
        ActivityFlags { bits: 0 }
    }

    /// The set with every named bit and no other.
    pub fn all() -> (flags: ActivityFlags)
        ensures
            flags@ == NAMED_BITS,
    {
        ActivityFlags { bits: NAMED_BITS }
    }

    /// Decodes the wire integer; no bit is dropped.
    pub fn from_bits_retain(bits: u64) -> (flags: ActivityFlags)
        ensures
            flags == flags_of_bits(bits),
            flags@ == bits,
    {
        ActivityFlags { bits }
    }

    /// Decodes the wire integer and clears the bits that have no name.
    pub fn from_bits_truncate(bits: u64) -> (flags: ActivityFlags)
        ensures
            flags@ == bits & NAMED_BITS,
    {
        ActivityFlags { bits: bits & NAMED_BITS }
    }

    /// Decodes the wire integer if it holds named bits only.
    pub fn from_bits(bits: u64) -> (flags: Option<ActivityFlags>)
        ensures
            flags.is_some() <==> bits & NAMED_BITS == bits,
            flags.is_some() ==> flags.unwrap()@ == bits,
    {
        if bits & NAMED_BITS == bits {
            Some(ActivityFlags { bits })
        } else {
            None
        }
    }

    /// The wire integer of the set.
    pub fn bits(&self) -> (bits: u64)
        ensures
            bits == self@,
    {
        self.bits
    }

    /// Whether no bit is set.
    pub fn is_empty(&self) -> (empty: bool)
        ensures
            empty == (self@ == 0),
    {
        self.bits == 0
    }

    /// Whether every bit of `mask` is set.
    pub fn contains(&self, mask: u64) -> (found: bool)
        ensures
            found == bits_include(self@, mask),
    {
        self.bits & mask == mask
    }

    /// Whether the two sets share a bit.
    pub fn intersects(&self, mask: u64) -> (found: bool)
        ensures
            found == (self@ & mask != 0),
    {
        self.bits & mask != 0
    }

    /// The bits that have a name.
    pub fn named(&self) -> (bits: u64)
        ensures
            bits == self@ & NAMED_BITS,
    {
        self.bits & NAMED_BITS
    }

    /// The bits that have no name here.
    pub fn unnamed(&self) -> (bits: u64)
        ensures
            bits == self@ & !NAMED_BITS,
    {
        self.bits & !NAMED_BITS
    }

    /// Sets every bit of `mask`.
    pub fn insert(&mut self, mask: u64)
        ensures
            final(self)@ == old(self)@ | mask,
    {
        self.bits = self.bits | mask;
    }

    /// Clears every bit of `mask`.
    pub fn remove(&mut self, mask: u64)
        ensures
            final(self)@ == old(self)@ & !mask,
    {
        self.bits = self.bits & !mask;
    }

    /// Sets or clears every bit of `mask`.
    pub fn set(&mut self, mask: u64, on: bool)
        ensures
            final(self)@ == if on {
                old(self)@ | mask
            } else {
                old(self)@ & !mask
            },
    {
        if on {
            self.insert(mask);
        } else {
            self.remove(mask);
        }
    }
}

impl Default for ActivityFlags {
    /// The value of a field that the payload leaves out: the empty set.
    fn default() -> (flags: ActivityFlags)
        ensures
            flags@ == 0,
    {
        ActivityFlags { bits: 0 }
    }
}

/// Decoding an integer and encoding the result gives the integer back,
/// whatever bits it holds, named or not.
pub proof fn lemma_bits_round_trip(bits: u64)
    ensures
        flags_of_bits(bits)@ == bits,
{
}

/// Encoding a set and decoding the result gives the set back.
pub proof fn lemma_flags_round_trip(flags: ActivityFlags)
    ensures
        flags_of_bits(flags@) == flags,
{
}

/// A set is made of its named and its unnamed bits, which share none.
pub proof fn lemma_named_and_unnamed_parts(bits: u64)
    ensures
        (bits & NAMED_BITS) | (bits & !NAMED_BITS) == bits,
        (bits & NAMED_BITS) & (bits & !NAMED_BITS) == 0,
{
    assert((bits & 0x1ffu64) | (bits & !0x1ffu64) == bits) by (bit_vector);
    assert((bits & 0x1ffu64) & (bits & !0x1ffu64) == 0) by (bit_vector);
}

/// A bit that was inserted is contained, and one that was removed is not,
/// while the bits outside the mask stay as they were.
pub proof fn lemma_insert_remove(bits: u64, mask: u64)
    ensures
        bits_include(bits | mask, mask),
        (bits & !mask) & mask == 0,
        (bits | mask) & !mask == bits & !mask,
{
    assert((bits | mask) & mask == mask) by (bit_vector);
    assert((bits & !mask) & mask == 0) by (bit_vector);
    assert((bits | mask) & !mask == bits & !mask) by (bit_vector);
}

} // verus!

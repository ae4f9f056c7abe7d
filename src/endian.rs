//! Integers kept as their raw little-endian bytes, converted on access.
use vstd::prelude::*;

verus! {

/// The unsigned number that `bytes` spells in little-endian order: the first
/// byte is the least significant.
pub open spec fn le_value(bytes: Seq<u8>) -> nat
    decreases bytes.len(),
{
    if bytes.len() == 0 {
        0
    } else {
        bytes[0] as nat + 256 * le_value(bytes.drop_first())
    }
}

/// A 16-bit unsigned integer stored as two little-endian bytes.
#[derive(Clone, Copy, Debug, PartialEq, Eq)]
pub struct Lu16(pub [u8; 2]);

/// A 32-bit unsigned integer stored as four little-endian bytes.
#[derive(Clone, Copy, Debug, PartialEq, Eq)]
pub struct Lu32(pub [u8; 4]);

impl Lu16 {
    /// The native number these bytes stand for.
    pub open spec fn spec_value(self) -> nat {
        le_value(self.0@)
    }

    /// Wraps two bytes exactly as they were stored.
    pub fn new(bytes: [u8; 2]) -> (r: Self)
        ensures
            r.0@ == bytes@,
    {
        Lu16(bytes)
    }

    /// Converts the stored bytes to a native `u16`, least significant first.
    pub fn value(&self) -> (r: u16)
        ensures
            r as nat == self.spec_value(),
            r as int == self.0[0] as int + 256 * self.0[1] as int,
    {
        let b = self.0;
        proof {
            lemma_le_value_2(b@);
        }
        b[0] as u16 + (b[1] as u16) * 256
    }
}

impl Lu32 {
    /// The native number these bytes stand for.
    pub open spec fn spec_value(self) -> nat {
        le_value(self.0@)
    }

    /// Wraps four bytes exactly as they were stored.
    pub fn new(bytes: [u8; 4]) -> (r: Self)
        ensures
            r.0@ == bytes@,
    {
        Lu32(bytes)
    }

    /// Converts the stored bytes to a native `u32`, least significant first.
    pub fn value(&self) -> (r: u32)
        ensures
            r as nat == self.spec_value(),
            r as int == self.0[0] as int + 256 * self.0[1] as int + 65536 * self.0[2] as int
                + 16777216 * self.0[3] as int,
    {
        let b = self.0;
        proof {
            lemma_le_value_4(b@);
        }
        b[0] as u32 + (b[1] as u32) * 256 + (b[2] as u32) * 65536 + (b[3] as u32) * 16777216
    }
}

/// Two bytes spell `b[0] + 256 * b[1]`.
pub proof fn lemma_le_value_2(b: Seq<u8>)
    requires
        b.len() == 2,
    ensures
        le_value(b) == b[0] as nat + 256 * b[1] as nat,
{
    assert(b.drop_first().drop_first().len() == 0);
    assert(le_value(b.drop_first()) == b[1] as nat + 256 * le_value(b.drop_first().drop_first()));
}

/// Four bytes spell `b[0] + 256 * b[1] + 65536 * b[2] + 16777216 * b[3]`.
pub proof fn lemma_le_value_4(b: Seq<u8>)
    requires
        b.len() == 4,
    ensures
        le_value(b) == b[0] as nat + 256 * b[1] as nat + 65536 * b[2] as nat + 16777216
            * b[3] as nat,
{
    let t = b.drop_first().drop_first();
    lemma_le_value_2(t);
    assert(le_value(b.drop_first()) == b[1] as nat + 256 * le_value(t));
}

} // verus!

//! Resource counters: the two metering currencies of the host-call boundary.
//!
//! [`Gas`] is the coarse, externally visible unit; [`Ink`] is the fine-grained,
//! engine-local unit. Both wrap a non-negative 64-bit quantity that must never
//! wrap around silently: the plain arithmetic operations demand proof that no
//! overflow or underflow occurs, the checked operations report it, and the
//! saturating operations clamp into `[0, u64::MAX]`. Wherever a counter
//! crosses the boundary it is serialized as an 8-byte big-endian integer.

use vstd::prelude::*;

verus! {

/// Big-endian byte encoding of a 64-bit counter value, most significant
/// byte first.
pub open spec fn be_bytes_of(v: u64) -> Seq<u8> {
    seq![
        (v >> 56) as u8,
        (v >> 48) as u8,
        (v >> 40) as u8,
        (v >> 32) as u8,
        (v >> 24) as u8,
        (v >> 16) as u8,
        (v >> 8) as u8,
        v as u8,
    ]
}

/// The 64-bit value that an 8-byte big-endian encoding stands for.
pub open spec fn be_value_of(b: Seq<u8>) -> u64
    recommends
        b.len() == 8,
{
    ((b[0] as u64) << 56) | ((b[1] as u64) << 48) | ((b[2] as u64) << 40)
        | ((b[3] as u64) << 32) | ((b[4] as u64) << 24) | ((b[5] as u64) << 16)
        | ((b[6] as u64) << 8) | (b[7] as u64)
}

/// Law: decoding the big-endian byte encoding of a counter value yields
/// exactly that value, for every value in the 64-bit range.
pub proof fn lemma_be_round_trip(v: u64)
    ensures
        be_value_of(be_bytes_of(v)) == v,
{
    assert((((v >> 56) as u8 as u64) << 56) | (((v >> 48) as u8 as u64) << 48)
        | (((v >> 40) as u8 as u64) << 40) | (((v >> 32) as u8 as u64) << 32)
        | (((v >> 24) as u8 as u64) << 24) | (((v >> 16) as u8 as u64) << 16)
        | (((v >> 8) as u8 as u64) << 8) | ((v as u8) as u64) == v) by (bit_vector);
}

/// The coarse resource unit: externally visible budget or cost.
#[derive(Clone, Copy, PartialEq, Eq, Structural, PartialOrd, Ord, Hash, Debug, Default)]
#[must_use]
pub struct Gas(pub u64);

/// The fine-grained, engine-local resource unit, related to [`Gas`] by a
/// conversion ratio owned outside this contract.
#[derive(Clone, Copy, PartialEq, Eq, Structural, PartialOrd, Ord, Hash, Debug, Default)]
#[must_use]
pub struct Ink(pub u64);

impl Gas {
    /// Addition; the caller must show that the sum stays in range, so a
    /// wraparound can never manufacture budget.
    pub fn add(self, rhs: Gas) -> (r: Gas)
        requires
            self.0 + rhs.0 <= u64::MAX,
        ensures
            r.0 == self.0 + rhs.0,
    {
        Gas(self.0 + rhs.0)
    }

    /// Subtraction; the caller must show that no underflow occurs, so consumed
    /// budget can never be lost track of.
    pub fn sub(self, rhs: Gas) -> (r: Gas)
        requires
            rhs.0 <= self.0,
        ensures
            r.0 == self.0 - rhs.0,
    {
        Gas(self.0 - rhs.0)
    }

    /// Scalar multiplication; the caller must show that the product stays in
    /// range.
    pub fn mul(self, rhs: u64) -> (r: Gas)
        requires
            self.0 * rhs <= u64::MAX,
        ensures
            r.0 == self.0 * rhs,
    {
        Gas(self.0 * rhs)
    }

    /// In-place addition; the caller must show that the sum stays in range.
    pub fn add_assign(&mut self, rhs: Gas)
        requires
            old(self).0 + rhs.0 <= u64::MAX,
        ensures
            final(self).0 == old(self).0 + rhs.0,
    {
        self.0 = self.0 + rhs.0;
    }

    /// In-place subtraction; the caller must show that no underflow occurs.
    pub fn sub_assign(&mut self, rhs: Gas)
        requires
            rhs.0 <= old(self).0,
        ensures
            final(self).0 == old(self).0 - rhs.0,
    {
        self.0 = self.0 - rhs.0;
    }

    /// Checked addition: `None` exactly when the mathematical sum leaves the
    /// 64-bit range, `Some` of the exact sum otherwise.
    pub fn checked_add(self, rhs: Gas) -> (r: Option<Gas>)
        ensures
            r is Some <==> self.0 + rhs.0 <= u64::MAX,
            r matches Some(g) ==> g.0 == self.0 + rhs.0,
    {
        match self.0.checked_add(rhs.0) {
            Some(v) => Some(Gas(v)),
            None => None,
        }
    }

    /// Checked subtraction: `None` exactly when the subtrahend exceeds the
    /// minuend, `Some` of the exact difference otherwise.
    pub fn checked_sub(self, rhs: Gas) -> (r: Option<Gas>)
        ensures
            r is Some <==> rhs.0 <= self.0,
            r matches Some(g) ==> g.0 == self.0 - rhs.0,
    {
        match self.0.checked_sub(rhs.0) {
            Some(v) => Some(Gas(v)),
            None => None,
        }
    }

    /// Checked scalar multiplication: `None` exactly when the mathematical
    /// product leaves the 64-bit range, `Some` of the exact product otherwise.
    pub fn checked_mul(self, rhs: u64) -> (r: Option<Gas>)
        ensures
            r is Some <==> self.0 * rhs <= u64::MAX,
            r matches Some(g) ==> g.0 == self.0 * rhs,
    {
        match self.0.checked_mul(rhs) {
            Some(v) => Some(Gas(v)),
            None => None,
        }
    }

    /// Saturating addition: never fails, clamps to `u64::MAX` on overflow.
    pub fn saturating_add(self, rhs: Gas) -> (r: Gas)
        ensures
            r.0 == if self.0 + rhs.0 <= u64::MAX { self.0 + rhs.0 } else { u64::MAX as int },
    {
        Gas(self.0.saturating_add(rhs.0))
    }

    /// Saturating subtraction: never fails, clamps to zero on underflow.
    pub fn saturating_sub(self, rhs: Gas) -> (r: Gas)
        ensures
            r.0 == if rhs.0 <= self.0 { self.0 - rhs.0 } else { 0int },
    {
        Gas(self.0.saturating_sub(rhs.0))
    }

    /// The 8-byte big-endian serialization used wherever a counter crosses
    /// the boundary.
    pub fn to_be_bytes(self) -> (r: [u8; 8])
        ensures
            r@ == be_bytes_of(self.0),
    {
        [
            (self.0 >> 56) as u8,
            (self.0 >> 48) as u8,
            (self.0 >> 40) as u8,
            (self.0 >> 32) as u8,
            (self.0 >> 24) as u8,
            (self.0 >> 16) as u8,
            (self.0 >> 8) as u8,
            self.0 as u8,
        ]
    }

    /// Deserialization of the 8-byte big-endian form.
    pub fn from_be_bytes(b: &[u8; 8]) -> (r: Gas)
        ensures
            r.0 == be_value_of(b@),
    {
        Gas(
            ((b[0] as u64) << 56) | ((b[1] as u64) << 48) | ((b[2] as u64) << 40)
                | ((b[3] as u64) << 32) | ((b[4] as u64) << 24) | ((b[5] as u64) << 16)
                | ((b[6] as u64) << 8) | (b[7] as u64),
        )
    }
}

impl Ink {
    /// Addition; the caller must show that the sum stays in range, so a
    /// wraparound can never manufacture budget.
    pub fn add(self, rhs: Ink) -> (r: Ink)
        requires
            self.0 + rhs.0 <= u64::MAX,
        ensures
            r.0 == self.0 + rhs.0,
    {
        Ink(self.0 + rhs.0)
    }

    /// Subtraction; the caller must show that no underflow occurs, so consumed
    /// budget can never be lost track of.
    pub fn sub(self, rhs: Ink) -> (r: Ink)
        requires
            rhs.0 <= self.0,
        ensures
            r.0 == self.0 - rhs.0,
    {
        Ink(self.0 - rhs.0)
    }

    /// Scalar multiplication; the caller must show that the product stays in
    /// range.
    pub fn mul(self, rhs: u64) -> (r: Ink)
        requires
            self.0 * rhs <= u64::MAX,
        ensures
            r.0 == self.0 * rhs,
    {
        Ink(self.0 * rhs)
    }

    /// In-place addition; the caller must show that the sum stays in range.
    pub fn add_assign(&mut self, rhs: Ink)
        requires
            old(self).0 + rhs.0 <= u64::MAX,
        ensures
            final(self).0 == old(self).0 + rhs.0,
    {
        self.0 = self.0 + rhs.0;
    }

    /// In-place subtraction; the caller must show that no underflow occurs.
    pub fn sub_assign(&mut self, rhs: Ink)
        requires
            rhs.0 <= old(self).0,
        ensures
            final(self).0 == old(self).0 - rhs.0,
    {
        self.0 = self.0 - rhs.0;
    }

    /// Checked addition: `None` exactly when the mathematical sum leaves the
    /// 64-bit range, `Some` of the exact sum otherwise.
    pub fn checked_add(self, rhs: Ink) -> (r: Option<Ink>)
        ensures
            r is Some <==> self.0 + rhs.0 <= u64::MAX,
            r matches Some(g) ==> g.0 == self.0 + rhs.0,
    {
        match self.0.checked_add(rhs.0) {
            Some(v) => Some(Ink(v)),
            None => None,
        }
    }

    /// Checked subtraction: `None` exactly when the subtrahend exceeds the
    /// minuend, `Some` of the exact difference otherwise.
    pub fn checked_sub(self, rhs: Ink) -> (r: Option<Ink>)
        ensures
            r is Some <==> rhs.0 <= self.0,
            r matches Some(g) ==> g.0 == self.0 - rhs.0,
    {
        match self.0.checked_sub(rhs.0) {
            Some(v) => Some(Ink(v)),
            None => None,
        }
    }

    /// Checked scalar multiplication: `None` exactly when the mathematical
    /// product leaves the 64-bit range, `Some` of the exact product otherwise.
    pub fn checked_mul(self, rhs: u64) -> (r: Option<Ink>)
        ensures
            r is Some <==> self.0 * rhs <= u64::MAX,
            r matches Some(g) ==> g.0 == self.0 * rhs,
    {
        match self.0.checked_mul(rhs) {
            Some(v) => Some(Ink(v)),
            None => None,
        }
    }

    /// Saturating addition: never fails, clamps to `u64::MAX` on overflow.
    pub fn saturating_add(self, rhs: Ink) -> (r: Ink)
        ensures
            r.0 == if self.0 + rhs.0 <= u64::MAX { self.0 + rhs.0 } else { u64::MAX as int },
    {
        Ink(self.0.saturating_add(rhs.0))
    }

    /// Saturating subtraction: never fails, clamps to zero on underflow.
    pub fn saturating_sub(self, rhs: Ink) -> (r: Ink)
        ensures
            r.0 == if rhs.0 <= self.0 { self.0 - rhs.0 } else { 0int },
    {
        Ink(self.0.saturating_sub(rhs.0))
    }

    /// The 8-byte big-endian serialization used wherever a counter crosses
    /// the boundary.
    pub fn to_be_bytes(self) -> (r: [u8; 8])
        ensures
            r@ == be_bytes_of(self.0),
    {
        [
            (self.0 >> 56) as u8,
            (self.0 >> 48) as u8,
            (self.0 >> 40) as u8,
            (self.0 >> 32) as u8,
            (self.0 >> 24) as u8,
            (self.0 >> 16) as u8,
            (self.0 >> 8) as u8,
            self.0 as u8,
        ]
    }

    /// Deserialization of the 8-byte big-endian form.
    pub fn from_be_bytes(b: &[u8; 8]) -> (r: Ink)
        ensures
            r.0 == be_value_of(b@),
    {
        Ink(
            ((b[0] as u64) << 56) | ((b[1] as u64) << 48) | ((b[2] as u64) << 40)
                | ((b[3] as u64) << 32) | ((b[4] as u64) << 24) | ((b[5] as u64) << 16)
                | ((b[6] as u64) << 8) | (b[7] as u64),
        )
    }
}

} // verus!

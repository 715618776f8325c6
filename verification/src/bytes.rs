//! Fixed-width byte strings crossing the host-call boundary: 256-bit storage
//! keys, values, balances and hashes ([`Bytes32`]) and 160-bit account
//! addresses ([`Bytes20`]).

use vstd::prelude::*;

verus! {

/// A 256-bit word: a storage key or value, a balance, a salt, a code hash.
#[derive(Clone, Copy, Debug)]
pub struct Bytes32(pub [u8; 32]);

/// A 160-bit account address.
#[derive(Clone, Copy, Debug)]
pub struct Bytes20(pub [u8; 20]);

/// The all-zero 256-bit word: what a read of an absent slot or account
/// returns.
pub open spec fn zero32() -> Seq<u8> {
    Seq::new(32, |i: int| 0u8)
}

impl View for Bytes32 {
    type V = Seq<u8>;

    open spec fn view(&self) -> Seq<u8> {
        self.0@
    }
}

impl View for Bytes20 {
    type V = Seq<u8>;

    open spec fn view(&self) -> Seq<u8> {
        self.0@
    }
}

impl Bytes32 {
    /// The all-zero word.
    pub fn zero() -> (r: Bytes32)
        ensures
            r@ == zero32(),
    {
        let r = Bytes32([0u8; 32]);
        proof {
            assert(r@ =~= zero32());
        }
        r
    }
}

impl PartialEq for Bytes32 {
    fn eq(&self, other: &Bytes32) -> (r: bool) {
        let mut i: usize = 0;
        while i < 32
            invariant
                i <= 32,
                forall|j: int| 0 <= j < i ==> self.0@[j] == other.0@[j],
            decreases 32 - i,
        {
            if self.0[i] != other.0[i] {
                proof {
                    assert(self.0@[i as int] != other.0@[i as int]);
                }
                return false;
            }
            i += 1;
        }
        proof {
            assert(self.0@ =~= other.0@);
        }
        true
    }
}

impl Eq for Bytes32 {

}

impl vstd::std_specs::cmp::PartialEqSpecImpl for Bytes32 {
    open spec fn obeys_eq_spec() -> bool {
        true
    }

    open spec fn eq_spec(&self, other: &Bytes32) -> bool {
        self.0@ == other.0@
    }
}

impl PartialEq for Bytes20 {
    fn eq(&self, other: &Bytes20) -> (r: bool) {
        let mut i: usize = 0;
        while i < 20
            invariant
                i <= 20,
                forall|j: int| 0 <= j < i ==> self.0@[j] == other.0@[j],
            decreases 20 - i,
        {
            if self.0[i] != other.0[i] {
                proof {
                    assert(self.0@[i as int] != other.0@[i as int]);
                }
                return false;
            }
            i += 1;
        }
        proof {
            assert(self.0@ =~= other.0@);
        }
        true
    }
}

impl Eq for Bytes20 {

}

impl vstd::std_specs::cmp::PartialEqSpecImpl for Bytes20 {
    open spec fn obeys_eq_spec() -> bool {
        true
    }

    open spec fn eq_spec(&self, other: &Bytes20) -> bool {
        self.0@ == other.0@
    }
}

} // verus!

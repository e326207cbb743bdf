use vstd::prelude::*;

use crate::bytes::{le64, read_u64};

verus! {

/// A file offset or a virtual address.
#[derive(Clone, Copy, PartialEq, Eq, PartialOrd, Ord, Debug, Structural)]
pub struct Addr(pub u64);

impl Addr {
    /// Sum of two addresses; the caller rules out overflow.
    pub fn add(self, other: Addr) -> (r: Addr)
        requires
            self.0 + other.0 <= u64::MAX,
        ensures
            r.0 == self.0 + other.0,
    {
        Addr(self.0 + other.0)
    }

    /// Difference of two addresses; the caller rules out underflow.
    pub fn sub(self, other: Addr) -> (r: Addr)
        requires
            other.0 <= self.0,
        ensures
            r.0 == self.0 - other.0,
    {
        Addr(self.0 - other.0)
    }

    /// Reads an address stored as a little-endian 64-bit integer at `p`;
    /// `None` when fewer than eight bytes remain.
    pub fn parse(s: &[u8], p: usize) -> (r: Option<Addr>)
        ensures
            r is Some <==> p + 8 <= s@.len(),
            r matches Some(a) ==> a.0 == le64(s@, p as int),
    {
        match read_u64(s, p) {
            Some(v) => Some(Addr(v)),
            None => None,
        }
    }

    /// The address as a 64-bit integer.
    pub fn to_u64(self) -> (r: u64)
        ensures
            r == self.0,
    {
        self.0
    }

    /// The address as an index into a byte buffer of length `len`, if it lies within it.
    pub fn index_within(self, len: usize) -> (r: Option<usize>)
        ensures
            r is Some <==> self.0 <= len,
            r matches Some(i) ==> i == self.0,
    {
        if self.0 <= len as u64 {
            Some(self.0 as usize)
        } else {
            None
        }
    }
}

impl From<u64> for Addr {
    fn from(x: u64) -> (r: Addr) {
        Addr(x)
    }
}

impl vstd::std_specs::convert::FromSpecImpl<u64> for Addr {
    open spec fn obeys_from_spec() -> bool {
        true
    }

    open spec fn from_spec(x: u64) -> Addr {
        Addr(x)
    }
}

impl From<Addr> for u64 {
    fn from(a: Addr) -> (r: u64) {
        a.0
    }
}

impl vstd::std_specs::convert::FromSpecImpl<Addr> for u64 {
    open spec fn obeys_from_spec() -> bool {
        true
    }

    open spec fn from_spec(a: Addr) -> u64 {
        a.0
    }
}

impl From<Addr> for usize {
    fn from(a: Addr) -> (r: usize) {
        a.0 as usize
    }
}

impl vstd::std_specs::convert::FromSpecImpl<Addr> for usize {
    open spec fn obeys_from_spec() -> bool {
        true
    }

    open spec fn from_spec(a: Addr) -> usize {
        a.0 as usize
    }
}

} // verus!

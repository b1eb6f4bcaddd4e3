use vstd::prelude::*;

verus! {

/// Engine readiness bit: data can be read, or a connection can be accepted.
pub const READABLE_BIT: u32 = 1;

/// Engine readiness bit: data can be written, or a connection attempt completed.
pub const WRITABLE_BIT: u32 = 4;

/// Engine readiness bit: the handle has a pending error.
pub const ERROR_BIT: u32 = 8;

/// All readiness bits that an `EventKind` can carry.
pub const KNOWN_BITS: u32 = 13;

/// Caller-chosen identifier attached to a registration and echoed back in events.
#[derive(PartialEq, Eq, Structural, Clone, Copy, Debug, Hash)]
pub struct Token(pub usize);

/// A set of readiness conditions: readable, writable, error.
#[derive(PartialEq, Eq, Structural, Clone, Copy, Debug, Hash)]
pub struct EventKind {
    bits: u32,
}

pub open spec fn known_bits(bits: u32) -> u32 {
    bits & KNOWN_BITS
}

impl EventKind {
    pub closed spec fn spec_bits(self) -> u32 {
        self.bits
    }

    /// Readiness conditions hold only known bits.
    pub open spec fn wf(self) -> bool {
        known_bits(self.spec_bits()) == self.spec_bits()
    }

    pub open spec fn has(self, bit: u32) -> bool {
        self.spec_bits() & bit == bit
    }

    pub closed spec fn spec_from_bits(bits: u32) -> EventKind {
        EventKind { bits: known_bits(bits) }
    }

    /// The kind made of the known bits among `bits`, as the engine reports them.
    pub fn from_bits(bits: u32) -> (r: EventKind)
        ensures
            r == EventKind::spec_from_bits(bits),
            r.spec_bits() == known_bits(bits),
            r.wf(),
    {
        let r = EventKind { bits: bits & KNOWN_BITS };
        assert(known_bits(bits & KNOWN_BITS) == bits & KNOWN_BITS) by (bit_vector);
        r
    }

    pub fn bits(&self) -> (r: u32)
        ensures
            r == self.spec_bits(),
    {
        self.bits
    }

    pub fn empty() -> (r: EventKind)
        ensures
            r.spec_bits() == 0,
            r.wf(),
    {
        assert(known_bits(0) == 0) by (bit_vector);
        EventKind { bits: 0 }
    }

    pub fn readable() -> (r: EventKind)
        ensures
            r.spec_bits() == READABLE_BIT,
            r.wf(),
    {
        assert(known_bits(1) == 1) by (bit_vector);
        EventKind { bits: READABLE_BIT }
    }

    pub fn writable() -> (r: EventKind)
        ensures
            r.spec_bits() == WRITABLE_BIT,
            r.wf(),
    {
        assert(known_bits(4) == 4) by (bit_vector);
        EventKind { bits: WRITABLE_BIT }
    }

    pub fn error() -> (r: EventKind)
        ensures
            r.spec_bits() == ERROR_BIT,
            r.wf(),
    {
        assert(known_bits(8) == 8) by (bit_vector);
        EventKind { bits: ERROR_BIT }
    }

    /// The conditions of either set.
    pub fn union(self, other: EventKind) -> (r: EventKind)
        requires
            self.wf(),
            other.wf(),
        ensures
            r.spec_bits() == self.spec_bits() | other.spec_bits(),
            r.wf(),
            forall|b: u32| self.has(b) ==> r.has(b),
            forall|b: u32| other.has(b) ==> r.has(b),
    {
        let a = self.bits;
        let c = other.bits;
        assert(known_bits(a) == a && known_bits(c) == c ==> known_bits(a | c) == a | c)
            by (bit_vector);
        assert forall|b: u32| (a & b == b) implies ((a | c) & b == b) by {
            assert((a & b == b) ==> ((a | c) & b == b)) by (bit_vector);
        }
        assert forall|b: u32| (c & b == b) implies ((a | c) & b == b) by {
            assert((c & b == b) ==> ((a | c) & b == b)) by (bit_vector);
        }
        EventKind { bits: a | c }
    }

    /// Whether every condition of `other` is in this set.
    pub fn contains(&self, other: EventKind) -> (r: bool)
        ensures
            r == self.has(other.spec_bits()),
    {
        self.bits & other.bits == other.bits
    }

    pub fn is_readable(&self) -> (r: bool)
        ensures
            r == self.has(READABLE_BIT),
    {
        self.bits & READABLE_BIT == READABLE_BIT
    }

    pub fn is_writable(&self) -> (r: bool)
        ensures
            r == self.has(WRITABLE_BIT),
    {
        self.bits & WRITABLE_BIT == WRITABLE_BIT
    }

    pub fn is_error(&self) -> (r: bool)
        ensures
            r == self.has(ERROR_BIT),
    {
        self.bits & ERROR_BIT == ERROR_BIT
    }
}

} // verus!

//! Usage flags: the ways a resource can be accessed by the GPU.

use vstd::prelude::*;

verus! {

/// Source of a copy.
pub const COPY_SRC: u32 = 1;

/// Destination of a copy.
pub const COPY_DST: u32 = 2;

/// Sampled from a shader.
pub const SAMPLED: u32 = 4;

/// Written as a storage resource.
pub const STORAGE: u32 = 8;

/// Written as the colour or depth target of a render pass.
pub const RENDER_TARGET: u32 = 16;

/// Handed to the presentation engine.
pub const PRESENT: u32 = 32;

/// Read as an index buffer.
pub const INDEX: u32 = 64;

/// Read as a vertex buffer.
pub const VERTEX: u32 = 128;

/// Read as a uniform buffer.
pub const UNIFORM: u32 = 256;

/// The usages that only read. Any number of them can be held at once.
pub const READ_ONLY: u32 = COPY_SRC | SAMPLED | INDEX | VERTEX | UNIFORM;

/// The usages that write.
pub const WRITE_ALL: u32 = COPY_DST | STORAGE | RENDER_TARGET;

/// Every usage that has a name.
pub const ALL: u32 = READ_ONLY | WRITE_ALL | PRESENT;

/// A set of usages, one bit for each.
#[derive(Clone, Copy, Debug, PartialEq, Eq, Hash, Structural)]
pub struct UsageFlags {
    pub bits: u32,
}

impl UsageFlags {
    /// Every flag of the set is a read-only usage. The empty set is read-only;
    /// a set with a bit that has no name is not.
    pub open spec fn read_only(self) -> bool {
        self.bits & !READ_ONLY == 0
    }

    /// Every flag of `other` is in `self`.
    pub open spec fn includes(self, other: UsageFlags) -> bool {
        self.bits & other.bits == other.bits
    }

    /// The flags of both sets.
    pub open spec fn join(self, other: UsageFlags) -> UsageFlags {
        UsageFlags { bits: self.bits | other.bits }
    }

    /// Two usages can be held together without a barrier between them: both
    /// are read-only, or they are the same usage. A write usage and `PRESENT`
    /// go with nothing but themselves.
    pub open spec fn compatible(self, other: UsageFlags) -> bool {
        self == other || (self.read_only() && other.read_only())
    }

    pub fn from_bits(bits: u32) -> (r: UsageFlags)
        ensures
            r.bits == bits,
    {
        UsageFlags { bits }
    }

    pub fn empty() -> (r: UsageFlags)
        ensures
            r.bits == 0,
    {
        UsageFlags { bits: 0 }
    }

    pub fn bits(&self) -> (r: u32)
        ensures
            r == self.bits,
    {
        self.bits
    }

    pub fn is_empty(&self) -> (r: bool)
        ensures
            r == (self.bits == 0),
    {
        self.bits == 0
    }

    pub fn is_read_only(&self) -> (r: bool)
        ensures
            r == self.read_only(),
    {
        self.bits & !READ_ONLY == 0
    }

    pub fn contains(&self, other: UsageFlags) -> (r: bool)
        ensures
            r == self.includes(other),
    {
        self.bits & other.bits == other.bits
    }

    pub fn union(&self, other: UsageFlags) -> (r: UsageFlags)
        ensures
            r == self.join(other),
    {
        UsageFlags { bits: self.bits | other.bits }
    }

    pub fn is_compatible_with(&self, other: UsageFlags) -> (r: bool)
        ensures
            r == self.compatible(other),
    {
        self.bits == other.bits || (self.is_read_only() && other.is_read_only())
    }
}

/// The union of two read-only usages is read-only.
pub proof fn lemma_join_read_only(a: UsageFlags, b: UsageFlags)
    requires
        a.read_only(),
        b.read_only(),
    ensures
        a.join(b).read_only(),
{
    let x = a.bits;
    let y = b.bits;
    assert((x | y) & !READ_ONLY == 0) by (bit_vector)
        requires
            x & !READ_ONLY == 0,
            y & !READ_ONLY == 0,
    ;
}

/// A union includes both of its sides, and adds nothing to a set that
/// already includes the other. Every set includes itself.
pub proof fn lemma_join_includes(a: UsageFlags, b: UsageFlags)
    ensures
        a.includes(a),
        a.join(b).includes(a),
        a.join(b).includes(b),
        a.includes(b) ==> a.join(b) == a,
        a.join(b) == a ==> a.includes(b),
{
    let x = a.bits;
    let y = b.bits;
    assert(x & x == x) by (bit_vector);
    assert((x | y) & x == x) by (bit_vector);
    assert((x | y) & y == y) by (bit_vector);
    assert(x & y == y ==> (x | y) == x) by (bit_vector);
    assert((x | y) == x ==> x & y == y) by (bit_vector);
}

/// No usage that writes or presents is read-only.
pub proof fn lemma_exclusive_not_read_only(u: UsageFlags)
    requires
        u.bits & (WRITE_ALL | PRESENT) != 0,
    ensures
        !u.read_only(),
{
    let x = u.bits;
    assert(x & !READ_ONLY != 0) by (bit_vector)
        requires
            x & (WRITE_ALL | PRESENT) != 0,
    ;
}

} // verus!

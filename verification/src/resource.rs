//! Hardware resource descriptions: the raw ranges a device declares and the
//! validated ranges a successful claim hands back.

use vstd::prelude::*;

verus! {

/// Flag bit marking an IO-port resource.
pub const IORESOURCE_IO: u64 = 0x100;
/// Flag bit marking a memory-mapped resource.
pub const IORESOURCE_MEM: u64 = 0x200;
/// The flag bits that encode a resource's class.
pub const IORESOURCE_TYPE_BITS: u64 = 0x1f00;

/// The class of hardware resource a claim asks for.
#[derive(Clone, Copy, Debug, PartialEq, Eq, Structural)]
pub enum IoResource {
    /// An IO-port range.
    Io,
    /// A memory-mapped range.
    Mem,
}

impl IoResource {
    /// The flag bits that a resource of this class carries.
    pub open spec fn spec_type_bits(self) -> u64 {
        match self {
            IoResource::Io => IORESOURCE_IO,
            IoResource::Mem => IORESOURCE_MEM,
        }
    }

    /// Returns the flag bits that a resource of this class carries.
    pub fn type_bits(self) -> (r: u64)
        ensures
            r == self.spec_type_bits(),
    {
        match self {
            IoResource::Io => IORESOURCE_IO,
            IoResource::Mem => IORESOURCE_MEM,
        }
    }
}

/// One entry of the resource list the host declares for a device: an address
/// range together with the flags describing its class. The range has not
/// been validated.
#[derive(Clone, Copy, Debug, PartialEq, Eq, Structural)]
pub struct RawResource {
    /// First address of the range.
    pub start: u64,
    /// Last address of the range (inclusive).
    pub end: u64,
    /// Class flags (see [`IORESOURCE_TYPE_BITS`]).
    pub flags: u64,
}

/// Whether a declared resource belongs to the requested class.
pub open spec fn res_matches(r: RawResource, rtype: IoResource) -> bool {
    r.flags & IORESOURCE_TYPE_BITS == rtype.spec_type_bits()
}

/// Returns whether `r` belongs to the class `rtype`.
pub fn raw_matches(r: &RawResource, rtype: IoResource) -> (b: bool)
    ensures
        b == res_matches(*r, rtype),
{
    r.flags & IORESOURCE_TYPE_BITS == rtype.type_bits()
}

/// A claimed hardware address range. Unlike [`RawResource`], a value of this
/// type always describes a non-degenerate range.
///
/// # Invariants
///
/// `start <= end`.
#[derive(Clone, Copy, Debug, PartialEq, Eq, Structural)]
pub struct Resource {
    start: u64,
    end: u64,
    flags: u64,
}

impl Resource {
    /// First address of the range.
    pub closed spec fn spec_start(self) -> u64 {
        self.start
    }

    /// Last address of the range (inclusive).
    pub closed spec fn spec_end(self) -> u64 {
        self.end
    }

    /// Class flags of the range.
    pub closed spec fn spec_flags(self) -> u64 {
        self.flags
    }

    /// The invariant every constructed value satisfies.
    pub open spec fn wf(self) -> bool {
        self.spec_start() <= self.spec_end()
    }

    /// Validates a declared range, accepting it exactly when it is
    /// non-degenerate.
    pub fn new(start: u64, end: u64, flags: u64) -> (r: Option<Resource>)
        ensures
            start <= end ==> (r matches Some(res) && res.spec_start() == start
                && res.spec_end() == end && res.spec_flags() == flags && res.wf()),
            start > end ==> r is None,
    {
        if start <= end {
            Some(Resource { start, end, flags })
        } else {
            None
        }
    }

    /// Returns the first address of the range.
    pub fn start(&self) -> (r: u64)
        ensures
            r == self.spec_start(),
    {
        self.start
    }

    /// Returns the last address of the range (inclusive).
    pub fn end(&self) -> (r: u64)
        ensures
            r == self.spec_end(),
    {
        self.end
    }

    /// Returns the class flags of the range.
    pub fn flags(&self) -> (r: u64)
        ensures
            r == self.spec_flags(),
    {
        self.flags
    }
}

/// A resource mapped into addressable memory. The host performs the actual
/// mapping; this value records what was mapped and where.
#[derive(Clone, Copy, Debug, PartialEq, Eq, Structural)]
pub struct MappedMemory {
    /// Base address the host chose for the mapping.
    pub base: u64,
    /// Number of bytes mapped.
    pub size: usize,
    /// The claimed resource backing the mapping.
    pub resource: Resource,
}

} // verus!

//! The identifier resolver: a driver's static table of (matcher, side-data)
//! pairs, and the lookup that finds the side-data for a device's compatible
//! string.

use vstd::prelude::*;

verus! {

/// A matcher for one supported device variant: the compatible string the
/// device must declare.
#[derive(Debug)]
pub struct DeviceId {
    /// The compatible string, e.g. `b"vendor,chip-a"`.
    pub compatible: Vec<u8>,
}

/// One table entry: a matcher together with the driver's side-data for the
/// devices it accepts. The side-data is optional, mirroring drivers that
/// match a variant without attaching information to it.
#[derive(Debug)]
pub struct IdTableEntry<I> {
    /// The matcher.
    pub id: DeviceId,
    /// The side-data handed to probe when this entry matches.
    pub info: Option<I>,
}

/// A driver's ordered identifier table. Resolution returns the first entry
/// whose matcher accepts the device.
#[derive(Debug)]
pub struct IdTable<I> {
    /// The (matcher, side-data) pairs, in declaration order.
    pub entries: Vec<IdTableEntry<I>>,
}

impl<I> View for IdTable<I> {
    type V = Seq<IdTableEntry<I>>;

    open spec fn view(&self) -> Seq<IdTableEntry<I>> {
        self.entries@
    }
}

/// Index of the first entry at or after `p` whose matcher equals `compat`.
pub open spec fn find_entry_from<I>(
    entries: Seq<IdTableEntry<I>>,
    compat: Seq<u8>,
    p: int,
) -> Option<int>
    decreases entries.len() - p,
{
    if p < 0 || p >= entries.len() {
        None
    } else if entries[p].id.compatible@ == compat {
        Some(p)
    } else {
        find_entry_from(entries, compat, p + 1)
    }
}

/// Index of the first entry whose matcher equals `compat`.
pub open spec fn find_entry<I>(entries: Seq<IdTableEntry<I>>, compat: Seq<u8>) -> Option<int> {
    find_entry_from(entries, compat, 0)
}

/// What resolution returns for a device declaring `compat`: the side-data of
/// the first matching entry, or nothing when no entry matches or the
/// matching entry carries no side-data.
pub open spec fn resolve_table<I>(entries: Seq<IdTableEntry<I>>, compat: Seq<u8>) -> Option<I> {
    match find_entry(entries, compat) {
        Some(i) => entries[i].info,
        None => None,
    }
}

/// Returns whether the two byte strings are equal.
pub fn bytes_equal(a: &Vec<u8>, b: &Vec<u8>) -> (r: bool)
    ensures
        r == (a@ == b@),
{
    if a.len() != b.len() {
        return false;
    }
    let mut i: usize = 0;
    while i < a.len()
        invariant
            i <= a@.len(),
            a@.len() == b@.len(),
            forall|j: int| 0 <= j < i ==> a@[j] == b@[j],
        decreases a@.len() - i,
    {
        if a[i] != b[i] {
            return false;
        }
        i += 1;
    }
    proof {
        assert(a@ =~= b@);
    }
    true
}

impl<I> IdTable<I> {
    /// Finds the first entry whose matcher equals `compat` and borrows its
    /// side-data. Never allocates or copies.
    pub fn lookup(&self, compat: &Vec<u8>) -> (r: Option<&I>)
        ensures
            r is Some <==> resolve_table(self@, compat@) is Some,
            r matches Some(info) ==> resolve_table(self@, compat@) == Some(*info),
    {
        let n = self.entries.len();
        let mut i: usize = 0;
        while i < n
            invariant
                n == self@.len(),
                i <= n,
                self@ == self.entries@,
                find_entry(self@, compat@) == find_entry_from(self@, compat@, i as int),
            decreases n - i,
        {
            if bytes_equal(&self.entries[i].id.compatible, compat) {
                return match &self.entries[i].info {
                    Some(info) => Some(info),
                    None => None,
                };
            }
            i += 1;
        }
        None
    }
}

} // verus!

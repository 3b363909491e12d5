//! The device handle: a safe facade over one live device instance, owning
//! its resource claim tracker and exposing resource acquisition and
//! masked-DMA configuration.

use vstd::prelude::*;

use crate::claims::{mask_bit, ClaimMask, CLAIM_CAPACITY};
use crate::error::Error;
use crate::resource::{
    raw_matches, res_matches, IoResource, MappedMemory, RawResource, Resource, IORESOURCE_IO,
    IORESOURCE_MEM, IORESOURCE_TYPE_BITS,
};

verus! {

/// The mathematical model of a [`Device`].
pub ghost struct DeviceView {
    /// The host-assigned instance id.
    pub id: i32,
    /// The compatible string the device declares.
    pub compatible: Seq<u8>,
    /// The resource list the host declares for the device, in array order.
    pub resources: Seq<RawResource>,
    /// The claim bitmask: which resource slots are taken.
    pub claims: u64,
    /// The DMA mask last accepted by the host, if any.
    pub dma_mask: Option<u64>,
}

/// One live device instance, constructed at the start of a probe or remove
/// callback from the values the host supplies and dropped at its end; it
/// does not persist across callbacks. The claim bitmask starts all-zero.
pub struct Device {
    id: i32,
    compatible: Vec<u8>,
    resources: Vec<RawResource>,
    claims: ClaimMask,
    dma_mask: Option<u64>,
}

impl View for Device {
    type V = DeviceView;

    closed spec fn view(&self) -> DeviceView {
        DeviceView {
            id: self.id,
            compatible: self.compatible@,
            resources: self.resources@,
            claims: self.claims@,
            dma_mask: self.dma_mask,
        }
    }
}

/// Position of the `n`-th resource of class `rtype`, searching from `p`.
pub open spec fn find_resource_from(
    rs: Seq<RawResource>,
    rtype: IoResource,
    n: int,
    p: int,
) -> Option<int>
    decreases rs.len() - p,
{
    if p < 0 || p >= rs.len() {
        None
    } else if res_matches(rs[p], rtype) {
        if n == 0 {
            Some(p)
        } else {
            find_resource_from(rs, rtype, n - 1, p + 1)
        }
    } else {
        find_resource_from(rs, rtype, n, p + 1)
    }
}

/// Position in the declared resource list of the `n`-th resource of class
/// `rtype` — the slot a claim for `(rtype, n)` addresses.
pub open spec fn find_resource(rs: Seq<RawResource>, rtype: IoResource, n: int) -> Option<int> {
    find_resource_from(rs, rtype, n, 0)
}

/// Why a claim for the `n`-th resource of class `rtype` fails on `dev`, or
/// `None` when it succeeds.
pub open spec fn spec_claim_err(dev: DeviceView, rtype: IoResource, n: int) -> Option<Error> {
    match find_resource(dev.resources, rtype, n) {
        None => Some(Error::NotFound),
        Some(i) => if i >= CLAIM_CAPACITY {
            Some(Error::CapacityExceeded)
        } else if mask_bit(dev.claims, i as u64) {
            Some(Error::AlreadyClaimed)
        } else if dev.resources[i].start > dev.resources[i].end {
            Some(Error::InvalidRange)
        } else {
            None
        },
    }
}

/// The claim bitmask after a claim for the `n`-th resource of class
/// `rtype`. The slot's bit is set whenever the claim reaches range
/// validation — so also on an [`Error::InvalidRange`] failure, whose slot
/// stays taken.
pub open spec fn spec_claim_mask(dev: DeviceView, rtype: IoResource, n: int) -> u64 {
    match find_resource(dev.resources, rtype, n) {
        None => dev.claims,
        Some(i) => if i < CLAIM_CAPACITY && !mask_bit(dev.claims, i as u64) {
            dev.claims | (1u64 << (i as u64))
        } else {
            dev.claims
        },
    }
}

/// Finds the position of the `num`-th resource of class `rtype`.
fn find_matching(resources: &Vec<RawResource>, rtype: IoResource, num: usize) -> (r: Option<
    usize,
>)
    ensures
        (match find_resource(resources@, rtype, num as int) {
            Some(i) => r matches Some(u) && u as int == i,
            None => r is None,
        }),
        (r matches Some(u) ==> (u as int) < resources@.len()),
{
    let n = resources.len();
    let mut i: usize = 0;
    let mut remaining: usize = num;
    while i < n
        invariant
            n == resources@.len(),
            i <= n,
            remaining <= num,
            find_resource(resources@, rtype, num as int) == find_resource_from(
                resources@,
                rtype,
                remaining as int,
                i as int,
            ),
        decreases n - i,
    {
        if raw_matches(&resources[i], rtype) {
            if remaining == 0 {
                return Some(i);
            }
            remaining = remaining - 1;
        }
        i = i + 1;
    }
    None
}

impl Device {
    /// Builds the wrapper for one callback from the values the host
    /// supplies: the instance id, the device's compatible string, and its
    /// declared resource list. No slot is claimed yet.
    pub fn new(id: i32, compatible: Vec<u8>, resources: Vec<RawResource>) -> (d: Device)
        ensures
            d@ == (DeviceView {
                id,
                compatible: compatible@,
                resources: resources@,
                claims: 0u64,
                dma_mask: None,
            }),
    {
        Device { id, compatible, resources, claims: ClaimMask::new(), dma_mask: None }
    }

    /// Returns the host-assigned id of the device.
    pub fn id(&self) -> (r: i32)
        ensures
            r == self@.id,
    {
        self.id
    }

    /// Borrows the compatible string the device declares.
    pub fn compatible(&self) -> (r: &Vec<u8>)
        ensures
            r@ == self@.compatible,
    {
        &self.compatible
    }

    /// Returns the current claim bitmask.
    pub fn used_resource(&self) -> (r: u64)
        ensures
            r == self@.claims,
    {
        self.claims.snapshot()
    }

    /// Records the DMA masks (normal and coherent) for the device. The host
    /// applies the masks; `host_reply` is its verdict, wrapped into
    /// [`Error::HostRejected`] on refusal.
    pub fn set_dma_masks(&mut self, mask: u64, host_reply: Result<(), i32>) -> (r: Result<
        (),
        Error,
    >)
        ensures
            host_reply is Ok ==> r == Ok::<(), Error>(()) && final(self)@ == (DeviceView {
                dma_mask: Some(mask),
                ..old(self)@
            }),
            (host_reply matches Err(code) ==> r == Err::<(), Error>(Error::HostRejected(code))
                && final(self)@ == old(self)@),
    {
        match host_reply {
            Ok(_) => {
                self.dma_mask = Some(mask);
                Ok(())
            },
            Err(code) => Err(Error::HostRejected(code)),
        }
    }

    /// Claims the `num`-th declared resource of class `rtype` exclusively
    /// and returns its validated range.
    ///
    /// The slot a claim addresses is the resource's position in the
    /// declared list. The claim fails with [`Error::NotFound`] when the
    /// host declares no such resource, [`Error::CapacityExceeded`] when the
    /// position lies beyond the claim tracker's width (never silently
    /// truncated), [`Error::AlreadyClaimed`] when the slot is taken, and
    /// [`Error::InvalidRange`] when the declared range is degenerate — in
    /// that last case the slot stays claimed, as in every success.
    pub fn get_resource(&mut self, rtype: IoResource, num: usize) -> (r: Result<Resource, Error>)
        ensures
            final(self)@ == (DeviceView {
                claims: spec_claim_mask(old(self)@, rtype, num as int),
                ..old(self)@
            }),
            (match spec_claim_err(old(self)@, rtype, num as int) {
                Some(e) => r == Err::<Resource, Error>(e),
                None => (match find_resource(old(self)@.resources, rtype, num as int) {
                    Some(i) => {
                        let raw = old(self)@.resources[i];
                        &&& r matches Ok(res)
                        &&& res.spec_start() == raw.start
                        &&& res.spec_end() == raw.end
                        &&& res.spec_flags() == raw.flags
                        &&& res.wf()
                    },
                    None => false,
                }),
            }),
    {
        let index = match find_matching(&self.resources, rtype, num) {
            Some(index) => index,
            None => {
                return Err(Error::NotFound);
            },
        };
        match self.claims.claim(index as u64) {
            Ok(_) => {},
            Err(e) => {
                return Err(e);
            },
        }
        let raw = self.resources[index];
        match Resource::new(raw.start, raw.end, raw.flags) {
            Some(res) => Ok(res),
            None => Err(Error::InvalidRange),
        }
    }

    /// Claims the memory-class resource at `index` and maps it into
    /// addressable memory for `size` bytes. The host performs the mapping;
    /// `host_map` is its reply — the chosen base address, or its native
    /// error code.
    ///
    /// If the host refuses the mapping after a successful claim, the claim
    /// bitmask is rolled back to its pre-call value, so the slot can be
    /// retried — the only point where a claim is reversed. A claim-phase
    /// failure propagates unchanged.
    ///
    /// Callers must guarantee that either the resulting mapping is never
    /// used to initiate direct-memory-access transfers, or that such
    /// transfers use handles allocated through a DMA-safe path; nothing
    /// here can check that.
    pub fn ioremap_resource(
        &mut self,
        index: usize,
        size: usize,
        host_map: Result<u64, i32>,
    ) -> (r: Result<MappedMemory, Error>)
        ensures
            final(self)@ == (DeviceView {
                claims: spec_ioremap_mask(old(self)@, index as int, host_map),
                ..old(self)@
            }),
            (match spec_ioremap_err(old(self)@, index as int, host_map) {
                Some(e) => r == Err::<MappedMemory, Error>(e),
                None => (match (
                    find_resource(old(self)@.resources, IoResource::Mem, index as int),
                    host_map,
                ) {
                    (Some(i), Ok(base)) => {
                        let raw = old(self)@.resources[i];
                        &&& r matches Ok(m)
                        &&& m.base == base
                        &&& m.size == size
                        &&& m.resource.spec_start() == raw.start
                        &&& m.resource.spec_end() == raw.end
                        &&& m.resource.spec_flags() == raw.flags
                    },
                    _ => false,
                }),
            }),
    {
        let saved: u64 = self.claims.snapshot();
        let res = match self.get_resource(IoResource::Mem, index) {
            Ok(res) => res,
            Err(e) => {
                return Err(e);
            },
        };
        match host_map {
            Ok(base) => Ok(MappedMemory { base, size, resource: res }),
            Err(code) => {
                self.claims.restore(saved);
                Err(Error::HostRejected(code))
            },
        }
    }
}

/// Why a mapped-resource acquisition at `index` fails on `dev`, or `None`
/// when it succeeds: a claim-phase error propagates unchanged, and a host
/// refusal of the mapping surfaces as [`Error::HostRejected`].
pub open spec fn spec_ioremap_err(dev: DeviceView, index: int, host_map: Result<u64, i32>) -> Option<
    Error,
> {
    match spec_claim_err(dev, IoResource::Mem, index) {
        Some(e) => Some(e),
        None => match host_map {
            Ok(_) => None,
            Err(code) => Some(Error::HostRejected(code)),
        },
    }
}

/// The claim bitmask after a mapped-resource acquisition: on a host-refused
/// mapping the freshly claimed slot is rolled back; otherwise the claim's
/// own outcome stands.
pub open spec fn spec_ioremap_mask(dev: DeviceView, index: int, host_map: Result<u64, i32>) -> u64 {
    match spec_claim_err(dev, IoResource::Mem, index) {
        Some(_) => spec_claim_mask(dev, IoResource::Mem, index),
        None => match host_map {
            Ok(_) => spec_claim_mask(dev, IoResource::Mem, index),
            Err(_) => dev.claims,
        },
    }
}

/// A found position lies within the declared resource list, at or after
/// the search start, and holds a resource of the requested class.
pub proof fn lemma_find_resource_in_bounds(
    rs: Seq<RawResource>,
    rtype: IoResource,
    n: int,
    p: int,
)
    requires
        find_resource_from(rs, rtype, n, p) is Some,
    ensures
        p <= find_resource_from(rs, rtype, n, p)->0 < rs.len(),
        res_matches(rs[find_resource_from(rs, rtype, n, p)->0], rtype),
    decreases rs.len() - p,
{
    if !(p < 0 || p >= rs.len()) {
        if res_matches(rs[p], rtype) && n == 0 {
        } else if res_matches(rs[p], rtype) {
            lemma_find_resource_in_bounds(rs, rtype, n - 1, p + 1);
        } else {
            lemma_find_resource_in_bounds(rs, rtype, n, p + 1);
        }
    }
}

/// Law: a claim whose computed slot lies at or beyond the claim tracker's
/// capacity always fails with [`Error::CapacityExceeded`] and leaves the
/// mask as it was — an out-of-range slot is never silently truncated.
pub proof fn lemma_claim_capacity_exceeded(dev: DeviceView, rtype: IoResource, n: int)
    requires
        find_resource(dev.resources, rtype, n) matches Some(i) && i >= CLAIM_CAPACITY,
    ensures
        spec_claim_err(dev, rtype, n) == Some(Error::CapacityExceeded),
        spec_claim_mask(dev, rtype, n) == dev.claims,
{
}

/// Law: claiming the same (class, index) slot a second time fails with
/// [`Error::AlreadyClaimed`], regardless of the calls made in between —
/// claims only ever add bits, so any later mask satisfies the hypothesis
/// on `later.claims`.
pub proof fn lemma_second_claim_rejected(
    dev: DeviceView,
    later: DeviceView,
    rtype: IoResource,
    n: int,
)
    requires
        spec_claim_err(dev, rtype, n) is None,
        later.resources == dev.resources,
        forall|b: u64|
            b < CLAIM_CAPACITY && mask_bit(spec_claim_mask(dev, rtype, n), b)
                ==> #[trigger] mask_bit(later.claims, b),
    ensures
        spec_claim_err(later, rtype, n) == Some(Error::AlreadyClaimed),
{
    lemma_find_resource_in_bounds(dev.resources, rtype, n, 0);
    let i = find_resource(dev.resources, rtype, n)->0;
    let slot = i as u64;
    crate::claims::lemma_mask_set_bit(dev.claims, slot, slot);
    assert(mask_bit(spec_claim_mask(dev, rtype, n), slot));
    assert(mask_bit(later.claims, slot));
}

/// Law: a failed mapped-resource acquisition leaves the claim bitmask
/// identical to its pre-call value — the claim taken for a mapping the
/// host then refuses is rolled back. The one exception is a claim phase
/// that itself failed with [`Error::InvalidRange`]: that slot stays taken,
/// exactly as on a bare claim of a degenerate range.
pub proof fn lemma_failed_ioremap_preserves_claims(
    dev: DeviceView,
    index: int,
    host_map: Result<u64, i32>,
)
    requires
        spec_ioremap_err(dev, index, host_map) is Some,
        spec_claim_err(dev, IoResource::Mem, index) != Some(Error::InvalidRange),
    ensures
        spec_ioremap_mask(dev, index, host_map) == dev.claims,
{
}

/// Whether a declared resource belongs to one of the recognized classes.
pub open spec fn has_known_class(r: RawResource) -> bool {
    ||| r.flags & IORESOURCE_TYPE_BITS == IORESOURCE_IO
    ||| r.flags & IORESOURCE_TYPE_BITS == IORESOURCE_MEM
}

/// The class of a declared resource (meaningful when it has a known class).
pub open spec fn class_of(r: RawResource) -> IoResource {
    if r.flags & IORESOURCE_TYPE_BITS == IORESOURCE_IO {
        IoResource::Io
    } else {
        IoResource::Mem
    }
}

/// Number of resources of class `rtype` among the first `k` of the list.
pub open spec fn count_matches_upto(rs: Seq<RawResource>, rtype: IoResource, k: int) -> int
    decreases k,
{
    if k <= 0 {
        0
    } else {
        count_matches_upto(rs, rtype, k - 1) + if res_matches(rs[k - 1], rtype) {
            1int
        } else {
            0int
        }
    }
}

/// The per-class index that addresses position `k` of the list: how many
/// earlier resources share its class.
pub open spec fn rank_of(rs: Seq<RawResource>, k: int) -> int {
    count_matches_upto(rs, class_of(rs[k]), k)
}

proof fn lemma_count_monotone(rs: Seq<RawResource>, rtype: IoResource, a: int, b: int)
    requires
        a <= b,
    ensures
        count_matches_upto(rs, rtype, a) <= count_matches_upto(rs, rtype, b),
    decreases b - a,
{
    if a < b {
        lemma_count_monotone(rs, rtype, a, b - 1);
    }
}

proof fn lemma_find_from_rank(rs: Seq<RawResource>, rtype: IoResource, p: int, k: int)
    requires
        0 <= p <= k < rs.len(),
        res_matches(rs[k], rtype),
    ensures
        find_resource_from(
            rs,
            rtype,
            count_matches_upto(rs, rtype, k) - count_matches_upto(rs, rtype, p),
            p,
        ) == Some(k),
    decreases k - p,
{
    let n = count_matches_upto(rs, rtype, k) - count_matches_upto(rs, rtype, p);
    if p == k {
        assert(n == 0);
    } else {
        if res_matches(rs[p], rtype) {
            assert(count_matches_upto(rs, rtype, p + 1) == count_matches_upto(rs, rtype, p) + 1);
            lemma_count_monotone(rs, rtype, p + 1, k);
            assert(n >= 1);
            lemma_find_from_rank(rs, rtype, p + 1, k);
        } else {
            assert(count_matches_upto(rs, rtype, p + 1) == count_matches_upto(rs, rtype, p));
            lemma_find_from_rank(rs, rtype, p + 1, k);
        }
    }
}

/// A claim by a resource's class and per-class index addresses exactly its
/// position in the declared list — distinct positions are reached by
/// distinct queries, and distinct queries never share a position.
pub proof fn lemma_rank_addresses_position(rs: Seq<RawResource>, k: int)
    requires
        0 <= k < rs.len(),
        has_known_class(rs[k]),
    ensures
        find_resource(rs, class_of(rs[k]), rank_of(rs, k)) == Some(k),
{
    assert(res_matches(rs[k], class_of(rs[k])));
    lemma_find_from_rank(rs, class_of(rs[k]), 0, k);
    assert(count_matches_upto(rs, class_of(rs[k]), 0) == 0);
}

/// The device after the claim that addresses position `k`, whatever the
/// claim's outcome.
pub open spec fn spec_after_claim(dev: DeviceView, k: int) -> DeviceView {
    DeviceView {
        claims: spec_claim_mask(dev, class_of(dev.resources[k]), rank_of(dev.resources, k)),
        ..dev
    }
}

/// Whether the claims addressing positions `ks`, made in order, all
/// succeed.
pub open spec fn spec_claims_succeed(dev: DeviceView, ks: Seq<int>) -> bool
    decreases ks.len(),
{
    ks.len() == 0 || {
        &&& spec_claim_err(
            dev,
            class_of(dev.resources[ks[0]]),
            rank_of(dev.resources, ks[0]),
        ) is None
        &&& spec_claims_succeed(spec_after_claim(dev, ks[0]), ks.drop_first())
    }
}

/// The device after the claims addressing positions `ks`, in order.
pub open spec fn spec_claim_all(dev: DeviceView, ks: Seq<int>) -> DeviceView
    decreases ks.len(),
{
    if ks.len() == 0 {
        dev
    } else {
        spec_claim_all(spec_after_claim(dev, ks[0]), ks.drop_first())
    }
}

/// Law: on a device declaring at most [`CLAIM_CAPACITY`] resources, all of
/// a recognized class and with valid ranges, the claims addressing any
/// distinct positions whose slots are still free all succeed, in any
/// order, and exactly those positions' bits are added to the mask — so N
/// distinct claims occupy N distinct bits.
pub proof fn lemma_distinct_claims_succeed(dev: DeviceView, ks: Seq<int>)
    requires
        dev.resources.len() <= CLAIM_CAPACITY,
        forall|j: int|
            0 <= j < dev.resources.len() ==> has_known_class(#[trigger] dev.resources[j])
                && dev.resources[j].start <= dev.resources[j].end,
        ks.no_duplicates(),
        forall|j: int| 0 <= j < ks.len() ==> 0 <= #[trigger] ks[j] < dev.resources.len(),
        forall|j: int| 0 <= j < ks.len() ==> !mask_bit(dev.claims, #[trigger] ks[j] as u64),
    ensures
        spec_claims_succeed(dev, ks),
        forall|b: u64|
            b < CLAIM_CAPACITY ==> (#[trigger] mask_bit(spec_claim_all(dev, ks).claims, b) == (
            mask_bit(dev.claims, b) || ks.contains(b as int))),
        spec_claim_all(dev, ks).resources == dev.resources,
    decreases ks.len(),
{
    if ks.len() == 0 {
        assert forall|b: u64| b < CLAIM_CAPACITY implies (#[trigger] mask_bit(
            spec_claim_all(dev, ks).claims,
            b,
        ) == (mask_bit(dev.claims, b) || ks.contains(b as int))) by {
            assert(!ks.contains(b as int));
        }
    } else {
        // claim the first position, then the rest by induction
        let k = ks[0];
        let rest = ks.drop_first();
        lemma_rank_addresses_position(dev.resources, k);
        let dev2 = spec_after_claim(dev, k);
        assert(dev2.claims == (dev.claims | (1u64 << (k as u64))));
        assert forall|b: u64| b < CLAIM_CAPACITY implies (mask_bit(dev2.claims, b) == (mask_bit(
            dev.claims,
            b,
        ) || b == k as u64)) by {
            crate::claims::lemma_mask_set_bit(dev.claims, k as u64, b);
        }
        assert forall|i: int, j: int|
            0 <= i < rest.len() && 0 <= j < rest.len() && i != j implies rest[i] != rest[j] by {
            assert(rest[i] == ks[i + 1]);
            assert(rest[j] == ks[j + 1]);
        }
        assert forall|j: int| 0 <= j < rest.len() implies 0 <= #[trigger] rest[j]
            < dev2.resources.len() by {
            assert(rest[j] == ks[j + 1]);
        }
        assert forall|j: int| 0 <= j < rest.len() implies !mask_bit(
            dev2.claims,
            #[trigger] rest[j] as u64,
        ) by {
            assert(rest[j] == ks[j + 1]);
            assert(ks[j + 1] != k);
            assert(!mask_bit(dev.claims, ks[j + 1] as u64));
        }
        lemma_distinct_claims_succeed(dev2, rest);
        assert(spec_claims_succeed(dev, ks));
        assert(spec_claim_all(dev, ks) == spec_claim_all(dev2, rest));
        assert forall|b: u64| b < CLAIM_CAPACITY implies (#[trigger] mask_bit(
            spec_claim_all(dev, ks).claims,
            b,
        ) == (mask_bit(dev.claims, b) || ks.contains(b as int))) by {
            if ks.contains(b as int) {
                let idx = choose|idx: int| 0 <= idx < ks.len() && ks[idx] == b as int;
                if idx > 0 {
                    assert(rest[idx - 1] == b as int);
                    assert(rest.contains(b as int));
                }
            }
            if rest.contains(b as int) {
                let idx = choose|idx: int| 0 <= idx < rest.len() && rest[idx] == b as int;
                assert(ks[idx + 1] == b as int);
                assert(ks.contains(b as int));
            }
            if b == k as u64 {
                assert(ks[0] == b as int);
                assert(ks.contains(b as int));
            }
        }
    }
}

/// Law (corollary): on a freshly constructed device — no slot claimed yet —
/// the claims addressing any distinct positions all succeed, and the final
/// mask holds exactly those positions' bits, one per claim.
pub proof fn lemma_fresh_device_distinct_claims(dev: DeviceView, ks: Seq<int>)
    requires
        dev.claims == 0,
        dev.resources.len() <= CLAIM_CAPACITY,
        forall|j: int|
            0 <= j < dev.resources.len() ==> has_known_class(#[trigger] dev.resources[j])
                && dev.resources[j].start <= dev.resources[j].end,
        ks.no_duplicates(),
        forall|j: int| 0 <= j < ks.len() ==> 0 <= #[trigger] ks[j] < dev.resources.len(),
    ensures
        spec_claims_succeed(dev, ks),
        forall|b: u64|
            b < CLAIM_CAPACITY ==> (#[trigger] mask_bit(spec_claim_all(dev, ks).claims, b)
                == ks.contains(b as int)),
{
    assert forall|j: int| 0 <= j < ks.len() implies !mask_bit(
        dev.claims,
        #[trigger] ks[j] as u64,
    ) by {
        crate::claims::lemma_mask_empty(ks[j] as u64);
    }
    lemma_distinct_claims_succeed(dev, ks);
    assert forall|b: u64| b < CLAIM_CAPACITY implies (#[trigger] mask_bit(
        spec_claim_all(dev, ks).claims,
        b,
    ) == ks.contains(b as int)) by {
        crate::claims::lemma_mask_empty(b);
    }
}

} // verus!

//! Tracking of raw strings and byte arrays handed to foreign code.
//!
//! Each buffer is recorded by address with its kind and size when it is handed
//! out, and released at most once: releasing an address that is not recorded
//! (a double free, or a pointer never handed out) is refused. At shutdown the
//! buffers still recorded are summarised by kind, count and size.

use std::collections::HashMap;

use vstd::prelude::*;
use vstd::std_specs::hash::group_hash_axioms;

verus! {

/// What kind of buffer an address holds.
#[derive(Debug, Clone, Copy, PartialEq, Eq, Structural)]
pub enum AllocationType {
    /// A NUL-terminated string.
    String,
    /// A byte array.
    ByteArray,
}

/// What is recorded of one buffer.
#[derive(Debug, Clone, Copy, PartialEq, Eq, Structural)]
pub struct AllocationInfo {
    pub allocation_type: AllocationType,
    /// Its size in bytes.
    pub size: usize,
}

/// How much one buffer adds to a summary of the buffers of kind `kind`: one
/// when counting (`sizes` false), its size when summing sizes.
pub open spec fn weight(info: AllocationInfo, kind: AllocationType, sizes: bool) -> nat {
    if info.allocation_type != kind {
        0
    } else if sizes {
        info.size as nat
    } else {
        1
    }
}

/// The sum of `weight` over every recorded buffer of `m`.
pub open spec fn total(m: Map<usize, AllocationInfo>, kind: AllocationType, sizes: bool) -> nat
    decreases m.len(),
{
    if m.dom().finite() && m.len() > 0 {
        let k = m.dom().choose();
        weight(m[k], kind, sizes) + total(m.remove(k), kind, sizes)
    } else {
        0
    }
}

/// The total does not depend on which buffer is taken out first.
pub proof fn lemma_total_remove(
    m: Map<usize, AllocationInfo>,
    k: usize,
    kind: AllocationType,
    sizes: bool,
)
    requires
        m.dom().finite(),
        m.contains_key(k),
    ensures
        total(m, kind, sizes) == weight(m[k], kind, sizes) + total(m.remove(k), kind, sizes),
    decreases m.len(),
{
    let c = m.dom().choose();
    if c != k {
        lemma_total_remove(m.remove(c), k, kind, sizes);
        lemma_total_remove(m.remove(k), c, kind, sizes);
        assert(m.remove(c).remove(k) =~= m.remove(k).remove(c));
    }
}

/// A total over `m` is at most `bound` for each buffer.
pub proof fn lemma_total_bound(
    m: Map<usize, AllocationInfo>,
    kind: AllocationType,
    sizes: bool,
    bound: nat,
)
    requires
        forall|k: usize| m.contains_key(k) ==> weight(#[trigger] m[k], kind, sizes) <= bound,
    ensures
        total(m, kind, sizes) <= m.len() * bound,
    decreases m.len(),
{
    if m.dom().finite() && m.len() > 0 {
        let k = m.dom().choose();
        lemma_total_bound(m.remove(k), kind, sizes, bound);
        assert(total(m, kind, sizes) <= m.len() * bound) by (nonlinear_arith)
            requires
                total(m, kind, sizes) == weight(m[k], kind, sizes) + total(m.remove(k), kind, sizes),
                weight(m[k], kind, sizes) <= bound,
                total(m.remove(k), kind, sizes) <= m.remove(k).len() * bound,
                m.remove(k).len() + 1 == m.len(),
        ;
    }
}

/// Buffers that were never released, by kind, with their sizes in bytes.
#[derive(Debug, Clone, Copy, PartialEq, Eq, Structural)]
pub struct LeakReport {
    pub string_count: usize,
    pub string_bytes: u128,
    pub array_count: usize,
    pub array_bytes: u128,
}

impl LeakReport {
    /// This report summarises exactly the buffers of `m`.
    pub open spec fn describes(self, m: Map<usize, AllocationInfo>) -> bool {
        &&& self.string_count == total(m, AllocationType::String, false)
        &&& self.string_bytes == total(m, AllocationType::String, true)
        &&& self.array_count == total(m, AllocationType::ByteArray, false)
        &&& self.array_bytes == total(m, AllocationType::ByteArray, true)
    }

    /// Whether any buffer was left.
    pub open spec fn spec_is_empty(&self) -> bool {
        self.string_count == 0 && self.array_count == 0
    }

    /// Whether the report counts no buffer at all.
    #[verifier::when_used_as_spec(spec_is_empty)]
    pub fn is_empty(&self) -> (r: bool)
        ensures
            r == self.spec_is_empty(),
    {
        self.string_count == 0 && self.array_count == 0
    }
}

/// The buffers currently handed out, by address.
pub struct AllocationTracker {
    allocations: HashMap<usize, AllocationInfo>,
    report: LeakReport,
}

impl View for AllocationTracker {
    type V = Map<usize, AllocationInfo>;

    closed spec fn view(&self) -> Map<usize, AllocationInfo> {
        self.allocations@
    }
}

impl AllocationTracker {
    /// The null address is never recorded, and the running summary matches
    /// the recorded buffers.
    pub closed spec fn wf(&self) -> bool {
        &&& !self.allocations@.contains_key(0)
        &&& self.report.describes(self.allocations@)
    }

    /// A tracker that records nothing.
    pub fn new() -> (r: Self)
        ensures
            r.wf(),
            r@ == Map::<usize, AllocationInfo>::empty(),
    {
        let r = AllocationTracker {
            allocations: HashMap::new(),
            report: LeakReport { string_count: 0, string_bytes: 0, array_count: 0, array_bytes: 0 },
        };
        r
    }

    proof fn lemma_bounds(&self)
        requires
            self.wf(),
        ensures
            self@.len() <= usize::MAX,
            self.report.string_count <= self@.len(),
            self.report.array_count <= self@.len(),
            self.report.string_bytes <= self@.len() * usize::MAX,
            self.report.array_bytes <= self@.len() * usize::MAX,
    {
        broadcast use group_hash_axioms;

        assert(vstd::std_specs::hash::spec_hash_map_len(&self.allocations) == self@.len());
        lemma_total_bound(self@, AllocationType::String, false, 1);
        lemma_total_bound(self@, AllocationType::ByteArray, false, 1);
        lemma_total_bound(self@, AllocationType::String, true, usize::MAX as nat);
        lemma_total_bound(self@, AllocationType::ByteArray, true, usize::MAX as nat);
    }

    /// Records the buffer at `ptr`; a null `ptr` is ignored. Recording an
    /// address again replaces what was recorded of it.
    pub fn track(&mut self, ptr: usize, size: usize, allocation_type: AllocationType)
        requires
            old(self).wf(),
        ensures
            final(self).wf(),
            final(self)@ == if ptr == 0 {
                old(self)@
            } else {
                old(self)@.insert(ptr, AllocationInfo { allocation_type, size })
            },
    {
        broadcast use group_hash_axioms;

        if ptr == 0 {
            return;
        }
        let info = AllocationInfo { allocation_type, size };
        let ghost m0 = self.allocations@;
        proof {
            self.lemma_bounds();
        }
        let previous = self.allocations.insert(ptr, info);
        let ghost m1 = self.allocations@;
        proof {
            assert(m1.remove(ptr) =~= m0.remove(ptr));
            assert(vstd::std_specs::hash::spec_hash_map_len(&self.allocations) == m1.len());
            lemma_total_remove(m1, ptr, AllocationType::String, false);
            lemma_total_remove(m1, ptr, AllocationType::String, true);
            lemma_total_remove(m1, ptr, AllocationType::ByteArray, false);
            lemma_total_remove(m1, ptr, AllocationType::ByteArray, true);
            lemma_total_bound(m1, AllocationType::String, false, 1);
            lemma_total_bound(m1, AllocationType::ByteArray, false, 1);
            lemma_total_bound(m1, AllocationType::String, true, usize::MAX as nat);
            lemma_total_bound(m1, AllocationType::ByteArray, true, usize::MAX as nat);
            assert(m1.len() * usize::MAX <= usize::MAX * usize::MAX) by (nonlinear_arith)
                requires
                    m1.len() <= usize::MAX,
            ;
            assert(usize::MAX * usize::MAX < u128::MAX) by (nonlinear_arith)
                requires
                    usize::MAX <= u64::MAX,
            ;
            if m0.contains_key(ptr) {
                lemma_total_remove(m0, ptr, AllocationType::String, false);
                lemma_total_remove(m0, ptr, AllocationType::String, true);
                lemma_total_remove(m0, ptr, AllocationType::ByteArray, false);
                lemma_total_remove(m0, ptr, AllocationType::ByteArray, true);
            } else {
                assert(m1.remove(ptr) =~= m0);
            }
        }
        if let Some(old_info) = previous {
            self.report = remove_from(self.report, old_info);
        }
        self.report = add_to(self.report, info);
    }

    /// Forgets the buffer at `ptr`, so that it may be reclaimed once. Returns
    /// whether that is allowed: true for a null `ptr` (nothing to do) and for
    /// a recorded address, which is forgotten; false for any other address,
    /// which changes nothing.
    pub fn untrack(&mut self, ptr: usize) -> (r: bool)
        requires
            old(self).wf(),
        ensures
            final(self).wf(),
            r == (ptr == 0 || old(self)@.contains_key(ptr)),
            final(self)@ == old(self)@.remove(ptr),
    {
        broadcast use group_hash_axioms;

        if ptr == 0 {
            assert(self@.remove(ptr) =~= self@);
            return true;
        }
        let ghost m0 = self.allocations@;
        proof {
            self.lemma_bounds();
        }
        match self.allocations.remove(&ptr) {
            Some(info) => {
                proof {
                    lemma_total_remove(m0, ptr, AllocationType::String, false);
                    lemma_total_remove(m0, ptr, AllocationType::String, true);
                    lemma_total_remove(m0, ptr, AllocationType::ByteArray, false);
                    lemma_total_remove(m0, ptr, AllocationType::ByteArray, true);
                }
                self.report = remove_from(self.report, info);
                true
            },
            None => {
                assert(m0.remove(ptr) =~= m0);
                false
            },
        }
    }

    /// What is recorded of the buffer at `ptr`, if it is recorded.
    pub fn info(&self, ptr: usize) -> (r: Option<AllocationInfo>)
        ensures
            r == if self@.contains_key(ptr) {
                Some(self@[ptr])
            } else {
                None::<AllocationInfo>
            },
    {
        broadcast use group_hash_axioms;

        match self.allocations.get(&ptr) {
            Some(info) => Some(*info),
            None => None,
        }
    }

    /// How many buffers are recorded.
    pub fn len(&self) -> (r: usize)
        ensures
            r == self@.len(),
    {
        broadcast use group_hash_axioms;

        self.allocations.len()
    }

    /// The buffers still recorded, by kind: what shutdown reports as leaked.
    pub fn leak_report(&self) -> (r: LeakReport)
        requires
            self.wf(),
        ensures
            r.describes(self@),
    {
        self.report
    }
}

/// Records a string of `len` bytes, terminator included, handed out at `ptr`.
pub fn track_string_allocation(tracker: &mut AllocationTracker, ptr: usize, len: usize)
    requires
        old(tracker).wf(),
    ensures
        final(tracker).wf(),
        final(tracker)@ == if ptr == 0 {
            old(tracker)@
        } else {
            old(tracker)@.insert(ptr, AllocationInfo { allocation_type: AllocationType::String, size: len })
        },
{
    tracker.track(ptr, len, AllocationType::String);
}

/// Records a byte array of `len` bytes handed out at `ptr`.
pub fn track_bytes_allocation(tracker: &mut AllocationTracker, ptr: usize, len: usize)
    requires
        old(tracker).wf(),
    ensures
        final(tracker).wf(),
        final(tracker)@ == if ptr == 0 {
            old(tracker)@
        } else {
            old(tracker)@.insert(
                ptr,
                AllocationInfo { allocation_type: AllocationType::ByteArray, size: len },
            )
        },
{
    tracker.track(ptr, len, AllocationType::ByteArray);
}

/// Forgets the buffer at `ptr`; true when it may be reclaimed (null, or
/// recorded), false for an address that is not recorded.
pub fn untrack_allocation(tracker: &mut AllocationTracker, ptr: usize) -> (r: bool)
    requires
        old(tracker).wf(),
    ensures
        final(tracker).wf(),
        r == (ptr == 0 || old(tracker)@.contains_key(ptr)),
        final(tracker)@ == old(tracker)@.remove(ptr),
{
    tracker.untrack(ptr)
}

fn add_to(report: LeakReport, info: AllocationInfo) -> (r: LeakReport)
    requires
        info.allocation_type == AllocationType::String ==> report.string_count + 1 <= usize::MAX
            && report.string_bytes + info.size <= u128::MAX,
        info.allocation_type == AllocationType::ByteArray ==> report.array_count + 1 <= usize::MAX
            && report.array_bytes + info.size <= u128::MAX,
    ensures
        r.string_count == report.string_count + weight(info, AllocationType::String, false),
        r.string_bytes == report.string_bytes + weight(info, AllocationType::String, true),
        r.array_count == report.array_count + weight(info, AllocationType::ByteArray, false),
        r.array_bytes == report.array_bytes + weight(info, AllocationType::ByteArray, true),
{
    match info.allocation_type {
        AllocationType::String => LeakReport {
            string_count: report.string_count + 1,
            string_bytes: report.string_bytes + info.size as u128,
            ..report
        },
        AllocationType::ByteArray => LeakReport {
            array_count: report.array_count + 1,
            array_bytes: report.array_bytes + info.size as u128,
            ..report
        },
    }
}

fn remove_from(report: LeakReport, info: AllocationInfo) -> (r: LeakReport)
    requires
        info.allocation_type == AllocationType::String ==> report.string_count >= 1
            && report.string_bytes >= info.size,
        info.allocation_type == AllocationType::ByteArray ==> report.array_count >= 1
            && report.array_bytes >= info.size,
    ensures
        r.string_count == report.string_count - weight(info, AllocationType::String, false),
        r.string_bytes == report.string_bytes - weight(info, AllocationType::String, true),
        r.array_count == report.array_count - weight(info, AllocationType::ByteArray, false),
        r.array_bytes == report.array_bytes - weight(info, AllocationType::ByteArray, true),
{
    match info.allocation_type {
        AllocationType::String => LeakReport {
            string_count: report.string_count - 1,
            string_bytes: report.string_bytes - info.size as u128,
            ..report
        },
        AllocationType::ByteArray => LeakReport {
            array_count: report.array_count - 1,
            array_bytes: report.array_bytes - info.size as u128,
            ..report
        },
    }
}

} // verus!

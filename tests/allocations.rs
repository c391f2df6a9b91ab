use cimpl::allocations::track_bytes_allocation;
use cimpl::allocations::track_string_allocation;
use cimpl::allocations::untrack_allocation;
use cimpl::allocations::AllocationType;
use cimpl::allocations::LeakReport;
use cimpl::AllocationTracker;

#[test]
fn test_allocation_tracking_double_free_string() {
    let mut tracker = AllocationTracker::new();
    let text = "test allocation tracking";
    track_string_allocation(&mut tracker, 0x7000, text.len() + 1);
    assert_eq!(tracker.len(), 1);

    let result1 = untrack_allocation(&mut tracker, 0x7000);
    assert!(result1);

    let result2 = untrack_allocation(&mut tracker, 0x7000);
    assert!(!result2);
}

#[test]
fn test_allocation_tracking_null_free() {
    let mut tracker = AllocationTracker::new();
    let result1 = untrack_allocation(&mut tracker, 0);
    assert!(result1);

    track_bytes_allocation(&mut tracker, 0, 5);
    let result2 = untrack_allocation(&mut tracker, 0);
    assert!(result2);
    assert_eq!(tracker.len(), 0);
}

#[test]
fn test_allocation_tracking_double_free_bytes() {
    let mut tracker = AllocationTracker::new();
    let test_bytes = vec![1u8, 2, 3, 4, 5];
    track_bytes_allocation(&mut tracker, 0x8000, test_bytes.len());

    let result1 = untrack_allocation(&mut tracker, 0x8000);
    assert!(result1);

    let result2 = untrack_allocation(&mut tracker, 0x8000);
    assert!(!result2);
}

#[test]
fn leak_report_counts_by_kind() {
    let mut tracker = AllocationTracker::new();
    assert!(tracker.leak_report().is_empty());
    track_string_allocation(&mut tracker, 0x10, 6);
    track_string_allocation(&mut tracker, 0x20, 10);
    track_bytes_allocation(&mut tracker, 0x30, 100);
    let report = tracker.leak_report();
    assert_eq!(
        report,
        LeakReport { string_count: 2, string_bytes: 16, array_count: 1, array_bytes: 100 }
    );
    assert!(!report.is_empty());
    assert!(untrack_allocation(&mut tracker, 0x20));
    assert_eq!(
        tracker.leak_report(),
        LeakReport { string_count: 1, string_bytes: 6, array_count: 1, array_bytes: 100 }
    );
}

#[test]
fn retracking_replaces_kind_and_size() {
    let mut tracker = AllocationTracker::new();
    tracker.track(0x40, 8, AllocationType::String);
    tracker.track(0x40, 3, AllocationType::ByteArray);
    assert_eq!(tracker.len(), 1);
    assert_eq!(
        tracker.leak_report(),
        LeakReport { string_count: 0, string_bytes: 0, array_count: 1, array_bytes: 3 }
    );
}

#[test]
fn leak_report_sums_the_largest_sizes() {
    let mut tracker = AllocationTracker::new();
    tracker.track(0x1, usize::MAX, AllocationType::ByteArray);
    tracker.track(0x2, usize::MAX, AllocationType::ByteArray);
    let report = tracker.leak_report();
    assert_eq!(report.array_count, 2);
    assert_eq!(report.array_bytes, 2 * (usize::MAX as u128));
}

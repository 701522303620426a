use kullat::buffer::{AllocationError, Allocator, DeviceCaps, BYTES_PER_PIXEL, MAX_EXTENT};
use kullat::format::{abgr2101010, abgr8888};

fn one_device() -> Allocator {
    Allocator::new(&vec![DeviceCaps {
        has_export_extension: true,
        formats: vec![abgr8888(), abgr2101010()],
        max_extent: 16384,
    }])
}

#[test]
fn new_picks_the_first_capable_device() {
    let devices = vec![
        DeviceCaps { has_export_extension: false, formats: vec![abgr8888()], max_extent: 100 },
        DeviceCaps { has_export_extension: true, formats: vec![abgr2101010()], max_extent: 200 },
        DeviceCaps { has_export_extension: true, formats: vec![abgr8888()], max_extent: 300 },
    ];
    let alloc = Allocator::new(&devices);
    let device = alloc.device.expect("a capable device is present");
    assert_eq!(device.max_extent, 200);
    assert_eq!(device.formats, vec![abgr2101010()]);
}

#[test]
fn new_without_capable_device_leaves_none() {
    let devices = vec![DeviceCaps {
        has_export_extension: false,
        formats: vec![abgr8888()],
        max_extent: 100,
    }];
    let alloc = Allocator::new(&devices);
    assert!(alloc.device.is_none());
}

#[test]
fn allocate_builds_a_single_linear_plane() {
    let mut alloc = one_device();
    let b = alloc.allocate(1280, 800, abgr8888()).expect("allocation succeeds");
    assert_eq!(b.width, 1280);
    assert_eq!(b.height, 800);
    assert_eq!(b.format, abgr8888());
    assert_eq!(b.planes.len(), 1);
    assert_eq!(b.planes[0].index, 0);
    assert_eq!(b.planes[0].offset, 0);
    assert_eq!(b.planes[0].stride, 1280 * BYTES_PER_PIXEL);
    assert_eq!(b.planes[0].modifier, abgr8888().modifier);
    assert!(!b.y_inverted);
    assert_eq!(b.wire_flags(), 0);
    assert_eq!(b.handles, vec![1]);
}

#[test]
fn allocate_numbers_handles_consecutively() {
    let mut alloc = one_device();
    let a = alloc.allocate(2, 2, abgr8888()).unwrap();
    let b = alloc.allocate(2, 2, abgr8888()).unwrap();
    let c = alloc.allocate(2, 2, abgr2101010()).unwrap();
    assert_eq!(a.handles, vec![1]);
    assert_eq!(b.handles, vec![2]);
    assert_eq!(c.handles, vec![3]);
}

#[test]
fn allocate_without_device_reports_device_unavailable() {
    let mut alloc = Allocator::new(&Vec::new());
    assert_eq!(
        alloc.allocate(640, 480, abgr8888()),
        Err(AllocationError::DeviceUnavailable)
    );
}

#[test]
fn allocate_unknown_format_reports_unsupported_format() {
    let mut alloc = Allocator::new(&vec![DeviceCaps {
        has_export_extension: true,
        formats: vec![abgr8888()],
        max_extent: 4096,
    }]);
    assert_eq!(
        alloc.allocate(640, 480, abgr2101010()),
        Err(AllocationError::UnsupportedFormat)
    );
}

#[test]
fn allocate_out_of_range_extent_reports_out_of_memory() {
    let mut alloc = one_device();
    assert_eq!(alloc.allocate(0, 480, abgr8888()), Err(AllocationError::OutOfMemory));
    assert_eq!(alloc.allocate(640, 0, abgr8888()), Err(AllocationError::OutOfMemory));
    assert_eq!(alloc.allocate(16385, 480, abgr8888()), Err(AllocationError::OutOfMemory));
    assert_eq!(alloc.allocate(640, 16385, abgr8888()), Err(AllocationError::OutOfMemory));
}

#[test]
fn failed_allocation_keeps_the_allocator_unchanged() {
    let mut alloc = one_device();
    let before = alloc.next_handle;
    let _ = alloc.allocate(0, 0, abgr8888());
    assert_eq!(alloc.next_handle, before);
    let b = alloc.allocate(4, 4, abgr8888()).unwrap();
    assert_eq!(b.handles, vec![before]);
}

#[test]
fn wire_flags_carry_the_row_order_bit() {
    let mut alloc = one_device();
    let upright = alloc.allocate(4, 4, abgr8888()).unwrap();
    assert_eq!(upright.wire_flags(), 0);
    let mut flipped = alloc.allocate(4, 4, abgr8888()).unwrap();
    flipped.y_inverted = true;
    assert_eq!(flipped.wire_flags(), 1);
}

#[test]
fn exhausted_handle_numbers_report_out_of_memory() {
    let mut alloc = one_device();
    alloc.next_handle = u64::MAX;
    assert_eq!(alloc.allocate(4, 4, abgr8888()), Err(AllocationError::OutOfMemory));
}

#[test]
fn largest_extent_still_fits_the_stride_field() {
    let mut alloc = Allocator::new(&vec![DeviceCaps {
        has_export_extension: true,
        formats: vec![abgr8888()],
        max_extent: MAX_EXTENT,
    }]);
    let b = alloc.allocate(MAX_EXTENT, 1, abgr8888()).expect("widest row still allocates");
    assert_eq!(b.planes[0].stride, MAX_EXTENT * BYTES_PER_PIXEL);
}

//! Frame buffers and the buffer allocator model.
//!
//! A frame buffer is a GPU-backed memory region described exactly as it
//! crosses the process boundary: dimensions, FOURCC format code, per-plane
//! byte offsets and strides, a layout modifier, a row-order flag, and the
//! numbers of the OS-level shareable memory handles that travel out of band.
//! The allocator model keeps the device capability list as plain values and
//! decides which allocations succeed; the unverified shell performs the
//! actual GPU allocation for each buffer this model admits.

use vstd::prelude::*;

use crate::format::PixelFormat;

verus! {

/// Largest width or height the allocator model accepts from a device: the
/// bound under which a 4-byte-per-pixel row stride still fits in 32 bits.
pub const MAX_EXTENT: u32 = 0x3FFF_FFFF;

/// Bytes per pixel of every format the allocator produces; both supported
/// formats pack one pixel into 32 bits.
pub const BYTES_PER_PIXEL: u32 = 4;

/// Why an allocation failed.
#[derive(Clone, Copy, PartialEq, Eq, Structural, Debug)]
pub enum AllocationError {
    /// No GPU device with the buffer-export capability is present.
    DeviceUnavailable,
    /// The requested format is not in the device's capability list.
    UnsupportedFormat,
    /// The requested extent or the handle space exceeds what the device can
    /// provide.
    OutOfMemory,
}

/// One plane of a frame buffer as it crosses the process boundary.
#[derive(Clone, Copy, PartialEq, Eq, Structural, Debug)]
pub struct PlaneLayout {
    pub index: u32,
    pub offset: u32,
    pub stride: u32,
    pub modifier: u64,
}

/// A GPU-backed frame buffer descriptor. The `handles` entries number the
/// OS-level shareable memory handles that the shell transmits out of band,
/// order-correlated with the plane list. A buffer's format never changes
/// after creation; format changes always produce a new buffer.
#[derive(Debug, PartialEq, Eq)]
pub struct FrameBuffer {
    pub width: u32,
    pub height: u32,
    pub format: PixelFormat,
    pub planes: Vec<PlaneLayout>,
    pub y_inverted: bool,
    pub handles: Vec<u64>,
}

impl FrameBuffer {
    /// Well-formedness: positive extent, planes numbered in order and
    /// carrying the buffer's own modifier, and at least one shareable handle,
    /// at most one per plane.
    pub open spec fn wf(self) -> bool {
        &&& self.width >= 1
        &&& self.height >= 1
        &&& self.planes@.len() >= 1
        &&& forall|i: int|
            0 <= i < self.planes@.len() ==> (#[trigger] self.planes@[i]).index == i
        &&& forall|i: int|
            0 <= i < self.planes@.len() ==> (#[trigger] self.planes@[i]).modifier
                == self.format.modifier
        &&& 1 <= self.handles@.len() <= self.planes@.len()
    }

    /// The bit-flag field of the wire descriptor: bit zero records vertical
    /// flip (bottom-to-top row order).
    pub open spec fn spec_wire_flags(self) -> u32 {
        if self.y_inverted {
            1u32
        } else {
            0u32
        }
    }

    /// Returns the bit-flag field of the wire descriptor.
    pub fn wire_flags(&self) -> (r: u32)
        ensures
            r == self.spec_wire_flags(),
    {
        if self.y_inverted {
            1
        } else {
            0
        }
    }

}

/// What one GPU device offers: whether it can export shareable buffers at
/// all, which formats it can allocate, and its largest width or height.
pub struct DeviceCaps {
    pub has_export_extension: bool,
    pub formats: Vec<PixelFormat>,
    pub max_extent: u32,
}

impl DeviceCaps {
    /// A device report the allocator model accepts: extents bounded so that
    /// every row stride fits the 32-bit stride field.
    pub open spec fn wf(self) -> bool {
        self.max_extent <= MAX_EXTENT
    }
}

/// Whether two device reports say the same thing, compared by contents.
pub open spec fn caps_eqv(a: DeviceCaps, b: DeviceCaps) -> bool {
    &&& a.has_export_extension == b.has_export_extension
    &&& a.formats@ == b.formats@
    &&& a.max_extent == b.max_extent
}

/// The first device of the list that can export shareable buffers, if any.
pub open spec fn spec_first_capable(devices: Seq<DeviceCaps>) -> Option<DeviceCaps>
    decreases devices.len(),
{
    if devices.len() == 0 {
        None
    } else if devices[0].has_export_extension {
        Some(devices[0])
    } else {
        spec_first_capable(devices.skip(1))
    }
}

/// The buffer allocator model: the selected device's capabilities plus a
/// counter that numbers the shareable handles of the buffers it admits, so
/// that every allocation is distinguishable from every earlier one.
pub struct Allocator {
    pub device: Option<DeviceCaps>,
    pub next_handle: u64,
}

impl Allocator {
    pub open spec fn wf(self) -> bool {
        match self.device {
            Some(d) => d.wf(),
            None => true,
        }
    }

    /// Whether an allocation with these parameters succeeds: a capable
    /// device is present, it offers the format, the extent is within its
    /// range, and handle numbers are not exhausted.
    pub open spec fn spec_can_allocate(self, width: u32, height: u32, format: PixelFormat) -> bool {
        &&& self.device is Some
        &&& self.device->Some_0.formats@.contains(format)
        &&& 1 <= width <= self.device->Some_0.max_extent
        &&& 1 <= height <= self.device->Some_0.max_extent
        &&& self.next_handle < u64::MAX
    }

    /// Which error a failing allocation reports: a missing device first,
    /// then an unsupported format, then an exhausted extent or handle space.
    pub open spec fn spec_alloc_error(self, width: u32, height: u32, format: PixelFormat) -> AllocationError {
        if self.device is None {
            AllocationError::DeviceUnavailable
        } else if !self.device->Some_0.formats@.contains(format) {
            AllocationError::UnsupportedFormat
        } else {
            AllocationError::OutOfMemory
        }
    }

    /// Picks the first device that can export shareable buffers, as the
    /// device probe does, and starts the handle numbering.
    pub fn new(devices: &Vec<DeviceCaps>) -> (r: Allocator)
        requires
            forall|i: int| 0 <= i < devices@.len() ==> (#[trigger] devices@[i]).wf(),
        ensures
            r.wf(),
            match spec_first_capable(devices@) {
                Some(c) => r.device is Some && caps_eqv(r.device->Some_0, c),
                None => r.device is None,
            },
            r.next_handle == 1,
    {
        let mut i: usize = 0;
        proof {
            assert(devices@.skip(0) =~= devices@);
        }
        while i < devices.len()
            invariant
                0 <= i <= devices@.len(),
                forall|j: int| 0 <= j < devices@.len() ==> (#[trigger] devices@[j]).wf(),
                spec_first_capable(devices@) == spec_first_capable(devices@.skip(i as int)),
            decreases devices@.len() - i,
        {
            proof {
                assert(devices@.skip(i as int)[0] == devices@[i as int]);
            }
            if devices[i].has_export_extension {
                let formats = devices[i].formats.clone();
                proof {
                    assert(formats@ =~= devices@[i as int].formats@);
                }
                let d = DeviceCaps {
                    has_export_extension: true,
                    formats,
                    max_extent: devices[i].max_extent,
                };
                proof {
                    assert(caps_eqv(d, devices@[i as int]));
                    assert(spec_first_capable(devices@.skip(i as int)) == Some(
                        devices@[i as int],
                    ));
                }
                return Allocator { device: Some(d), next_handle: 1 };
            }
            proof {
                assert(devices@.skip(i as int).skip(1) =~= devices@.skip(i as int + 1));
            }
            i += 1;
        }
        Allocator { device: None, next_handle: 1 }
    }

    /// Allocates one GPU-shareable buffer: single linear plane, row stride of
    /// four bytes per pixel, rows top to bottom, one fresh shareable handle.
    /// Succeeds exactly when the device admits the request; on failure the
    /// allocator is unchanged, so the caller's buffers stay as they were.
    pub fn allocate(&mut self, width: u32, height: u32, format: PixelFormat) -> (r: Result<
        FrameBuffer,
        AllocationError,
    >)
        requires
            old(self).wf(),
        ensures
            final(self).wf(),
            final(self).device == old(self).device,
            r is Ok <==> old(self).spec_can_allocate(width, height, format),
            match r {
                Ok(b) => {
                    &&& b.wf()
                    &&& b.width == width
                    &&& b.height == height
                    &&& b.format == format
                    &&& b.planes@.len() == 1
                    &&& b.planes@[0] == (PlaneLayout {
                        index: 0,
                        offset: 0,
                        stride: (width * BYTES_PER_PIXEL) as u32,
                        modifier: format.modifier,
                    })
                    &&& !b.y_inverted
                    &&& b.handles@ == seq![old(self).next_handle]
                    &&& final(self).next_handle == old(self).next_handle + 1
                },
                Err(e) => {
                    &&& e == old(self).spec_alloc_error(width, height, format)
                    &&& *final(self) == *old(self)
                },
            },
    {
        let device = match &self.device {
            Some(d) => d,
            None => {
                return Err(AllocationError::DeviceUnavailable);
            },
        };
        if !crate::format::contains_format(&device.formats, format) {
            return Err(AllocationError::UnsupportedFormat);
        }
        if width < 1 || width > device.max_extent || height < 1 || height > device.max_extent
            || self.next_handle == u64::MAX {
            return Err(AllocationError::OutOfMemory);
        }
        let stride: u32 = width * BYTES_PER_PIXEL;
        let mut planes: Vec<PlaneLayout> = Vec::new();
        planes.push(PlaneLayout { index: 0, offset: 0, stride, modifier: format.modifier });
        let mut handles: Vec<u64> = Vec::new();
        handles.push(self.next_handle);
        self.next_handle = self.next_handle + 1;
        let b = FrameBuffer { width, height, format, planes, y_inverted: false, handles };
        proof {
            assert(b.handles@ =~= seq![old(self).next_handle]);
        }
        Ok(b)
    }
}

} // verus!

//! The surface context model: the local preview window's drawing target.
//!
//! The native window and GL context live in the unverified shell; this model
//! carries what the presentation logic reads of them — the current pixel
//! dimensions and the reported color depth — and decides which blit requests
//! are geometrically valid. The shell performs the native copy and swap for
//! exactly the requests this model admits, and treats any native failure as
//! fatal.

use vstd::prelude::*;

use crate::buffer::FrameBuffer;

verus! {

/// A pixel-aligned region of a buffer or surface.
#[derive(Clone, Copy, PartialEq, Eq, Structural, Debug)]
pub struct Rect {
    pub x: u32,
    pub y: u32,
    pub width: u32,
    pub height: u32,
}

/// How pixels are sampled when a blit scales between regions.
#[derive(Clone, Copy, PartialEq, Eq, Structural, Debug)]
pub enum BlitFilter {
    Linear,
    Nearest,
}

/// Why a present request was rejected.
#[derive(Clone, Copy, PartialEq, Eq, Structural, Debug)]
pub enum ContextError {
    /// The source region reaches outside the buffer.
    SourceOutOfBounds,
    /// The destination region reaches outside the surface.
    DestinationOutOfBounds,
}

/// Whether the region lies entirely inside an extent of the given size.
pub open spec fn spec_rect_within(r: Rect, width: u32, height: u32) -> bool {
    &&& r.x + r.width <= width
    &&& r.y + r.height <= height
}

/// The window surface as the presentation logic sees it: current pixel
/// dimensions plus whether the display reports at least 10-bit color depth.
#[derive(Clone, Copy, PartialEq, Eq, Structural, Debug)]
pub struct SurfaceContext {
    pub width: u32,
    pub height: u32,
    pub supports_ten_bit: bool,
}

impl SurfaceContext {
    /// Whether a blit of the buffer's source region onto the surface's
    /// destination region is geometrically valid.
    pub open spec fn spec_blit_ok(self, buffer: FrameBuffer, src: Rect, dst: Rect) -> bool {
        &&& spec_rect_within(src, buffer.width, buffer.height)
        &&& spec_rect_within(dst, self.width, self.height)
    }

    /// Records a surface created against a native window of the given size
    /// and reported color depth.
    pub fn create(width: u32, height: u32, supports_ten_bit: bool) -> (r: SurfaceContext)
        ensures
            r.width == width,
            r.height == height,
            r.supports_ten_bit == supports_ten_bit,
    {
        SurfaceContext { width, height, supports_ten_bit }
    }

    /// Records a window resize: the dimensions change, the color depth does
    /// not.
    pub fn resize(&mut self, width: u32, height: u32)
        ensures
            final(self).width == width,
            final(self).height == height,
            final(self).supports_ten_bit == old(self).supports_ten_bit,
    {
        self.width = width;
        self.height = height;
    }

    /// Validates a present request: copy the buffer's source region onto the
    /// surface's destination region with the given filter, then swap.
    /// Accepts exactly the requests whose regions stay in bounds; the shell
    /// performs the native copy and swap for accepted requests.
    pub fn blit_and_swap(&self, buffer: &FrameBuffer, src: Rect, dst: Rect, _filter: BlitFilter) -> (r:
        Result<(), ContextError>)
        ensures
            r is Ok <==> self.spec_blit_ok(*buffer, src, dst),
            match r {
                Ok(u) => true,
                Err(e) => e == if !spec_rect_within(src, buffer.width, buffer.height) {
                    ContextError::SourceOutOfBounds
                } else {
                    ContextError::DestinationOutOfBounds
                },
            },
    {
        if !(src.x <= buffer.width && buffer.width - src.x >= src.width && src.y <= buffer.height
            && buffer.height - src.y >= src.height) {
            return Err(ContextError::SourceOutOfBounds);
        }
        if !(dst.x <= self.width && self.width - dst.x >= dst.width && dst.y <= self.height
            && self.height - dst.y >= dst.height) {
            return Err(ContextError::DestinationOutOfBounds);
        }
        Ok(())
    }
}

/// The region covering a whole extent.
pub open spec fn spec_full_rect(width: u32, height: u32) -> Rect {
    Rect { x: 0, y: 0, width, height }
}

/// Returns the region covering a whole extent, as the presentation loop
/// blits full frames.
pub fn full_rect(width: u32, height: u32) -> (r: Rect)
    ensures
        r == spec_full_rect(width, height),
{
    Rect { x: 0, y: 0, width, height }
}

/// Allocate-then-present round trip: a buffer the allocator admits for given
/// dimensions can immediately be presented full-frame onto a surface of the
/// same dimensions — allocation success implies the follow-up blit succeeds.
pub proof fn lemma_allocate_then_present(
    alloc: crate::buffer::Allocator,
    width: u32,
    height: u32,
    format: crate::format::PixelFormat,
    buffer: FrameBuffer,
    surface: SurfaceContext,
)
    requires
        alloc.spec_can_allocate(width, height, format),
        buffer.width == width,
        buffer.height == height,
        surface.width == width,
        surface.height == height,
    ensures
        surface.spec_blit_ok(buffer, spec_full_rect(width, height), spec_full_rect(width, height)),
{
}

} // verus!

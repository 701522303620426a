//! Pixel formats and format negotiation.
//!
//! A pixel format is a FOURCC-style four-byte packed code together with a
//! 64-bit memory-layout modifier, exactly as it crosses the process boundary
//! in a frame descriptor. Negotiation picks the first format of the desired
//! priority list that the other side declares available; it is deterministic
//! and side-effect free, so a renegotiation after a consumer restart lands on
//! the same format.

use vstd::prelude::*;

verus! {

/// Byte value of the memory-layout modifier for plain linear row-major layout.
pub const LINEAR_MODIFIER: u64 = 0;

/// FOURCC code for 8-bit-per-channel RGBA, packed from the bytes `A B 2 4`.
pub const FOURCC_ABGR8888: u32 = 0x34324241;

/// FOURCC code for 10-bit-per-channel RGB with 2-bit alpha, packed from `A B 3 0`.
pub const FOURCC_ABGR2101010: u32 = 0x30334241;

/// A pixel format: FOURCC code plus memory-layout modifier. A buffer's
/// format never changes after its creation; a new format always means a new
/// buffer.
#[derive(Clone, Copy, PartialEq, Eq, Structural, Debug)]
pub struct PixelFormat {
    pub code: u32,
    pub modifier: u64,
}

/// Negotiation failed: the desired list and the available set share no format.
#[derive(Clone, Copy, PartialEq, Eq, Structural, Debug)]
pub enum NegotiationError {
    NoCommonFormat,
}

/// What packing four bytes into a FOURCC code means: least significant byte
/// first.
pub open spec fn spec_fourcc(a: u8, b: u8, c: u8, d: u8) -> u32 {
    (a as u32) | ((b as u32) << 8) | ((c as u32) << 16) | ((d as u32) << 24)
}

/// Packs four bytes into a FOURCC code, least significant byte first.
pub fn fourcc(a: u8, b: u8, c: u8, d: u8) -> (r: u32)
    ensures
        r == spec_fourcc(a, b, c, d),
{
    (a as u32) | ((b as u32) << 8) | ((c as u32) << 16) | ((d as u32) << 24)
}

/// The 8-bit RGBA format with linear layout.
pub open spec fn spec_abgr8888() -> PixelFormat {
    PixelFormat { code: FOURCC_ABGR8888, modifier: LINEAR_MODIFIER }
}

/// The 10-bit color format with linear layout.
pub open spec fn spec_abgr2101010() -> PixelFormat {
    PixelFormat { code: FOURCC_ABGR2101010, modifier: LINEAR_MODIFIER }
}

/// Returns the 8-bit RGBA format with linear layout.
pub fn abgr8888() -> (r: PixelFormat)
    ensures
        r == spec_abgr8888(),
{
    PixelFormat { code: FOURCC_ABGR8888, modifier: LINEAR_MODIFIER }
}

/// Returns the 10-bit color format with linear layout.
pub fn abgr2101010() -> (r: PixelFormat)
    ensures
        r == spec_abgr2101010(),
{
    PixelFormat { code: FOURCC_ABGR2101010, modifier: LINEAR_MODIFIER }
}

/// The format priority list for a display of the given color depth: the
/// deeper format is tried first when the display reports at least 10-bit
/// color, otherwise the 8-bit format comes first.
pub open spec fn spec_preferred_formats(supports_ten_bit: bool) -> Seq<PixelFormat> {
    if supports_ten_bit {
        seq![spec_abgr2101010(), spec_abgr8888()]
    } else {
        seq![spec_abgr8888(), spec_abgr2101010()]
    }
}

/// Builds the format priority list for a display of the given color depth.
pub fn preferred_formats(supports_ten_bit: bool) -> (r: Vec<PixelFormat>)
    ensures
        r@ == spec_preferred_formats(supports_ten_bit),
{
    let mut formats: Vec<PixelFormat> = Vec::new();
    if supports_ten_bit {
        formats.push(abgr2101010());
        formats.push(abgr8888());
    } else {
        formats.push(abgr8888());
        formats.push(abgr2101010());
    }
    proof {
        assert(formats@ =~= spec_preferred_formats(supports_ten_bit));
    }
    formats
}

/// Whether the list holds the given format.
pub fn contains_format(formats: &Vec<PixelFormat>, f: PixelFormat) -> (r: bool)
    ensures
        r == formats@.contains(f),
{
    let mut i: usize = 0;
    while i < formats.len()
        invariant
            0 <= i <= formats@.len(),
            forall|j: int| 0 <= j < i ==> formats@[j] != f,
        decreases formats@.len() - i,
    {
        if formats[i] == f {
            return true;
        }
        i += 1;
    }
    false
}

/// What negotiation returns: the first entry of the desired list that the
/// available list also holds, or nothing when the two share no format.
pub open spec fn spec_select(desired: Seq<PixelFormat>, available: Seq<PixelFormat>) -> Option<
    PixelFormat,
>
    decreases desired.len(),
{
    if desired.len() == 0 {
        None
    } else if available.contains(desired[0]) {
        Some(desired[0])
    } else {
        spec_select(desired.skip(1), available)
    }
}

/// Picks one mutually usable pixel format: first match against the desired
/// list in priority order, ties broken by declaration order of the desired
/// list. Fails exactly when no desired format is available.
pub fn select(desired: &Vec<PixelFormat>, available: &Vec<PixelFormat>) -> (r: Result<
    PixelFormat,
    NegotiationError,
>)
    ensures
        match r {
            Ok(f) => spec_select(desired@, available@) == Some(f),
            Err(e) => spec_select(desired@, available@) is None && e
                == NegotiationError::NoCommonFormat,
        },
{
    let mut i: usize = 0;
    proof {
        assert(desired@.skip(0) =~= desired@);
    }
    while i < desired.len()
        invariant
            0 <= i <= desired@.len(),
            spec_select(desired@, available@) == spec_select(
                desired@.skip(i as int),
                available@,
            ),
        decreases desired@.len() - i,
    {
        proof {
            assert(desired@.skip(i as int)[0] == desired@[i as int]);
        }
        if contains_format(available, desired[i]) {
            return Ok(desired[i]);
        }
        proof {
            assert(desired@.skip(i as int).skip(1) =~= desired@.skip(i as int + 1));
        }
        i += 1;
    }
    proof {
        assert(desired@.skip(i as int).len() == 0);
    }
    Err(NegotiationError::NoCommonFormat)
}

/// Negotiation is deterministic: the outcome is a function of the desired
/// list and the available set alone, so two negotiations over the same
/// inputs agree.
pub proof fn lemma_select_deterministic(
    desired: Seq<PixelFormat>,
    available: Seq<PixelFormat>,
    r1: Option<PixelFormat>,
    r2: Option<PixelFormat>,
)
    requires
        r1 == spec_select(desired, available),
        r2 == spec_select(desired, available),
    ensures
        r1 == r2,
{
}

/// Negotiation is first-match: a selected format is a desired format that is
/// available, and no earlier desired format is available; failure means no
/// desired format is available at all.
pub proof fn lemma_select_first_match(desired: Seq<PixelFormat>, available: Seq<PixelFormat>)
    ensures
        match spec_select(desired, available) {
            Some(f) => exists|i: int|
                0 <= i < desired.len() && desired[i] == f && available.contains(f) && (forall|
                    j: int,
                |
                    0 <= j < i ==> !available.contains(desired[j])),
            None => forall|i: int| 0 <= i < desired.len() ==> !available.contains(desired[i]),
        },
    decreases desired.len(),
{
    if desired.len() == 0 {
    } else if available.contains(desired[0]) {
        let i: int = 0;
        assert(0 <= i < desired.len() && desired[i] == desired[0] && available.contains(
            desired[0],
        ) && (forall|j: int| 0 <= j < i ==> !available.contains(desired[j])));
    } else {
        lemma_select_first_match(desired.skip(1), available);
        let rest = desired.skip(1);
        match spec_select(rest, available) {
            Some(f) => {
                let i = choose|i: int|
                    0 <= i < rest.len() && rest[i] == f && available.contains(f) && (forall|j: int|
                        0 <= j < i ==> !available.contains(rest[j]));
                assert(desired[i + 1] == rest[i]);
                assert(forall|j: int| 0 <= j < i + 1 ==> !available.contains(desired[j])) by {
                    assert(forall|j: int| 1 <= j < i + 1 ==> desired[j] == rest[j - 1]);
                }
                assert(0 <= i + 1 < desired.len() && desired[i + 1] == f && available.contains(f)
                    && (forall|j: int| 0 <= j < i + 1 ==> !available.contains(desired[j])));
            },
            None => {
                assert(forall|i: int| 1 <= i < desired.len() ==> desired[i] == rest[i - 1]);
            },
        }
    }
}

} // verus!

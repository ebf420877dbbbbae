//! DRM pixel format codes.

use vstd::prelude::*;

verus! {

/// DRM_FORMAT_XRGB8888.
pub const DRM_FORMAT_XRGB8888: u32 = 0x3432_5258;

/// DRM_FORMAT_ARGB8888.
pub const DRM_FORMAT_ARGB8888: u32 = 0x3432_5241;

/// DRM_FORMAT_XBGR8888.
pub const DRM_FORMAT_XBGR8888: u32 = 0x3432_4258;

/// DRM_FORMAT_ABGR8888.
pub const DRM_FORMAT_ABGR8888: u32 = 0x3432_4241;

/// DRM_FORMAT_RGB565.
pub const DRM_FORMAT_RGB565: u32 = 0x3631_4752;

/// DRM_FORMAT_NV12.
pub const DRM_FORMAT_NV12: u32 = 0x3231_564e;

/// The code of the `drm_fourcc::DrmFourcc` that `DrmFourcc::try_from` finds for
/// `code`, or `None` if it recognizes no such format.
pub uninterp spec fn drm_fourcc_code(code: u32) -> Option<u32>;

/// Calls `drm_fourcc::DrmFourcc::try_from(code)` and gives the code of what it
/// found. Trusted: the answer depends on `code` alone, a recognized format has
/// the code it was found by, and the formats of this module are recognized.
/// Which other codes are recognized is left to the crate's list.
#[verifier::external_body]
pub(crate) fn recognize(code: u32) -> (found: Option<u32>)
    ensures
        found == drm_fourcc_code(code),
        found is Some ==> found == Some(code),
        code == DRM_FORMAT_XRGB8888 || code == DRM_FORMAT_ARGB8888 || code == DRM_FORMAT_XBGR8888
            || code == DRM_FORMAT_ABGR8888 || code == DRM_FORMAT_RGB565 || code == DRM_FORMAT_NV12
            ==> found is Some,
{
    match drm_fourcc::DrmFourcc::try_from(code) {
        Ok(format) => Some(format as u32),
        Err(_) => None,
    }
}

/// The formats have the codes that their four characters spell, least significant
/// first: XR24, AR24, XB24, AB24, RG16 and NV12.
pub proof fn law_codes_spell_their_names()
    ensures
        DRM_FORMAT_XRGB8888 == spelled('X', 'R', '2', '4'),
        DRM_FORMAT_ARGB8888 == spelled('A', 'R', '2', '4'),
        DRM_FORMAT_XBGR8888 == spelled('X', 'B', '2', '4'),
        DRM_FORMAT_ABGR8888 == spelled('A', 'B', '2', '4'),
        DRM_FORMAT_RGB565 == spelled('R', 'G', '1', '6'),
        DRM_FORMAT_NV12 == spelled('N', 'V', '1', '2'),
{
}

/// The code that four characters spell.
pub open spec fn spelled(a: char, b: char, c: char, d: char) -> int {
    a as int + 0x100 * (b as int) + 0x1_0000 * (c as int) + 0x100_0000 * (d as int)
}

} // verus!

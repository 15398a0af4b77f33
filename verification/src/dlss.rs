//! DLSS settings: quality presets, feature flags and the context a DLSS
//! feature would be created with. No vendor SDK backs it: creating a
//! context always fails with `Unavailable`.

use vstd::prelude::*;
use vstd::std_specs::ops::BitOrSpecImpl;

verus! {

/// DLSS quality presets.
#[derive(Clone, Copy, Debug, PartialEq, Eq, Hash, Structural)]
pub enum DlssPerfQualityMode {
    Auto,
    Dlaa,
    Quality,
    Balanced,
    Performance,
    UltraPerformance,
}

impl Default for DlssPerfQualityMode {
    fn default() -> (m: DlssPerfQualityMode)
        ensures
            m == DlssPerfQualityMode::Auto,
    {
        DlssPerfQualityMode::Auto
    }
}

/// Motion vectors are given at the render resolution.
pub const DLSS_LOW_RESOLUTION_MOTION_VECTORS: u32 = 1;

/// Depth is inverted.
pub const DLSS_INVERTED_DEPTH: u32 = 2;

/// Color is HDR.
pub const DLSS_HIGH_DYNAMIC_RANGE: u32 = 4;

/// Exposure is supplied per frame.
pub const DLSS_AUTO_EXPOSURE: u32 = 8;

/// A set of DLSS feature flags.
#[derive(Clone, Copy, Debug, PartialEq, Eq, Structural)]
pub struct DlssFeatureFlags(pub u32);

impl DlssFeatureFlags {
    /// The empty set.
    pub fn none() -> (f: DlssFeatureFlags)
        ensures
            f.0 == 0,
    {
        DlssFeatureFlags(0)
    }

    /// The flags of `bits`.
    pub fn from_bits(bits: u32) -> (f: DlssFeatureFlags)
        ensures
            f.0 == bits,
    {
        DlssFeatureFlags(bits)
    }

    /// The bits of the set.
    pub fn bits(&self) -> (b: u32)
        ensures
            b == self.0,
    {
        self.0
    }
}

impl core::ops::BitOr for DlssFeatureFlags {
    type Output = DlssFeatureFlags;

    fn bitor(self, rhs: DlssFeatureFlags) -> (r: DlssFeatureFlags) {
        DlssFeatureFlags(self.0 | rhs.0)
    }
}

impl BitOrSpecImpl for DlssFeatureFlags {
    open spec fn obeys_bitor_spec() -> bool {
        true
    }

    open spec fn bitor_req(self, rhs: DlssFeatureFlags) -> bool {
        true
    }

    open spec fn bitor_spec(self, rhs: DlssFeatureFlags) -> DlssFeatureFlags {
        DlssFeatureFlags(self.0 | rhs.0)
    }
}

impl Default for DlssFeatureFlags {
    fn default() -> (f: DlssFeatureFlags)
        ensures
            f.0 == 0,
    {
        DlssFeatureFlags(0)
    }
}

/// Why a DLSS context cannot be created.
#[derive(Clone, Copy, Debug, PartialEq, Eq, Structural)]
pub enum DlssError {
    /// The vendor SDK is not available.
    Unavailable,
}

/// A resolution in pixels.
#[derive(Clone, Copy, Debug, PartialEq, Eq, Structural)]
pub struct Resolution {
    pub width: u32,
    pub height: u32,
}

/// The configuration a DLSS context is created with: the upscaled (output)
/// and render (input) resolutions and the quality preset.
#[derive(Clone, Copy, Debug, PartialEq, Eq, Structural)]
pub struct DlssContextPlaceholder {
    pub upscaled_resolution: Resolution,
    pub render_resolution: Resolution,
    pub perf_quality_mode: DlssPerfQualityMode,
}

impl DlssContextPlaceholder {
    /// The upscaled (output) resolution.
    pub fn upscaled_resolution(&self) -> (r: Resolution)
        ensures
            r == self.upscaled_resolution,
    {
        self.upscaled_resolution
    }

    /// The render (input) resolution.
    pub fn render_resolution(&self) -> (r: Resolution)
        ensures
            r == self.render_resolution,
    {
        self.render_resolution
    }
}

/// Creates a DLSS context: without a vendor SDK this always fails.
pub fn new_context(upscaled_resolution: Resolution, perf_quality_mode: DlssPerfQualityMode, feature_flags: DlssFeatureFlags) -> (r: Result<DlssContextPlaceholder, DlssError>)
    ensures
        r == Err::<DlssContextPlaceholder, DlssError>(DlssError::Unavailable),
{
    Err(DlssError::Unavailable)
}

} // verus!

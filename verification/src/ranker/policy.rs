//! Negotiation policy type and named presets.

use vstd::prelude::*;

verus! {

/// Controls how the ranker orders validated configurations.
#[derive(Debug, Clone, Copy, PartialEq, Eq, Structural)]
pub struct NegotiationPolicy {
    /// Prefer native resolution over non-native resolutions.
    pub prefer_native_resolution: bool,
    /// Prefer higher color fidelity (bit depth, color encoding) over higher refresh rate.
    pub prefer_color_fidelity: bool,
    /// Prefer higher refresh rate over other factors after color fidelity.
    pub prefer_high_refresh: bool,
    /// Penalize configurations that require DSC.
    pub penalize_dsc: bool,
}

impl NegotiationPolicy {
    /// Maximum quality: native resolution, maximum color fidelity, then refresh rate;
    /// DSC penalized.
    pub fn best_quality() -> (r: Self)
        ensures
            r == (NegotiationPolicy {
                prefer_native_resolution: true,
                prefer_color_fidelity: true,
                prefer_high_refresh: false,
                penalize_dsc: true,
            }),
    {
        NegotiationPolicy {
            prefer_native_resolution: true,
            prefer_color_fidelity: true,
            prefer_high_refresh: false,
            penalize_dsc: true,
        }
    }

    /// Maximum performance: native resolution, maximum refresh rate, then color fidelity;
    /// DSC not penalized.
    pub fn best_performance() -> (r: Self)
        ensures
            r == (NegotiationPolicy {
                prefer_native_resolution: true,
                prefer_color_fidelity: false,
                prefer_high_refresh: true,
                penalize_dsc: false,
            }),
    {
        NegotiationPolicy {
            prefer_native_resolution: true,
            prefer_color_fidelity: false,
            prefer_high_refresh: true,
            penalize_dsc: false,
        }
    }

    /// Power saving: lower refresh rates and simpler configurations rank higher, within
    /// the native resolution; DSC penalized.
    pub fn power_saving() -> (r: Self)
        ensures
            r == (NegotiationPolicy {
                prefer_native_resolution: true,
                prefer_color_fidelity: false,
                prefer_high_refresh: false,
                penalize_dsc: true,
            }),
    {
        NegotiationPolicy {
            prefer_native_resolution: true,
            prefer_color_fidelity: false,
            prefer_high_refresh: false,
            penalize_dsc: true,
        }
    }
}

impl Default for NegotiationPolicy {
    /// The best-quality preset.
    fn default() -> (r: Self)
        ensures
            r == (NegotiationPolicy {
                prefer_native_resolution: true,
                prefer_color_fidelity: true,
                prefer_high_refresh: false,
                penalize_dsc: true,
            }),
    {
        NegotiationPolicy::best_quality()
    }
}

} // verus!

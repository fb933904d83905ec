//! Cable capability input types.

use vstd::prelude::*;

use crate::display::HdmiForumFrl;

verus! {

/// HDMI specification version declared by the cable.
#[derive(Debug, Clone, Copy, PartialEq, Eq, Structural)]
pub enum HdmiSpec {
    /// HDMI 1.4 cable.
    Hdmi14,
    /// HDMI 2.0 cable.
    Hdmi20,
    /// HDMI 2.1 (48G) cable.
    Hdmi21,
}

/// Capabilities of the HDMI cable.
///
/// The caller fills this struct. Populating it from the cable type marker or a
/// user-supplied override is the concern of the integration layer.
#[derive(Debug, Clone, Copy, PartialEq, Eq, Structural)]
pub struct CableCapabilities {
    /// HDMI specification version declared by the cable.
    pub hdmi_spec: HdmiSpec,
    /// Maximum FRL rate the cable can carry; `NotSupported` is a TMDS-only cable.
    pub max_frl_rate: HdmiForumFrl,
    /// Maximum TMDS clock the cable can carry, in kHz; `0` declares no ceiling.
    pub max_tmds_clock: u32,
}

impl CableCapabilities {
    /// A cable with no constraints: source and sink limits alone decide.
    ///
    /// For callers that have no cable information. It bypasses every cable-related
    /// violation and should be replaced once cable detection is available.
    pub fn unconstrained() -> (r: Self)
        ensures
            r == (CableCapabilities {
                hdmi_spec: HdmiSpec::Hdmi21,
                max_frl_rate: HdmiForumFrl::Rate12Gbps4Lanes,
                max_tmds_clock: u32::MAX,
            }),
    {
        CableCapabilities {
            hdmi_spec: HdmiSpec::Hdmi21,
            max_frl_rate: HdmiForumFrl::Rate12Gbps4Lanes,
            max_tmds_clock: u32::MAX,
        }
    }
}

impl Default for CableCapabilities {
    /// A cable that declares nothing: HDMI 1.4, TMDS only, no TMDS clock ceiling.
    fn default() -> (r: Self)
        ensures
            r == (CableCapabilities {
                hdmi_spec: HdmiSpec::Hdmi14,
                max_frl_rate: HdmiForumFrl::NotSupported,
                max_tmds_clock: 0,
            }),
    {
        CableCapabilities {
            hdmi_spec: HdmiSpec::Hdmi14,
            max_frl_rate: HdmiForumFrl::NotSupported,
            max_tmds_clock: 0,
        }
    }
}

} // verus!

//! Plain-value models of the display capability types that the negotiation logic reads.

pub mod color;
pub mod edid;
pub mod hdmi;
pub mod video;

pub use color::{ColorBitDepth, ColorBitDepths, ColorCapabilities, ColorFormat, DigitalColorEncoding};
pub use hdmi::{
    ColorimetryBlock, ColorimetryFlags, HdmiDscMaxSlices, HdmiForumDsc, HdmiForumFrl,
    HdmiForumSinkCap, HdmiVsdb, HdmiVsdbFlags, HdrStaticMetadata,
};
pub use edid::{Cea861Capabilities, DisplayCapabilities};
pub use video::{TimingSource, StereoFormat, SyncType, VideoMode};
pub(crate) use video::pixel_clock_khz;

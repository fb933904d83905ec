//! Caller-supplied capability input types.

pub mod cable;
pub mod candidate;
pub mod sink;
pub mod source;

pub use cable::{CableCapabilities, HdmiSpec};
pub use candidate::CandidateConfig;
pub use sink::{sink_capabilities_from_display, SinkBuildWarning, SinkCapabilities, SupportedModes};
pub use source::{DscCapabilities, QuirkFlags, SourceCapabilities};

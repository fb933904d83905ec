//! HDMI 2.1 mode negotiation: the policy layer of the display connection stack.
//!
//! Given sink, source and cable capabilities, produce a ranked list of viable
//! configurations: which modes can be driven on this display, in what priority
//! order, with what color format and bit depth.

pub mod display;
pub mod error;
pub mod types;
pub mod output;
pub mod engine;
pub mod probe;
pub mod enumerator;
pub mod ranker;
pub mod builder;
pub mod laws;

pub use builder::NegotiatorBuilder;
pub use engine::MAX_WARNINGS;
pub use error::Error;
pub use output::config::NegotiatedConfig;
pub use output::trace::ReasoningTrace;
pub use output::warning::{Violation, Warning};
pub use output::rejection::RejectedConfig;
pub use probe::is_config_viable;
pub use types::{sink_capabilities_from_display, SinkBuildWarning, SupportedModes};
pub use types::{CableCapabilities, CandidateConfig, SinkCapabilities, SourceCapabilities};

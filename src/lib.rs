//! Wake-word listener core: a per-frame recording state machine, a
//! time-windowed retention buffer of recent audio, and the lifecycle events
//! and audio samples that it hands to downstream consumers.

pub mod configuration;
pub mod handoff;
pub mod messages;
pub mod listener;
pub mod respeaker;
pub mod wakeword_validation;
pub mod wav;
pub mod retention_laws;
pub mod session_laws;

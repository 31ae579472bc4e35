//! Session engine of a bidirectional-streaming voice-assistant client: the
//! outbound request sequence, the demultiplexing of responses, and the state
//! that one call hands on to the next.
pub mod message;
pub mod sequencer;
pub mod demux;
pub mod session;
pub mod orchestrator;

//! A bridge from a tab-separated serial sensor stream to a two-voice MIDI output.
//!
//! The library holds the decisions of the bridge: how a line becomes a record,
//! how a record field becomes a control value, what the two workers do on each
//! event, and how start and stop requests are arbitrated.
pub mod fields;
pub mod lifecycle;
pub mod line_source;
pub mod ports;
pub mod sound;
pub mod translate;

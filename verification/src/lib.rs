//! Host-side driver core for a hardware synthesizer that is reachable only
//! through MIDI System-Exclusive messages.
//!
//! The crate covers the protocol and session logic of the editor: the
//! parameter registry with its value tables, the SysEx framing and bit-packing
//! codec, the parameter-identity mapping tables (wire offsets and
//! Control-Change numbers), port-name matching, and the request/response
//! state machine with its timeout handling.  Everything that talks to the
//! operating system - MIDI transport, clocks, files, widgets - stays outside
//! and interacts with this core through plain values.

pub mod cc;
pub mod lists;
pub mod panels;
pub mod params;
pub mod ports;
pub mod session;
pub mod sysex;

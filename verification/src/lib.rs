//! Protocol logic of the Alluno Virtual Display Driver (AllunoVDD) bindings.
//!
//! The driver is driven through buffered device I/O control requests whose
//! payloads are packed little-endian structures.  This crate holds everything
//! that can be computed without talking to the operating system: the request
//! encoders, the response decoders, and the planning steps behind display
//! layout changes and window moves.  Each of them is verified against a
//! mathematical description of the wire format or of the layout rule.

pub mod wire;
pub mod protocol;
pub mod guid;
pub mod types;
pub mod text;
pub mod requests;
pub mod responses;
pub mod display_config;
pub mod window_move;
pub mod system;
pub mod commands;

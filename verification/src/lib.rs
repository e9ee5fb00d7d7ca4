//! Core of a minimal full-screen terminal line viewer.
//!
//! The library holds the verified logic of the editor: the frame
//! accumulator that assembles one repaint per cycle, the decoder that
//! turns raw input bytes into logical key events, the derivation of raw
//! terminal attributes, the parser for the cursor-report reply used as a
//! geometry fallback, and the engine that owns the cursor and renders
//! frames.  The thin shell that talks to the actual terminal descriptors
//! lives outside and exchanges plain values with this crate.

pub mod append_buffer;
pub mod editor;
pub mod errors;
pub mod input;
pub mod terminal;

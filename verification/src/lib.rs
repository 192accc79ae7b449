//! Verified control logic of OpenEQ, a three-band stereo equalizer.
//!
//! The library holds the decisions that the equalizer makes around its filter math: which bands
//! are redesigned when the settings of a frame arrive, which host-automation gestures a rotary
//! control issues for an interaction, and which filter chain processes each channel of a frame.

pub mod band_updates;
pub mod knob_gesture;
pub mod channel_routing;

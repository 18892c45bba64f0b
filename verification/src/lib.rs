//! A verified core for a small real-time 3D engine: the deferred rendering
//! pipeline's bookkeeping (frame targets, shadow resources, pass ordering)
//! and the real-time audio mixer (spatial gains, gain interpolation, clip
//! and tone playback).
//!
//! Real-valued quantities are carried in integer fixed point (see [`fx`]),
//! so that every rule of the engine can be stated and proved exactly.
//! The GPU, the audio device and all floating-point conversion live with
//! the embedding application, which executes the plans this crate builds.

pub mod audio;
pub mod engine;
pub mod frame;
pub mod fx;
pub mod mixer;
pub mod render;
pub mod scene;
pub mod wav;

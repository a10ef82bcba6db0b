//! Verified core of the CTD engine: the batched binary protocol between
//! the host application and the engine (framing, command decoding, render
//! frames, responses), render commands from the C interface, the audio
//! playback and capture state machines, the event dispatcher, the object
//! registries behind the C interface, file dialog requests and results,
//! the tray menu model, input
//! translation, and the per-frame decisions of the window loop.
#![allow(unused_imports)]

use vstd::prelude::*;

pub mod audio;
pub mod wire;
pub mod batch;
pub mod batch_run;
pub mod render;
pub mod command;
pub mod event;
pub mod tray;
pub mod app_event;
pub mod frame;
pub mod ffi_render;
pub mod registry;
pub mod dialog;

verus! {
} // verus!

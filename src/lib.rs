//! Turn-taking and streaming-audio core of a full-duplex voice client.
//!
//! The modules hold the logic that decides what happens to audio and to
//! protocol events; the caller owns the devices, the connection and the clock.

use vstd::prelude::*;

pub mod level;
pub mod pcm;
pub mod playback;
pub mod gate;
pub mod text;
pub mod wire;
pub mod protocol;
pub mod conversation;

verus! {

} // verus!

//! Control logic of a real-time shader demo whose image feeds back into itself.
//!
//! A window shows an image that a GPU pipeline draws from its own earlier output,
//! and a few keys pause, turn round or end the playback. This crate holds what
//! decides, and nothing that touches a window or a device:
//!
//! - [`commandbuffer`]: the first-in first-out queue between input and tick;
//! - [`playback`]: the state machine that the commands drive;
//! - [`tickloop`]: the fixed-step loop that drains the queue and keeps simulation
//!   time;
//! - [`targets`], [`frame`], [`uniforms`], [`graphics`]: the feedback image
//!   buffers and the two passes of every frame;
//! - [`surface`]: the faults of the presentable surface and the choice of its
//!   format;
//! - [`event`], [`session`]: the events of the window system and the answer to
//!   each of them.
//!
//! Every function states what it returns and what it changes, over a mathematical
//! view of its data, and is proved to meet that statement. The laws that tie
//! several functions together stand beside them as proof functions.

pub mod commandbuffer;
pub mod event;
pub mod frame;
pub mod graphics;
pub mod playback;
pub mod session;
pub mod surface;
pub mod targets;
pub mod tickloop;
pub mod uniforms;

//! State core of a shared pixel canvas: a chunked grid of pixels, a
//! per-caller cooldown table and an administrator-controlled configuration,
//! with every operation specified and verified.

pub mod state;
pub mod error;
pub mod grid;
pub mod cooldown;
pub mod msg;
pub mod canvas;
pub mod contract;

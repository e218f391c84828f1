//! Requests to the canvas and the answers to queries.

use vstd::prelude::*;
use crate::state::{Config, Dimensions, PixelInfo};

verus! {

/// Settings of a new canvas.
#[derive(Clone, Debug, PartialEq, Eq)]
pub struct InstantiateMsg {
    pub admin_address: String,
    pub cooldown: u64,
    pub end_height: Option<u64>,
    /// How many chunks wide
    pub width: u64,
    /// How many chunks high
    pub height: u64,
}

/// Operations that change the canvas.
#[derive(Clone, Debug, PartialEq, Eq)]
pub enum ExecuteMsg {
    /// Paint one pixel; `color` is a palette code.
    Draw { chunk_x: u64, chunk_y: u64, x: u64, y: u64, color: u8 },
    UpdateAdmin { new_admin_address: String },
    UpdateCooldown { new_cooldown: u64 },
    UpdateEndHeight { new_end_height: Option<u64> },
}

/// Read-only questions about the canvas.
#[derive(Clone, Debug, PartialEq, Eq)]
pub enum QueryMsg {
    GetChunk { x: u64, y: u64 },
    GetConfig {},
    GetDimensions {},
    GetCooldown { address: String },
}

/// The cells of one chunk, indexed first by `x` and then by `y`.
#[derive(Clone, Debug, PartialEq, Eq)]
pub struct ChunkResponse {
    pub grid: Vec<Vec<PixelInfo>>,
}

/// The height from which a caller may draw.
#[derive(Clone, Copy, Debug, PartialEq, Eq, Structural)]
pub struct CooldownResponse {
    pub current_cooldown: u64,
}

/// The answer to a `QueryMsg`, one variant for each question.
#[derive(Clone, Debug, PartialEq, Eq)]
pub enum QueryResponse {
    Chunk(ChunkResponse),
    Config(Config),
    Dimensions(Dimensions),
    Cooldown(CooldownResponse),
}

} // verus!

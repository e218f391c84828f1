//! The canvas as a whole: its state, the abstract model of that state, and
//! what each operation does to the model.

use vstd::prelude::*;
use crate::cooldown::{cooldown_of, CooldownTable};
use crate::error::ContractError;
use crate::grid::{chunk_of, chunks_wf, default_grid, is_chunk, painted, ChunkStore};
use crate::msg::{ExecuteMsg, InstantiateMsg};
use crate::state::{color_of_code, Color, Config, Dimensions, PixelInfo, CHUNK_SIZE};

verus! {

/// The abstract state of a canvas.
pub struct CanvasModel {
    pub config: Config,
    pub dimensions: Dimensions,
    /// Height from which each caller who has drawn may draw again.
    pub cooldowns: Map<Seq<char>, u64>,
    /// The chunks drawn on so far.
    pub chunks: Map<(u64, u64), Seq<Seq<PixelInfo>>>,
}

/// The four stores of a canvas. Each operation either fails and leaves
/// them as they were, or succeeds and applies all of its changes.
pub struct Canvas {
    pub config: Config,
    pub dimensions: Dimensions,
    pub cooldowns: CooldownTable,
    pub chunks: ChunkStore,
}

impl View for Canvas {
    type V = CanvasModel;

    open spec fn view(&self) -> CanvasModel {
        CanvasModel {
            config: self.config,
            dimensions: self.dimensions,
            cooldowns: self.cooldowns@,
            chunks: self.chunks@,
        }
    }
}

/// The canvas right after creation: nobody has drawn yet.
pub open spec fn initial_model(msg: InstantiateMsg) -> CanvasModel {
    CanvasModel {
        config: Config {
            admin_address: msg.admin_address,
            cooldown: msg.cooldown,
            end_height: msg.end_height,
        },
        dimensions: Dimensions { width: msg.width, height: msg.height },
        cooldowns: Map::empty(),
        chunks: Map::empty(),
    }
}

/// Whether creating a canvas at `height` with these settings fails, and how.
pub open spec fn instantiate_error(height: u64, msg: InstantiateMsg) -> Option<ContractError> {
    match msg.end_height {
        Some(e) if e <= height => Some(ContractError::InvalidEndHeight),
        _ => None,
    }
}

/// Pixel (`x`, `y`) of chunk (`chunk_x`, `chunk_y`) lies on the canvas.
pub open spec fn in_bounds(dims: Dimensions, chunk_x: u64, chunk_y: u64, x: u64, y: u64) -> bool {
    &&& x < CHUNK_SIZE
    &&& y < CHUNK_SIZE
    &&& chunk_x < dims.width
    &&& chunk_y < dims.height
}

/// Drawing is closed at `height`.
pub open spec fn past_end(config: Config, height: u64) -> bool {
    match config.end_height {
        Some(e) => height > e,
        None => false,
    }
}

/// Why a draw fails, checked in this order: coordinates, cooldown, end
/// height, color. `ready_at` is the height from which the caller may draw.
pub open spec fn draw_error(
    config: Config,
    dims: Dimensions,
    ready_at: u64,
    height: u64,
    chunk_x: u64,
    chunk_y: u64,
    x: u64,
    y: u64,
    color: u8,
) -> Option<ContractError> {
    if !in_bounds(dims, chunk_x, chunk_y, x, y) {
        Some(ContractError::InvalidCoordinates)
    } else if height < ready_at {
        Some(ContractError::StillOnCooldown)
    } else if past_end(config, height) {
        Some(ContractError::EndHeightReached)
    } else if color_of_code(color) is None {
        Some(ContractError::InvalidColor)
    } else {
        None
    }
}

/// The cell that a draw of `color` by `sender` leaves.
pub open spec fn drawn_pixel(color: u8, sender: String) -> PixelInfo {
    PixelInfo { color: color_of_code(color).unwrap(), painter: Some(sender) }
}

/// The eligibility height of a successful draw fits in a `u64`. Only a
/// draw that passes every check computes it.
pub open spec fn draw_fits(
    m: CanvasModel,
    height: u64,
    sender: String,
    chunk_x: u64,
    chunk_y: u64,
    x: u64,
    y: u64,
    color: u8,
) -> bool {
    draw_error(m.config, m.dimensions, cooldown_of(m.cooldowns, sender@), height, chunk_x, chunk_y, x, y, color) is None
        ==> height + m.config.cooldown <= u64::MAX
}

/// The result of a draw by `sender` at `height`, and the canvas after it.
/// A successful draw paints the one cell and makes the caller wait
/// `cooldown` heights from now.
pub open spec fn draw_step(
    m: CanvasModel,
    height: u64,
    sender: String,
    chunk_x: u64,
    chunk_y: u64,
    x: u64,
    y: u64,
    color: u8,
) -> (Result<(), ContractError>, CanvasModel) {
    match draw_error(m.config, m.dimensions, cooldown_of(m.cooldowns, sender@), height, chunk_x, chunk_y, x, y, color) {
        Some(e) => (Err(e), m),
        None => (
            Ok(()),
            CanvasModel {
                config: m.config,
                dimensions: m.dimensions,
                cooldowns: m.cooldowns.insert(sender@, (height + m.config.cooldown) as u64),
                chunks: m.chunks.insert(
                    (chunk_x, chunk_y),
                    painted(chunk_of(m.chunks, chunk_x, chunk_y), x as int, y as int, drawn_pixel(color, sender)),
                ),
            },
        ),
    }
}

/// `sender` is the administrator of `config`.
pub open spec fn is_admin(config: Config, sender: String) -> bool {
    sender@ == config.admin_address@
}

/// The result of handing the administrator's role to `new_admin`, and the
/// configuration after it.
pub open spec fn update_admin_step(c: Config, sender: String, new_admin: String) -> (Result<(), ContractError>, Config) {
    if !is_admin(c, sender) {
        (Err(ContractError::Unauthorized), c)
    } else {
        (Ok(()), Config { admin_address: new_admin, cooldown: c.cooldown, end_height: c.end_height })
    }
}

/// The result of setting the cooldown to `new_cooldown`, and the
/// configuration after it.
pub open spec fn update_cooldown_step(c: Config, sender: String, new_cooldown: u64) -> (Result<(), ContractError>, Config) {
    if !is_admin(c, sender) {
        (Err(ContractError::Unauthorized), c)
    } else {
        (Ok(()), Config { admin_address: c.admin_address, cooldown: new_cooldown, end_height: c.end_height })
    }
}

/// The result of setting the end height to `new_end` at `height`, and the
/// configuration after it. A new end height must lie after `height`.
pub open spec fn update_end_height_step(c: Config, height: u64, sender: String, new_end: Option<u64>) -> (Result<(), ContractError>, Config) {
    if !is_admin(c, sender) {
        (Err(ContractError::Unauthorized), c)
    } else if new_end matches Some(e) && e <= height {
        (Err(ContractError::InvalidEndHeight), c)
    } else {
        (Ok(()), Config { admin_address: c.admin_address, cooldown: c.cooldown, end_height: new_end })
    }
}

/// `m` with its configuration replaced by `config`.
pub open spec fn with_config(m: CanvasModel, config: Config) -> CanvasModel {
    CanvasModel { config, dimensions: m.dimensions, cooldowns: m.cooldowns, chunks: m.chunks }
}

/// The result of an administrative step, lifted to the whole canvas.
pub open spec fn lift(m: CanvasModel, step: (Result<(), ContractError>, Config)) -> (Result<(), ContractError>, CanvasModel) {
    (step.0, with_config(m, step.1))
}

/// The operation `msg` may be handed to the canvas: for a draw, its
/// eligibility height fits in a `u64`.
pub open spec fn execute_fits(m: CanvasModel, height: u64, sender: String, msg: ExecuteMsg) -> bool {
    match msg {
        ExecuteMsg::Draw { chunk_x, chunk_y, x, y, color } => draw_fits(m, height, sender, chunk_x, chunk_y, x, y, color),
        _ => true,
    }
}

/// The result of operation `msg` by `sender` at `height`, and the canvas
/// after it.
pub open spec fn execute_step(m: CanvasModel, height: u64, sender: String, msg: ExecuteMsg) -> (Result<(), ContractError>, CanvasModel) {
    match msg {
        ExecuteMsg::Draw { chunk_x, chunk_y, x, y, color } => draw_step(m, height, sender, chunk_x, chunk_y, x, y, color),
        ExecuteMsg::UpdateAdmin { new_admin_address } => lift(m, update_admin_step(m.config, sender, new_admin_address)),
        ExecuteMsg::UpdateCooldown { new_cooldown } => lift(m, update_cooldown_step(m.config, sender, new_cooldown)),
        ExecuteMsg::UpdateEndHeight { new_end_height } => lift(m, update_end_height_step(m.config, height, sender, new_end_height)),
    }
}

/// A successful draw followed by a read of the same chunk shows, in the
/// drawn cell, the drawn color and the drawing caller.
pub proof fn lemma_draw_then_read(
    m: CanvasModel,
    height: u64,
    sender: String,
    chunk_x: u64,
    chunk_y: u64,
    x: u64,
    y: u64,
    color: u8,
)
    requires
        chunks_wf(m.chunks),
        draw_step(m, height, sender, chunk_x, chunk_y, x, y, color).0 is Ok,
    ensures
        ({
            let after = draw_step(m, height, sender, chunk_x, chunk_y, x, y, color).1;
            let cell = chunk_of(after.chunks, chunk_x, chunk_y)[x as int][y as int];
            &&& color_of_code(color) == Some(cell.color)
            &&& cell.painter == Some(sender)
        }),
{
    let g = chunk_of(m.chunks, chunk_x, chunk_y);
    assert(is_chunk(g));
}

/// A caller who has never drawn may draw from height 0: their eligibility
/// height is 0, no draw of theirs fails for the cooldown, and one that is
/// on the canvas, before the end height and in the palette succeeds.
pub proof fn lemma_fresh_caller(
    m: CanvasModel,
    height: u64,
    sender: String,
    chunk_x: u64,
    chunk_y: u64,
    x: u64,
    y: u64,
    color: u8,
)
    requires
        !m.cooldowns.contains_key(sender@),
    ensures
        cooldown_of(m.cooldowns, sender@) == 0,
        draw_step(m, height, sender, chunk_x, chunk_y, x, y, color).0 != Err::<(), ContractError>(
            ContractError::StillOnCooldown,
        ),
        in_bounds(m.dimensions, chunk_x, chunk_y, x, y) && !past_end(m.config, height)
            && color_of_code(color) is Some ==> draw_step(m, height, sender, chunk_x, chunk_y, x, y, color).0 is Ok,
{
}

/// After a successful draw at height `h1`, the same caller's next draw at
/// `h2`, on the canvas, fails with `StillOnCooldown` if `h2` comes before
/// `h1` plus the cooldown, and otherwise succeeds when the canvas is still
/// open and the color is in the palette.
pub proof fn lemma_cooldown_between_draws(
    m: CanvasModel,
    sender: String,
    h1: u64,
    chunk_x1: u64,
    chunk_y1: u64,
    x1: u64,
    y1: u64,
    color1: u8,
    h2: u64,
    chunk_x2: u64,
    chunk_y2: u64,
    x2: u64,
    y2: u64,
    color2: u8,
)
    requires
        draw_fits(m, h1, sender, chunk_x1, chunk_y1, x1, y1, color1),
        draw_step(m, h1, sender, chunk_x1, chunk_y1, x1, y1, color1).0 is Ok,
        in_bounds(m.dimensions, chunk_x2, chunk_y2, x2, y2),
    ensures
        ({
            let after = draw_step(m, h1, sender, chunk_x1, chunk_y1, x1, y1, color1).1;
            let second = draw_step(after, h2, sender, chunk_x2, chunk_y2, x2, y2, color2).0;
            &&& h2 < h1 + m.config.cooldown ==> second == Err::<(), ContractError>(
                ContractError::StillOnCooldown,
            )
            &&& h2 >= h1 + m.config.cooldown && !past_end(m.config, h2) && color_of_code(color2) is Some
                ==> second is Ok
        }),
{
}

/// A draw off the canvas, whether the pixel lies outside its chunk or the
/// chunk outside the canvas, fails with `InvalidCoordinates` and changes
/// nothing.
pub proof fn lemma_off_canvas(
    m: CanvasModel,
    height: u64,
    sender: String,
    chunk_x: u64,
    chunk_y: u64,
    x: u64,
    y: u64,
    color: u8,
)
    requires
        x >= CHUNK_SIZE || y >= CHUNK_SIZE || chunk_x >= m.dimensions.width || chunk_y
            >= m.dimensions.height,
    ensures
        draw_step(m, height, sender, chunk_x, chunk_y, x, y, color) == (
            Err::<(), ContractError>(ContractError::InvalidCoordinates),
            m,
        ),
{
}

/// Past the end height every draw fails and leaves the canvas, and so every
/// chunk read from it, as it was; a draw on the canvas by a caller who is
/// not on cooldown fails with `EndHeightReached`.
pub proof fn lemma_closed_canvas(
    m: CanvasModel,
    height: u64,
    sender: String,
    chunk_x: u64,
    chunk_y: u64,
    x: u64,
    y: u64,
    color: u8,
)
    requires
        m.config.end_height matches Some(e) && height > e,
    ensures
        draw_step(m, height, sender, chunk_x, chunk_y, x, y, color).0 is Err,
        draw_step(m, height, sender, chunk_x, chunk_y, x, y, color).1 == m,
        in_bounds(m.dimensions, chunk_x, chunk_y, x, y) && height >= cooldown_of(m.cooldowns, sender@)
            ==> draw_step(m, height, sender, chunk_x, chunk_y, x, y, color).0 == Err::<(), ContractError>(
            ContractError::EndHeightReached,
        ),
{
}

/// An administrative operation by anyone but the administrator fails with
/// `Unauthorized` and changes nothing.
pub proof fn lemma_admin_only(m: CanvasModel, height: u64, sender: String, msg: ExecuteMsg)
    requires
        !is_admin(m.config, sender),
        !(msg is Draw),
    ensures
        execute_step(m, height, sender, msg) == (
            Err::<(), ContractError>(ContractError::Unauthorized),
            m,
        ),
{
    assert(with_config(m, m.config) == m);
}

/// An end height that does not lie after the current height is refused,
/// with `InvalidEndHeight` when the administrator asks, and the end height
/// stays as it was.
pub proof fn lemma_end_height_must_be_later(c: Config, height: u64, sender: String, end_height: u64)
    requires
        end_height <= height,
    ensures
        update_end_height_step(c, height, sender, Some(end_height)).0 is Err,
        update_end_height_step(c, height, sender, Some(end_height)).1.end_height == c.end_height,
        is_admin(c, sender) ==> update_end_height_step(c, height, sender, Some(end_height)).0
            == Err::<(), ContractError>(ContractError::InvalidEndHeight),
{
}

/// A chunk that nothing has been drawn on reads as white cells without a
/// painter.
pub proof fn lemma_unwritten_chunk_is_blank(m: CanvasModel, chunk_x: u64, chunk_y: u64)
    requires
        !m.chunks.contains_key((chunk_x, chunk_y)),
    ensures
        chunk_of(m.chunks, chunk_x, chunk_y) == default_grid(),
        chunk_of(m.chunks, chunk_x, chunk_y).len() == CHUNK_SIZE,
        forall|i: int, j: int|
            0 <= i < CHUNK_SIZE && 0 <= j < CHUNK_SIZE ==> #[trigger] chunk_of(m.chunks, chunk_x, chunk_y)[i][j]
                == (PixelInfo { color: Color::White, painter: None }),
{
}

} // verus!

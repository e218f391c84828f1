//! The operations on a canvas: creation, drawing, administration and
//! queries.

use vstd::prelude::*;
use crate::canvas::{
    draw_error, draw_fits, draw_step, drawn_pixel, execute_fits, execute_step, initial_model,
    instantiate_error, is_admin, update_admin_step, update_cooldown_step, update_end_height_step,
    Canvas,
};
use crate::cooldown::{cooldown_of, CooldownTable};
use crate::error::ContractError;
use crate::grid::{
    chunk_of, chunks_wf, default_chunk, default_grid, grid_view, is_chunk, paint,
    painted, ChunkStore,
};
use crate::msg::{ChunkResponse, CooldownResponse, ExecuteMsg, InstantiateMsg, QueryMsg, QueryResponse};
use crate::state::{color_of_code, Color, Config, Dimensions, PixelInfo, CHUNK_SIZE};

verus! {

/// Creates a canvas at `height`. An end height, if given, must lie after
/// `height`. The administrator's identifier is taken as already validated.
pub fn instantiate(height: u64, msg: InstantiateMsg) -> (r: Result<Canvas, ContractError>)
    ensures
        match instantiate_error(height, msg) {
            Some(e) => r == Err::<Canvas, ContractError>(e),
            None => r matches Ok(c) && c@ == initial_model(msg) && chunks_wf(c@.chunks),
        },
{
    if let Some(end_height) = msg.end_height {
        if end_height <= height {
            return Err(ContractError::InvalidEndHeight);
        }
    }
    let config = Config {
        admin_address: msg.admin_address,
        cooldown: msg.cooldown,
        end_height: msg.end_height,
    };
    let dimensions = Dimensions { width: msg.width, height: msg.height };
    let chunks = ChunkStore::new();
    let canvas = Canvas { config, dimensions, cooldowns: CooldownTable::new(), chunks };
    assert(canvas@ == initial_model(msg));
    Ok(canvas)
}

/// Runs operation `msg` on behalf of `sender` at `height`.
pub fn execute(canvas: &mut Canvas, height: u64, sender: &String, msg: ExecuteMsg) -> (r: Result<(), ContractError>)
    requires
        execute_fits(old(canvas)@, height, *sender, msg),
    ensures
        (r, final(canvas)@) == execute_step(old(canvas)@, height, *sender, msg),
        chunks_wf(final(canvas)@.chunks),
{
    proof {
        use_type_invariant(&canvas.chunks);
        canvas.chunks.lemma_chunks_wf();
    }
    match msg {
        ExecuteMsg::Draw { chunk_x, chunk_y, x, y, color } => {
            execute_draw(canvas, height, sender, chunk_x, chunk_y, x, y, color)
        },
        ExecuteMsg::UpdateAdmin { new_admin_address } => {
            execute_update_admin(&mut canvas.config, sender, new_admin_address)
        },
        ExecuteMsg::UpdateCooldown { new_cooldown } => {
            execute_update_cooldown(&mut canvas.config, sender, new_cooldown)
        },
        ExecuteMsg::UpdateEndHeight { new_end_height } => {
            execute_update_end_height(&mut canvas.config, height, sender, new_end_height)
        },
    }
}

/// Checks a draw of palette code `color` at pixel (`x`, `y`) of chunk
/// (`chunk_x`, `chunk_y`), by a caller who may draw from height `ready_at`,
/// at `height`. On success, returns the color to paint.
pub fn check_draw(
    config: &Config,
    dimensions: &Dimensions,
    ready_at: u64,
    height: u64,
    chunk_x: u64,
    chunk_y: u64,
    x: u64,
    y: u64,
    color: u8,
) -> (r: Result<Color, ContractError>)
    ensures
        match draw_error(*config, *dimensions, ready_at, height, chunk_x, chunk_y, x, y, color) {
            Some(e) => r == Err::<Color, ContractError>(e),
            None => r == Ok::<Color, ContractError>(color_of_code(color).unwrap()),
        },
{
    if x >= CHUNK_SIZE || y >= CHUNK_SIZE || chunk_x >= dimensions.width || chunk_y >= dimensions.height {
        return Err(ContractError::InvalidCoordinates);
    }
    if height < ready_at {
        return Err(ContractError::StillOnCooldown);
    }
    if let Some(end_height) = config.end_height {
        if height > end_height {
            return Err(ContractError::EndHeightReached);
        }
    }
    match Color::from_code(color) {
        Some(c) => Ok(c),
        None => Err(ContractError::InvalidColor),
    }
}

/// Draws palette code `color` at pixel (`x`, `y`) of chunk (`chunk_x`,
/// `chunk_y`) on behalf of `sender` at `height`. On success the cell
/// records the color and `sender`, and `sender` may draw again from
/// `height` plus the configured cooldown, which must then fit in a `u64`.
pub fn execute_draw(
    canvas: &mut Canvas,
    height: u64,
    sender: &String,
    chunk_x: u64,
    chunk_y: u64,
    x: u64,
    y: u64,
    color: u8,
) -> (r: Result<(), ContractError>)
    requires
        draw_fits(old(canvas)@, height, *sender, chunk_x, chunk_y, x, y, color),
    ensures
        (r, final(canvas)@) == draw_step(old(canvas)@, height, *sender, chunk_x, chunk_y, x, y, color),
        chunks_wf(final(canvas)@.chunks),
{
    proof {
        use_type_invariant(&canvas.chunks);
        canvas.chunks.lemma_chunks_wf();
    }
    let ready_at = canvas.cooldowns.get(sender);
    let c = match check_draw(&canvas.config, &canvas.dimensions, ready_at, height, chunk_x, chunk_y, x, y, color) {
        Ok(c) => c,
        Err(e) => {
            return Err(e);
        },
    };
    let pixel = PixelInfo { color: c, painter: Some(sender.clone()) };
    assert(pixel == drawn_pixel(color, *sender));
    canvas.chunks.paint(chunk_x, chunk_y, x, y, pixel);
    canvas.cooldowns.set(sender, height + canvas.config.cooldown);
    Ok(())
}

/// The writes of a successful draw, not yet committed: the chunk after the
/// draw, and the height from which the caller may draw again.
pub struct StagedDraw {
    pub chunk: Vec<Vec<PixelInfo>>,
    pub next_cooldown: u64,
}

/// The stored chunk, or the default chunk where nothing was stored.
pub fn chunk_or_default(stored: Option<Vec<Vec<PixelInfo>>>) -> (r: Vec<Vec<PixelInfo>>)
    ensures
        grid_view(&r) == match stored {
            Some(g) => grid_view(&g),
            None => default_grid(),
        },
{
    match stored {
        Some(g) => g,
        None => default_chunk(),
    }
}

/// A draw against stores that are read and written one entry at a time:
/// `ready_at` is the caller's entry in the cooldown table and `stored` the
/// chunk's entry in the chunk store. Returns what to write back, and
/// changes nothing itself.
pub fn stage_draw(
    config: &Config,
    dimensions: &Dimensions,
    ready_at: u64,
    stored: Option<Vec<Vec<PixelInfo>>>,
    height: u64,
    sender: &String,
    chunk_x: u64,
    chunk_y: u64,
    x: u64,
    y: u64,
    color: u8,
) -> (r: Result<StagedDraw, ContractError>)
    requires
        stored matches Some(g) ==> is_chunk(grid_view(&g)),
        draw_error(*config, *dimensions, ready_at, height, chunk_x, chunk_y, x, y, color) is None
            ==> height + config.cooldown <= u64::MAX,
    ensures
        match draw_error(*config, *dimensions, ready_at, height, chunk_x, chunk_y, x, y, color) {
            Some(e) => r matches Err(f) && f == e,
            None => r matches Ok(s) && {
                let base = match stored {
                    Some(g) => grid_view(&g),
                    None => default_grid(),
                };
                &&& grid_view(&s.chunk) == painted(base, x as int, y as int, drawn_pixel(color, *sender))
                &&& s.next_cooldown == height + config.cooldown
            },
        },
{
    let c = match check_draw(config, dimensions, ready_at, height, chunk_x, chunk_y, x, y, color) {
        Ok(c) => c,
        Err(e) => {
            return Err(e);
        },
    };
    let mut chunk = chunk_or_default(stored);
    let pixel = PixelInfo { color: c, painter: Some(sender.clone()) };
    paint(&mut chunk, x, y, pixel);
    Ok(StagedDraw { chunk, next_cooldown: height + config.cooldown })
}

/// Fails with `Unauthorized` unless `sender` is the administrator.
pub fn check_admin(config: &Config, sender: &String) -> (r: Result<(), ContractError>)
    ensures
        r == if is_admin(*config, *sender) {
            Ok::<(), ContractError>(())
        } else {
            Err(ContractError::Unauthorized)
        },
{
    if *sender != config.admin_address {
        return Err(ContractError::Unauthorized);
    }
    Ok(())
}

/// Hands the administrator's role to `new_admin_address`, which is taken as
/// already validated. Only the administrator may do so.
pub fn execute_update_admin(config: &mut Config, sender: &String, new_admin_address: String) -> (r: Result<(), ContractError>)
    ensures
        (r, *final(config)) == update_admin_step(*old(config), *sender, new_admin_address),
{
    check_admin(config, sender)?;
    config.admin_address = new_admin_address;
    Ok(())
}

/// Sets the number of heights between two draws of a caller; 0 lifts the
/// limit. Heights already recorded in the cooldown table stay. Only the
/// administrator may do so.
pub fn execute_update_cooldown(config: &mut Config, sender: &String, new_cooldown: u64) -> (r: Result<(), ContractError>)
    ensures
        (r, *final(config)) == update_cooldown_step(*old(config), *sender, new_cooldown),
{
    check_admin(config, sender)?;
    config.cooldown = new_cooldown;
    Ok(())
}

/// Sets the last height at which drawing is allowed, or removes the limit
/// with `None`. A new end height must lie after `height`. Only the
/// administrator may do so, and that is checked first.
pub fn execute_update_end_height(
    config: &mut Config,
    height: u64,
    sender: &String,
    new_end_height: Option<u64>,
) -> (r: Result<(), ContractError>)
    ensures
        (r, *final(config)) == update_end_height_step(*old(config), height, *sender, new_end_height),
{
    check_admin(config, sender)?;
    if let Some(end_height) = new_end_height {
        if end_height <= height {
            return Err(ContractError::InvalidEndHeight);
        }
    }
    config.end_height = new_end_height;
    Ok(())
}

/// The chunk at (`x`, `y`): what was drawn there, or the default chunk.
pub fn query_chunk(canvas: &Canvas, x: u64, y: u64) -> (r: ChunkResponse)
    ensures
        grid_view(&r.grid) == chunk_of(canvas@.chunks, x, y),
{
    ChunkResponse { grid: canvas.chunks.chunk(x, y) }
}

/// The height from which `address` may draw; 0 if it never drew.
pub fn query_cooldown(canvas: &Canvas, address: &String) -> (r: CooldownResponse)
    ensures
        r.current_cooldown == cooldown_of(canvas@.cooldowns, address@),
{
    CooldownResponse { current_cooldown: canvas.cooldowns.get(address) }
}

/// Answers `msg`. Queries never fail.
pub fn query(canvas: &Canvas, msg: QueryMsg) -> (r: QueryResponse)
    ensures
        match msg {
            QueryMsg::GetChunk { x, y } => r matches QueryResponse::Chunk(c) && grid_view(&c.grid)
                == chunk_of(canvas@.chunks, x, y),
            QueryMsg::GetConfig {  } => r == QueryResponse::Config(canvas.config),
            QueryMsg::GetDimensions {  } => r == QueryResponse::Dimensions(canvas.dimensions),
            QueryMsg::GetCooldown { address } => r == QueryResponse::Cooldown(
                CooldownResponse { current_cooldown: cooldown_of(canvas@.cooldowns, address@) },
            ),
        },
{
    match msg {
        QueryMsg::GetChunk { x, y } => QueryResponse::Chunk(query_chunk(canvas, x, y)),
        QueryMsg::GetConfig {  } => QueryResponse::Config(canvas.config.duplicate()),
        QueryMsg::GetDimensions {  } => QueryResponse::Dimensions(canvas.dimensions),
        QueryMsg::GetCooldown { address } => QueryResponse::Cooldown(query_cooldown(canvas, &address)),
    }
}

} // verus!

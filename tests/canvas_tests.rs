use juno_pixel::canvas::Canvas;
use juno_pixel::contract::{
    check_admin, check_draw, chunk_or_default, execute, execute_draw, execute_update_admin,
    execute_update_cooldown, execute_update_end_height, instantiate, query, query_chunk,
    query_cooldown, stage_draw,
};
use juno_pixel::error::ContractError;
use juno_pixel::grid::{default_chunk, has_chunk_shape, paint};
use juno_pixel::msg::{ExecuteMsg, InstantiateMsg, QueryMsg, QueryResponse};
use juno_pixel::state::{Color, Config, Dimensions, PixelInfo, CHUNK_SIZE};

const ADMIN: &str = "admin";
const ALICE: &str = "alice";
const BOB: &str = "bob";

fn s(t: &str) -> String {
    t.to_string()
}

fn canvas_at(height: u64, cooldown: u64, end_height: Option<u64>, width: u64, rows: u64) -> Canvas {
    let msg = InstantiateMsg {
        admin_address: s(ADMIN),
        cooldown,
        end_height,
        width,
        height: rows,
    };
    match instantiate(height, msg) {
        Ok(c) => c,
        Err(e) => panic!("instantiate failed: {:?}", e),
    }
}

fn cell(canvas: &Canvas, chunk_x: u64, chunk_y: u64, x: usize, y: usize) -> PixelInfo {
    query_chunk(canvas, chunk_x, chunk_y).grid[x][y].clone()
}

fn blank() -> PixelInfo {
    PixelInfo {
        color: Color::White,
        painter: None,
    }
}

fn painted_by(color: Color, who: &str) -> PixelInfo {
    PixelInfo {
        color,
        painter: Some(s(who)),
    }
}

#[test]
fn draw_then_read_back_each_corner() {
    let mut canvas = canvas_at(100, 0, None, 3, 2);
    let alice = s(ALICE);
    assert_eq!(execute_draw(&mut canvas, 100, &alice, 0, 0, 0, 0, 4), Ok(()));
    assert_eq!(execute_draw(&mut canvas, 100, &alice, 2, 1, 15, 15, 13), Ok(()));
    assert_eq!(execute_draw(&mut canvas, 100, &alice, 2, 0, 15, 0, 15), Ok(()));
    assert_eq!(execute_draw(&mut canvas, 100, &alice, 0, 1, 0, 15, 1), Ok(()));
    assert_eq!(cell(&canvas, 0, 0, 0, 0), painted_by(Color::Pink, ALICE));
    assert_eq!(cell(&canvas, 2, 1, 15, 15), painted_by(Color::Blue, ALICE));
    assert_eq!(cell(&canvas, 2, 0, 15, 0), painted_by(Color::Purple, ALICE));
    assert_eq!(cell(&canvas, 0, 1, 0, 15), painted_by(Color::LightGray, ALICE));
    // the other cells of a drawn chunk stay blank
    assert_eq!(cell(&canvas, 2, 1, 14, 15), blank());
    assert_eq!(cell(&canvas, 2, 1, 15, 14), blank());
}

#[test]
fn fresh_caller_may_draw_from_height_zero() {
    let mut canvas = canvas_at(0, 50, None, 1, 1);
    let bob = s(BOB);
    assert_eq!(query_cooldown(&canvas, &bob).current_cooldown, 0);
    assert_eq!(execute_draw(&mut canvas, 0, &bob, 0, 0, 3, 4, 9), Ok(()));
    assert_eq!(query_cooldown(&canvas, &bob).current_cooldown, 50);
    assert_eq!(cell(&canvas, 0, 0, 3, 4), painted_by(Color::LightGreen, BOB));
}

#[test]
fn second_draw_waits_for_the_cooldown() {
    let mut canvas = canvas_at(1_000, 30, None, 4, 4);
    let alice = s(ALICE);
    assert_eq!(execute_draw(&mut canvas, 1_000, &alice, 1, 1, 2, 2, 5), Ok(()));
    assert_eq!(
        execute_draw(&mut canvas, 1_029, &alice, 3, 3, 0, 0, 6),
        Err(ContractError::StillOnCooldown)
    );
    assert_eq!(cell(&canvas, 3, 3, 0, 0), blank());
    assert_eq!(execute_draw(&mut canvas, 1_030, &alice, 3, 3, 0, 0, 6), Ok(()));
    assert_eq!(cell(&canvas, 3, 3, 0, 0), painted_by(Color::Orange, ALICE));
    assert_eq!(query_cooldown(&canvas, &alice).current_cooldown, 1_060);
    // another caller is not held back by alice's cooldown
    assert_eq!(execute_draw(&mut canvas, 1_030, &s(BOB), 3, 3, 0, 1, 7), Ok(()));
}

#[test]
fn zero_cooldown_allows_two_draws_at_one_height() {
    let mut canvas = canvas_at(10, 0, None, 1, 1);
    let alice = s(ALICE);
    assert_eq!(execute_draw(&mut canvas, 10, &alice, 0, 0, 0, 0, 1), Ok(()));
    assert_eq!(execute_draw(&mut canvas, 10, &alice, 0, 0, 0, 0, 2), Ok(()));
    assert_eq!(cell(&canvas, 0, 0, 0, 0), painted_by(Color::Gray, ALICE));
}

#[test]
fn draws_off_the_canvas_are_refused() {
    let mut canvas = canvas_at(10, 0, None, 2, 3);
    let alice = s(ALICE);
    for (cx, cy, x, y) in [(0, 0, 16, 0), (0, 0, 0, 16), (2, 0, 0, 0), (0, 3, 0, 0), (5, 5, 20, 20)] {
        assert_eq!(
            execute_draw(&mut canvas, 10, &alice, cx, cy, x, y, 3),
            Err(ContractError::InvalidCoordinates)
        );
    }
    // the last cell of the last chunk is on the canvas
    assert_eq!(execute_draw(&mut canvas, 10, &alice, 1, 2, 15, 15, 3), Ok(()));
}

#[test]
fn canvas_of_zero_width_refuses_every_draw() {
    let mut canvas = canvas_at(10, 0, None, 0, 5);
    assert_eq!(
        execute_draw(&mut canvas, 10, &s(ALICE), 0, 0, 0, 0, 3),
        Err(ContractError::InvalidCoordinates)
    );
}

#[test]
fn draws_after_the_end_height_change_nothing() {
    let mut canvas = canvas_at(100, 5, Some(120), 2, 2);
    let alice = s(ALICE);
    assert_eq!(execute_draw(&mut canvas, 120, &alice, 0, 0, 1, 1, 3), Ok(()));
    assert_eq!(
        execute_draw(&mut canvas, 130, &alice, 0, 0, 1, 1, 10),
        Err(ContractError::EndHeightReached)
    );
    assert_eq!(
        execute_draw(&mut canvas, 121, &s(BOB), 1, 1, 0, 0, 10),
        Err(ContractError::EndHeightReached)
    );
    assert_eq!(cell(&canvas, 0, 0, 1, 1), painted_by(Color::Black, ALICE));
    assert_eq!(cell(&canvas, 1, 1, 0, 0), blank());
    assert_eq!(query_cooldown(&canvas, &alice).current_cooldown, 125);
    assert_eq!(query_cooldown(&canvas, &s(BOB)).current_cooldown, 0);
}

#[test]
fn draw_failures_come_in_a_fixed_order() {
    let mut canvas = canvas_at(100, 50, Some(110), 1, 1);
    let alice = s(ALICE);
    assert_eq!(execute_draw(&mut canvas, 100, &alice, 0, 0, 0, 0, 3), Ok(()));
    // off the canvas, on cooldown, past the end and a bad color
    assert_eq!(
        execute_draw(&mut canvas, 111, &alice, 1, 0, 0, 0, 99),
        Err(ContractError::InvalidCoordinates)
    );
    // on cooldown, past the end and a bad color
    assert_eq!(
        execute_draw(&mut canvas, 111, &alice, 0, 0, 0, 0, 99),
        Err(ContractError::StillOnCooldown)
    );
    // past the end and a bad color
    assert_eq!(
        execute_draw(&mut canvas, 111, &s(BOB), 0, 0, 0, 0, 99),
        Err(ContractError::EndHeightReached)
    );
    // only a bad color
    assert_eq!(
        execute_draw(&mut canvas, 105, &s(BOB), 0, 0, 0, 0, 16),
        Err(ContractError::InvalidColor)
    );
    assert_eq!(query_cooldown(&canvas, &s(BOB)).current_cooldown, 0);
}

#[test]
fn only_the_admin_changes_the_config() {
    let mut canvas = canvas_at(100, 30, None, 1, 1);
    let before = canvas.config.clone();
    let alice = s(ALICE);
    let ops = [
        ExecuteMsg::UpdateAdmin { new_admin_address: s(ALICE) },
        ExecuteMsg::UpdateCooldown { new_cooldown: 1 },
        ExecuteMsg::UpdateEndHeight { new_end_height: Some(500) },
        ExecuteMsg::UpdateEndHeight { new_end_height: Some(1) },
    ];
    for op in ops {
        assert_eq!(execute(&mut canvas, 100, &alice, op), Err(ContractError::Unauthorized));
        assert_eq!(canvas.config, before);
    }
    assert_eq!(check_admin(&canvas.config, &alice), Err(ContractError::Unauthorized));
    assert_eq!(check_admin(&canvas.config, &s(ADMIN)), Ok(()));
}

#[test]
fn admin_role_moves_with_update_admin() {
    let mut canvas = canvas_at(100, 30, None, 1, 1);
    let admin = s(ADMIN);
    assert_eq!(execute_update_admin(&mut canvas.config, &admin, s(BOB)), Ok(()));
    assert_eq!(canvas.config.admin_address, s(BOB));
    // the former admin has lost the role
    assert_eq!(
        execute_update_cooldown(&mut canvas.config, &admin, 3),
        Err(ContractError::Unauthorized)
    );
    assert_eq!(execute_update_cooldown(&mut canvas.config, &s(BOB), 3), Ok(()));
    assert_eq!(canvas.config.cooldown, 3);
}

#[test]
fn new_cooldown_leaves_recorded_heights() {
    let mut canvas = canvas_at(100, 30, None, 1, 1);
    let alice = s(ALICE);
    assert_eq!(execute_draw(&mut canvas, 100, &alice, 0, 0, 0, 0, 3), Ok(()));
    assert_eq!(execute_update_cooldown(&mut canvas.config, &s(ADMIN), 0), Ok(()));
    assert_eq!(query_cooldown(&canvas, &alice).current_cooldown, 130);
    assert_eq!(
        execute_draw(&mut canvas, 129, &alice, 0, 0, 0, 0, 3),
        Err(ContractError::StillOnCooldown)
    );
    assert_eq!(execute_draw(&mut canvas, 130, &alice, 0, 0, 0, 0, 3), Ok(()));
    assert_eq!(query_cooldown(&canvas, &alice).current_cooldown, 130);
}

#[test]
fn end_height_must_lie_after_the_current_height() {
    let mut config = Config {
        admin_address: s(ADMIN),
        cooldown: 30,
        end_height: Some(400),
    };
    let admin = s(ADMIN);
    assert_eq!(
        execute_update_end_height(&mut config, 300, &admin, Some(300)),
        Err(ContractError::InvalidEndHeight)
    );
    assert_eq!(
        execute_update_end_height(&mut config, 300, &admin, Some(12)),
        Err(ContractError::InvalidEndHeight)
    );
    assert_eq!(config.end_height, Some(400));
    // authorization is checked before the height
    assert_eq!(
        execute_update_end_height(&mut config, 300, &s(BOB), Some(12)),
        Err(ContractError::Unauthorized)
    );
    assert_eq!(execute_update_end_height(&mut config, 300, &admin, Some(301)), Ok(()));
    assert_eq!(config.end_height, Some(301));
    assert_eq!(execute_update_end_height(&mut config, 300, &admin, None), Ok(()));
    assert_eq!(config.end_height, None);
}

#[test]
fn instantiate_refuses_an_end_height_that_has_passed() {
    let msg = InstantiateMsg {
        admin_address: s(ADMIN),
        cooldown: 1,
        end_height: Some(50),
        width: 1,
        height: 1,
    };
    assert_eq!(instantiate(50, msg).err(), Some(ContractError::InvalidEndHeight));
    let canvas = canvas_at(49, 1, Some(50), 7, 9);
    assert_eq!(
        canvas.config,
        Config {
            admin_address: s(ADMIN),
            cooldown: 1,
            end_height: Some(50)
        }
    );
    assert_eq!(canvas.dimensions, Dimensions { width: 7, height: 9 });
}

#[test]
fn unwritten_chunks_read_as_blank() {
    let mut canvas = canvas_at(1, 0, None, 4, 4);
    assert_eq!(execute_draw(&mut canvas, 1, &s(ALICE), 1, 1, 0, 0, 3), Ok(()));
    for (cx, cy) in [(0, 0), (3, 3), (1, 0), (40, 40)] {
        let chunk = query_chunk(&canvas, cx, cy);
        assert_eq!(chunk.grid.len(), CHUNK_SIZE as usize);
        for row in &chunk.grid {
            assert_eq!(row.len(), CHUNK_SIZE as usize);
            assert!(row.iter().all(|p| *p == blank()));
        }
    }
}

#[test]
fn queries_answer_each_question() {
    let mut canvas = canvas_at(5, 2, Some(9), 3, 4);
    assert_eq!(execute_draw(&mut canvas, 5, &s(BOB), 2, 3, 7, 8, 11), Ok(()));
    match query(&canvas, QueryMsg::GetConfig {}) {
        QueryResponse::Config(c) => assert_eq!(
            c,
            Config {
                admin_address: s(ADMIN),
                cooldown: 2,
                end_height: Some(9)
            }
        ),
        other => panic!("unexpected answer {:?}", other),
    }
    match query(&canvas, QueryMsg::GetDimensions {}) {
        QueryResponse::Dimensions(d) => assert_eq!(d, Dimensions { width: 3, height: 4 }),
        other => panic!("unexpected answer {:?}", other),
    }
    match query(&canvas, QueryMsg::GetCooldown { address: s(BOB) }) {
        QueryResponse::Cooldown(c) => assert_eq!(c.current_cooldown, 7),
        other => panic!("unexpected answer {:?}", other),
    }
    match query(&canvas, QueryMsg::GetChunk { x: 2, y: 3 }) {
        QueryResponse::Chunk(c) => assert_eq!(c.grid[7][8], painted_by(Color::Turquoise, BOB)),
        other => panic!("unexpected answer {:?}", other),
    }
}

#[test]
fn color_codes_follow_the_palette_order() {
    assert_eq!(Color::from_code(0), Some(Color::White));
    assert_eq!(Color::from_code(3), Some(Color::Black));
    assert_eq!(Color::from_code(15), Some(Color::Purple));
    assert_eq!(Color::from_code(16), None);
    assert_eq!(Color::from_code(255), None);
    for code in 0..16u8 {
        assert_eq!(Color::from_code(code).map(|c| c.code()), Some(code));
    }
    assert_eq!(Color::Magenta.code(), 14);
}

#[test]
fn check_draw_returns_the_color_to_paint() {
    let config = Config {
        admin_address: s(ADMIN),
        cooldown: 10,
        end_height: None,
    };
    let dims = Dimensions { width: 1, height: 1 };
    assert_eq!(check_draw(&config, &dims, 0, 0, 0, 0, 0, 0, 12), Ok(Color::LightBlue));
    assert_eq!(
        check_draw(&config, &dims, 5, 4, 0, 0, 0, 0, 12),
        Err(ContractError::StillOnCooldown)
    );
}

#[test]
fn staged_draw_paints_the_stored_chunk() {
    let config = Config {
        admin_address: s(ADMIN),
        cooldown: 30,
        end_height: Some(1_000),
    };
    let dims = Dimensions { width: 2, height: 2 };
    let alice = s(ALICE);

    let staged = match stage_draw(&config, &dims, 0, None, 500, &alice, 1, 1, 4, 5, 7) {
        Ok(st) => st,
        Err(e) => panic!("draw refused: {:?}", e),
    };
    assert_eq!(staged.next_cooldown, 530);
    assert_eq!(staged.chunk[4][5], painted_by(Color::Brown, ALICE));
    assert_eq!(staged.chunk[5][4], blank());

    let again = match stage_draw(&config, &dims, 0, Some(staged.chunk), 600, &s(BOB), 1, 1, 4, 6, 8) {
        Ok(st) => st,
        Err(e) => panic!("draw refused: {:?}", e),
    };
    assert_eq!(again.chunk[4][5], painted_by(Color::Brown, ALICE));
    assert_eq!(again.chunk[4][6], painted_by(Color::Yellow, BOB));
    assert_eq!(again.next_cooldown, 630);

    assert!(matches!(
        stage_draw(&config, &dims, 700, None, 600, &alice, 1, 1, 4, 5, 7),
        Err(ContractError::StillOnCooldown)
    ));
    assert!(matches!(
        stage_draw(&config, &dims, 0, None, 1_001, &alice, 1, 1, 4, 5, 7),
        Err(ContractError::EndHeightReached)
    ));
}

#[test]
fn chunk_shapes_and_defaults() {
    let fresh = default_chunk();
    assert!(has_chunk_shape(&fresh));
    assert!(fresh.iter().all(|row| row.iter().all(|p| *p == blank())));
    let mut short = default_chunk();
    short.pop();
    assert!(!has_chunk_shape(&short));
    let mut ragged = default_chunk();
    ragged[3].pop();
    assert!(!has_chunk_shape(&ragged));

    let mut g = chunk_or_default(None);
    assert_eq!(g, fresh);
    paint(&mut g, 15, 0, painted_by(Color::Green, BOB));
    let kept = chunk_or_default(Some(g.clone()));
    assert_eq!(kept, g);
    assert_eq!(kept[15][0], painted_by(Color::Green, BOB));
}

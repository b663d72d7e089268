use wraith_game::components::{color_from_str, Color, Position, Renderable};
use wraith_game::driver::{DriverState, Session};
use wraith_game::input_system::{apply_command, command_of, Command, GameControl, InputProcessor, Key};
use wraith_game::numfmt::i32_string;
use wraith_game::render_system::{build_grid, grid_lines, status_text, DrawOp, RenderSystem};
use wraith_game::world::World;

fn player_pos(s: &Session) -> Position {
    s.world.positions[0].unwrap()
}

fn enemy_pos(s: &Session) -> Position {
    s.world.positions[1].unwrap()
}

#[test]
fn color_resolution_is_case_insensitive() {
    assert_eq!(color_from_str("RED"), color_from_str("red"));
    assert_eq!(color_from_str("RED"), Color::Red);
    assert_eq!(color_from_str("Black"), Color::Black);
    assert_eq!(color_from_str("GREEN"), Color::Green);
    assert_eq!(color_from_str("yElLoW"), Color::Yellow);
    assert_eq!(color_from_str("blue"), Color::Blue);
    assert_eq!(color_from_str("MAGENTA"), Color::Magenta);
    assert_eq!(color_from_str("cyan"), Color::Cyan);
    assert_eq!(color_from_str("WHITE"), Color::White);
    assert_eq!(color_from_str("grey"), Color::Grey);
    assert_eq!(color_from_str("GRAY"), Color::Grey);
}

#[test]
fn unknown_color_names_resolve_to_white() {
    assert_eq!(color_from_str("purple"), Color::White);
    assert_eq!(color_from_str(""), Color::White);
    assert_eq!(color_from_str("redd"), Color::White);
    assert_eq!(color_from_str(" red"), Color::White);
}

#[test]
fn key_to_command_mapping() {
    assert_eq!(command_of(Some(Key::Left)), Command::MoveLeft);
    assert_eq!(command_of(Some(Key::Char('a'))), Command::MoveLeft);
    assert_eq!(command_of(Some(Key::Right)), Command::MoveRight);
    assert_eq!(command_of(Some(Key::Char('d'))), Command::MoveRight);
    assert_eq!(command_of(Some(Key::Up)), Command::MoveUp);
    assert_eq!(command_of(Some(Key::Char('w'))), Command::MoveUp);
    assert_eq!(command_of(Some(Key::Down)), Command::MoveDown);
    assert_eq!(command_of(Some(Key::Char('s'))), Command::MoveDown);
    assert_eq!(command_of(Some(Key::Esc)), Command::Quit);
    assert_eq!(command_of(Some(Key::Char('x'))), Command::Noop);
    assert_eq!(command_of(Some(Key::Other)), Command::Noop);
    assert_eq!(command_of(None), Command::Noop);
}

#[test]
fn movement_scenario_two_rights_one_down() {
    let mut s = Session::setup();
    assert_eq!(player_pos(&s), Position { x: 0, y: 0 });
    assert_eq!(enemy_pos(&s), Position { x: 10, y: 10 });
    s.tick(Some(Key::Right));
    assert_eq!(enemy_pos(&s), Position { x: 10, y: 10 });
    s.tick(Some(Key::Right));
    assert_eq!(enemy_pos(&s), Position { x: 10, y: 10 });
    s.tick(Some(Key::Down));
    assert_eq!(player_pos(&s), Position { x: 2, y: 1 });
    assert_eq!(enemy_pos(&s), Position { x: 10, y: 10 });
    assert_eq!(s.state, DriverState::Running);
}

#[test]
fn left_clamp_at_origin() {
    let mut s = Session::setup();
    s.tick(Some(Key::Left));
    assert_eq!(player_pos(&s), Position { x: 0, y: 0 });
    s.tick(Some(Key::Char('a')));
    assert_eq!(player_pos(&s), Position { x: 0, y: 0 });
}

#[test]
fn top_clamp_at_origin() {
    let mut s = Session::setup();
    s.tick(Some(Key::Up));
    s.tick(Some(Key::Char('w')));
    assert_eq!(player_pos(&s), Position { x: 0, y: 0 });
}

#[test]
fn right_and_down_are_unbounded_by_exactly_n() {
    let mut s = Session::setup();
    for _ in 0..5 {
        s.tick(Some(Key::Right));
    }
    for _ in 0..3 {
        s.tick(Some(Key::Down));
    }
    assert_eq!(player_pos(&s), Position { x: 5, y: 3 });
}

#[test]
fn clamp_only_holds_at_the_edge() {
    let mut s = Session::setup();
    s.tick(Some(Key::Right));
    s.tick(Some(Key::Left));
    assert_eq!(player_pos(&s), Position { x: 0, y: 0 });
}

#[test]
fn escape_terminates_within_one_tick_and_freezes_positions() {
    let mut s = Session::setup();
    s.tick(Some(Key::Right));
    let before = player_pos(&s);
    let frame = s.tick(Some(Key::Esc));
    assert!(frame.is_some());
    assert!(s.control.quit);
    assert_eq!(s.state, DriverState::Terminating);
    assert_eq!(player_pos(&s), before);
    // Once terminating, ticks render nothing and mutate nothing.
    let later = s.tick(Some(Key::Right));
    assert!(later.is_none());
    assert!(s.control.quit);
    assert_eq!(s.state, DriverState::Terminating);
    assert_eq!(player_pos(&s), before);
}

#[test]
fn quit_flag_is_monotonic_across_ticks() {
    let mut s = Session::setup();
    s.tick(Some(Key::Esc));
    assert!(s.control.quit);
    for _ in 0..4 {
        s.tick(Some(Key::Down));
        assert!(s.control.quit);
        assert_eq!(s.state, DriverState::Terminating);
    }
}

#[test]
fn unrecognized_key_and_no_input_are_no_ops() {
    let mut s = Session::setup();
    s.tick(Some(Key::Char('q')));
    s.tick(None);
    s.tick(Some(Key::Other));
    assert_eq!(player_pos(&s), Position { x: 0, y: 0 });
    assert!(!s.control.quit);
    assert_eq!(s.state, DriverState::Running);
}

#[test]
fn input_stage_moves_every_player_and_only_players() {
    let mut w = World::new();
    w.create_entity(Some(Position { x: 3, y: 3 }), None, Some(wraith_game::components::Player), None);
    w.create_entity(Some(Position { x: 7, y: 7 }), None, None, None);
    let mut control = GameControl { quit: false };
    let stage = InputProcessor;
    stage.run(&mut w, &mut control, Some(Key::Right));
    assert_eq!(w.positions[0].unwrap(), Position { x: 4, y: 3 });
    assert_eq!(w.positions[1].unwrap(), Position { x: 7, y: 7 });
    assert!(!control.quit);
}

#[test]
fn escape_without_player_is_a_no_op() {
    let mut w = World::new();
    w.create_entity(Some(Position { x: 3, y: 3 }), None, None, None);
    let mut control = GameControl { quit: false };
    let stage = InputProcessor;
    // The whole dispatch sits inside the player join: with no
    // player-tagged entity, escape changes nothing.
    stage.run(&mut w, &mut control, Some(Key::Esc));
    assert!(!control.quit);
    assert_eq!(w.positions[0].unwrap(), Position { x: 3, y: 3 });
    // Once a player exists, escape sets the flag.
    w.create_entity(Some(Position { x: 0, y: 0 }), None, Some(wraith_game::components::Player), None);
    stage.run(&mut w, &mut control, Some(Key::Esc));
    assert!(control.quit);
}

#[test]
fn session_without_player_never_quits_on_escape() {
    let mut w = World::new();
    w.create_entity(
        Some(Position { x: 1, y: 1 }),
        Some(Renderable { glyph: 'e', fg: "red".to_string(), bg: "blue".to_string() }),
        None,
        None,
    );
    let mut s = Session::new(w);
    let frame = s.tick(Some(Key::Esc));
    assert!(frame.is_some());
    assert!(!s.control.quit);
    assert_eq!(s.state, DriverState::Running);
}

#[test]
fn apply_command_clamps_and_moves() {
    let p = Position { x: 0, y: 0 };
    assert_eq!(apply_command(p, Command::MoveLeft), Position { x: 0, y: 0 });
    assert_eq!(apply_command(p, Command::MoveUp), Position { x: 0, y: 0 });
    assert_eq!(apply_command(p, Command::MoveRight), Position { x: 1, y: 0 });
    assert_eq!(apply_command(p, Command::MoveDown), Position { x: 0, y: 1 });
    let q = Position { x: 4, y: 9 };
    assert_eq!(apply_command(q, Command::MoveLeft), Position { x: 3, y: 9 });
    assert_eq!(apply_command(q, Command::MoveUp), Position { x: 4, y: 8 });
    assert_eq!(apply_command(q, Command::Quit), q);
    assert_eq!(apply_command(q, Command::Noop), q);
}

#[test]
fn decimal_formatting_exact_values() {
    assert_eq!(i32_string(0), "0");
    assert_eq!(i32_string(7), "7");
    assert_eq!(i32_string(123), "123");
    assert_eq!(i32_string(-45), "-45");
    assert_eq!(i32_string(i32::MAX), "2147483647");
    assert_eq!(i32_string(i32::MIN), "-2147483648");
}

#[test]
fn log_grid_is_always_twenty_by_twenty() {
    let s = Session::setup();
    let renderer = RenderSystem;
    let frame = renderer.run(&s.world);
    // Delimiter, 20 grid rows, blank, 2 entity lines, blank.
    assert_eq!(frame.log_lines.len(), 25);
    assert_eq!(frame.log_lines[0], "--- Frame ---");
    for r in 1..=20 {
        assert_eq!(frame.log_lines[r].chars().count(), 20);
    }
    assert_eq!(frame.log_lines[21], "");
    assert_eq!(frame.log_lines[24], "");
}

#[test]
fn grid_stamps_entities_at_their_cells() {
    let s = Session::setup();
    let renderer = RenderSystem;
    let frame = renderer.run(&s.world);
    assert_eq!(frame.log_lines[1], "@...................");
    assert_eq!(frame.log_lines[11], "..........N.........");
    for r in [2, 3, 4, 5, 6, 7, 8, 9, 10, 12, 13, 14, 15, 16, 17, 18, 19, 20] {
        assert_eq!(frame.log_lines[r], "....................");
    }
}

#[test]
fn entity_dump_concatenates_x_and_y() {
    let s = Session::setup();
    let renderer = RenderSystem;
    let frame = renderer.run(&s.world);
    assert_eq!(frame.log_lines[22], "00 '@' fg:white bg:green");
    assert_eq!(frame.log_lines[23], "1010 'N' fg:black bg:gray");
}

#[test]
fn render_shows_previous_ticks_state() {
    let mut s = Session::setup();
    let first = s.tick(Some(Key::Right)).unwrap();
    // The first frame still shows the player at the origin...
    assert_eq!(first.log_lines[22], "00 '@' fg:white bg:green");
    let second = s.tick(None).unwrap();
    // ...and the move appears one tick later.
    assert_eq!(second.log_lines[22], "10 '@' fg:white bg:green");
}

#[test]
fn entities_off_the_grid_are_logged_out_but_still_drawn() {
    let mut w = World::new();
    w.create_entity(
        Some(Position { x: 25, y: 3 }),
        Some(Renderable { glyph: 'Z', fg: "red".to_string(), bg: "blue".to_string() }),
        None,
        None,
    );
    let renderer = RenderSystem;
    let frame = renderer.run(&w);
    for r in 1..=20 {
        assert_eq!(frame.log_lines[r], "....................");
    }
    // The live draw is not clamped: the glyph op is still emitted.
    assert_eq!(
        frame.ops[1],
        DrawOp::Glyph { col: 25, row: 3, fg: Color::Red, bg: Color::Blue, glyph: 'Z' }
    );
    assert_eq!(frame.log_lines[22], "253 'Z' fg:red bg:blue");
}

#[test]
fn draw_ops_clear_glyphs_status() {
    let s = Session::setup();
    let renderer = RenderSystem;
    let frame = renderer.run(&s.world);
    assert_eq!(frame.ops.len(), 4);
    assert_eq!(frame.ops[0], DrawOp::ClearAll);
    assert_eq!(
        frame.ops[1],
        DrawOp::Glyph { col: 0, row: 0, fg: Color::White, bg: Color::Green, glyph: '@' }
    );
    assert_eq!(
        frame.ops[2],
        DrawOp::Glyph { col: 10, row: 10, fg: Color::Black, bg: Color::Grey, glyph: 'N' }
    );
    assert_eq!(frame.ops[3], DrawOp::StatusLine { row: 20 });
}

#[test]
fn unrecognized_color_renders_white_on_white() {
    let mut w = World::new();
    w.create_entity(
        Some(Position { x: 1, y: 1 }),
        Some(Renderable { glyph: '?', fg: "purple".to_string(), bg: "purple".to_string() }),
        None,
        None,
    );
    let renderer = RenderSystem;
    let frame = renderer.run(&w);
    assert_eq!(
        frame.ops[1],
        DrawOp::Glyph { col: 1, row: 1, fg: Color::White, bg: Color::White, glyph: '?' }
    );
}

#[test]
fn status_line_text() {
    assert_eq!(status_text(), "[ESC] Quit | Use Arrow Keys or WASD to move");
}

#[test]
fn world_store_create_query_mutate() {
    let mut w = World::new();
    let a = w.create_entity(Some(Position { x: 1, y: 2 }), None, None, None);
    let b = w.create_entity(
        Some(Position { x: 3, y: 4 }),
        Some(Renderable { glyph: 'x', fg: "red".to_string(), bg: "blue".to_string() }),
        None,
        None,
    );
    let c = w.create_entity(None, None, None, None);
    assert_eq!((a, b, c), (0, 1, 2));
    assert_eq!(w.position_of(0), Some(Position { x: 1, y: 2 }));
    assert_eq!(w.position_of(2), None);
    // Only entities with both components appear in the render query.
    let items = w.query_render();
    assert_eq!(items.len(), 1);
    assert_eq!(items[0].0, 1);
    assert_eq!(items[0].1, Position { x: 3, y: 4 });
    assert_eq!(items[0].2.glyph, 'x');
    w.set_position(0, Position { x: 9, y: 9 });
    assert_eq!(w.position_of(0), Some(Position { x: 9, y: 9 }));
    assert_eq!(w.position_of(1), Some(Position { x: 3, y: 4 }));
}

#[test]
fn build_grid_and_lines_agree() {
    let s = Session::setup();
    let grid = build_grid(&s.world);
    assert_eq!(grid.len(), 400);
    let lines = grid_lines(&grid);
    assert_eq!(lines.len(), 20);
    assert_eq!(grid[0], '@');
    assert_eq!(grid[10 * 20 + 10], 'N');
    assert_eq!(lines[0], "@...................");
}

#[test]
fn later_entities_overwrite_earlier_on_the_same_cell() {
    let mut w = World::new();
    w.create_entity(
        Some(Position { x: 5, y: 5 }),
        Some(Renderable { glyph: 'a', fg: "red".to_string(), bg: "red".to_string() }),
        None,
        None,
    );
    w.create_entity(
        Some(Position { x: 5, y: 5 }),
        Some(Renderable { glyph: 'b', fg: "red".to_string(), bg: "red".to_string() }),
        None,
        None,
    );
    let grid = build_grid(&w);
    assert_eq!(grid[5 * 20 + 5], 'b');
}

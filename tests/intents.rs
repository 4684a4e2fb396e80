use wireframe::app::{App, CameraStep};
use wireframe::camera::{Orientation, PITCH_LIMIT};
use wireframe::input::{resolve_event, resolve_key, InputEvent, Key};
use wireframe::intent::{Action, Direction, DrawMarker, RenderMode, Vec2};

fn press(code: Key) -> Option<InputEvent> {
    Some(InputEvent::Key { code, pressed: true })
}

#[test]
fn character_keys_move() {
    let app = App::default();
    assert_eq!(app.process_event(press(Key::Char('Q'))), Action::Quit);
    assert_eq!(app.process_event(press(Key::Char('a'))), Action::Move(Direction::Left));
    assert_eq!(app.process_event(press(Key::Char('d'))), Action::Move(Direction::Right));
    assert_eq!(app.process_event(press(Key::Char('w'))), Action::Move(Direction::Forward));
    assert_eq!(app.process_event(press(Key::Char('s'))), Action::Move(Direction::Backward));
    assert_eq!(app.process_event(press(Key::Char(' '))), Action::Move(Direction::Up));
    assert_eq!(app.process_event(press(Key::Char('k'))), Action::Move(Direction::Up));
    assert_eq!(app.process_event(press(Key::Char('j'))), Action::Move(Direction::Down));
}

#[test]
fn unmapped_characters_do_nothing() {
    assert_eq!(resolve_key(Key::Char('q')), Action::Idle);
    assert_eq!(resolve_key(Key::Char('x')), Action::Idle);
    assert_eq!(resolve_key(Key::Other), Action::Idle);
}

#[test]
fn arrow_keys_look() {
    assert_eq!(resolve_key(Key::Left), Action::Look(Direction::Left));
    assert_eq!(resolve_key(Key::Right), Action::Look(Direction::Right));
    assert_eq!(resolve_key(Key::Up), Action::Look(Direction::Up));
    assert_eq!(resolve_key(Key::Down), Action::Look(Direction::Down));
}

#[test]
fn function_keys_pick_modes() {
    assert_eq!(resolve_key(Key::F(1)), Action::ChangeDrawMode(DrawMarker::Braille));
    assert_eq!(resolve_key(Key::F(2)), Action::ChangeDrawMode(DrawMarker::Dot));
    assert_eq!(resolve_key(Key::F(3)), Action::ChangeDrawMode(DrawMarker::HalfBlock));
    assert_eq!(resolve_key(Key::F(4)), Action::ChangeDrawMode(DrawMarker::Block));
    assert_eq!(resolve_key(Key::F(5)), Action::ChangeDrawMode(DrawMarker::Bar));
    assert_eq!(resolve_key(Key::F(6)), Action::Idle);
    assert_eq!(resolve_key(Key::F(8)), Action::ChangeRenderMode(RenderMode::Vertex));
    assert_eq!(resolve_key(Key::F(9)), Action::ChangeRenderMode(RenderMode::Raycast));
    assert_eq!(resolve_key(Key::F(12)), Action::Idle);
}

#[test]
fn only_presses_and_resizes_count() {
    let released = Some(InputEvent::Key { code: Key::Char('Q'), pressed: false });
    assert_eq!(resolve_event(released), Action::Idle);
    assert_eq!(resolve_event(None), Action::Idle);
    assert_eq!(resolve_event(Some(InputEvent::FocusGained)), Action::Idle);
    assert_eq!(resolve_event(Some(InputEvent::FocusLost)), Action::Idle);
    assert_eq!(resolve_event(Some(InputEvent::Mouse)), Action::Idle);
    assert_eq!(resolve_event(Some(InputEvent::Paste)), Action::Idle);
    assert_eq!(
        resolve_event(Some(InputEvent::Resize { columns: 120, rows: 40 })),
        Action::ChangeWindowSize(Vec2::new(120, 40))
    );
}

#[test]
fn default_state() {
    let app = App::default();
    assert!(!app.should_quit);
    assert_eq!(app.terminal_size, Vec2::new(10, 10));
    assert_eq!(app.orientation, Orientation { yaw: 0, pitch: 0, rotate_speed: 5 });
    assert_eq!(app.draw_mode, DrawMarker::Braille);
    assert_eq!(app.render_mode, RenderMode::Vertex);
}

#[test]
fn looking_up_stops_at_the_limit() {
    let mut app = App::default();
    for _ in 0..17 {
        app.process_action(Action::Look(Direction::Up));
    }
    assert_eq!(app.orientation.pitch, 85);
    for _ in 0..100 {
        assert_eq!(app.process_action(Action::Look(Direction::Up)), CameraStep::Keep);
        assert!(app.orientation.pitch >= -PITCH_LIMIT && app.orientation.pitch <= PITCH_LIMIT);
    }
    assert_eq!(app.orientation.pitch, 89);
    app.process_action(Action::Look(Direction::Down));
    assert_eq!(app.orientation.pitch, 84);
}

#[test]
fn looking_down_stops_at_the_limit() {
    let mut app = App::default();
    for _ in 0..1000 {
        app.process_action(Action::Look(Direction::Down));
        assert!(app.orientation.pitch >= -89 && app.orientation.pitch <= 89);
    }
    assert_eq!(app.orientation.pitch, -89);
    assert_eq!(app.orientation.yaw, 0);
}

#[test]
fn a_large_turn_is_clamped() {
    let mut o = Orientation { yaw: 0, pitch: 10, rotate_speed: i64::MAX };
    o.look(Direction::Up);
    assert_eq!(o.pitch, 89);
    o.look(Direction::Down);
    assert_eq!(o.pitch, -89);
}

#[test]
fn yaw_turns_without_bound() {
    let mut app = App::default();
    for _ in 0..100 {
        app.process_action(Action::Look(Direction::Right));
    }
    assert_eq!(app.orientation.yaw, 500);
    app.process_action(Action::Look(Direction::Left));
    assert_eq!(app.orientation.yaw, 495);
    assert_eq!(app.orientation.pitch, 0);
}

#[test]
fn yaw_saturates_at_the_integer_range() {
    let mut o = Orientation { yaw: i64::MAX - 2, pitch: 0, rotate_speed: 5 };
    o.look(Direction::Right);
    assert_eq!(o.yaw, i64::MAX);
    let mut o = Orientation { yaw: i64::MIN + 1, pitch: 0, rotate_speed: 5 };
    o.look(Direction::Left);
    assert_eq!(o.yaw, i64::MIN);
}

#[test]
fn looking_forward_or_backward_changes_nothing() {
    let mut o = Orientation { yaw: 30, pitch: -20, rotate_speed: 5 };
    o.look(Direction::Forward);
    o.look(Direction::Backward);
    assert_eq!(o, Orientation { yaw: 30, pitch: -20, rotate_speed: 5 });
}

#[test]
fn moving_left_is_left_to_the_camera() {
    let mut app = App::default();
    let before = app;
    assert_eq!(app.process_action(Action::Move(Direction::Left)), CameraStep::Translate(Direction::Left));
    assert_eq!(app, before);
}

#[test]
fn quitting_sets_the_flag() {
    let mut app = App::default();
    assert_eq!(app.process_action(Action::Quit), CameraStep::Keep);
    assert!(app.should_quit);
}

#[test]
fn modes_and_size_change() {
    let mut app = App::default();
    app.process_action(Action::ChangeDrawMode(DrawMarker::HalfBlock));
    assert_eq!(app.draw_mode, DrawMarker::HalfBlock);
    app.process_action(Action::ChangeRenderMode(RenderMode::Raycast));
    assert_eq!(app.render_mode, RenderMode::Raycast);
    assert_eq!(app.process_action(Action::ChangeWindowSize(Vec2::new(80, 24))), CameraStep::Refit);
    assert_eq!(app.terminal_size, Vec2::new(80, 24));
    let before = app;
    assert_eq!(app.process_action(Action::Idle), CameraStep::Keep);
    assert_eq!(app, before);
}

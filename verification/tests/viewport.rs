use gridsim::controller::{handle_key_press, handle_user_input, move_viewpoint};
use gridsim::model::{
    GameState, KeyEvent, UserEvent, ViewPort, GAME_COLS, GAME_ROWS, VIEW_COLS, VIEW_ROWS,
};

const MAX_X: usize = GAME_COLS - VIEW_COLS - 1;
const MAX_Y: usize = GAME_ROWS - VIEW_ROWS - 1;

fn state_with_view(x: usize, y: usize) -> GameState {
    GameState { tiles: Vec::new(), view_port: ViewPort { x, y }, agents: Vec::new() }
}

#[test]
fn up_at_the_top_changes_nothing() {
    let mut state = state_with_view(0, 0);
    handle_key_press(&mut state, KeyEvent::UP);
    assert_eq!(state.view_port, ViewPort { x: 0, y: 0 });
    move_viewpoint(&mut state, 0, -1);
    assert_eq!(state.view_port, ViewPort { x: 0, y: 0 });
}

#[test]
fn right_at_the_limit_changes_nothing() {
    let mut state = state_with_view(MAX_X, 0);
    handle_key_press(&mut state, KeyEvent::RIGHT);
    assert_eq!(state.view_port, ViewPort { x: MAX_X, y: 0 });
    move_viewpoint(&mut state, 1, 0);
    assert_eq!(state.view_port, ViewPort { x: 429, y: 0 });
}

#[test]
fn limits_lie_one_short_of_the_last_fitting_position() {
    assert_eq!(MAX_X, 429);
    assert_eq!(MAX_Y, 469);
    let mut state = state_with_view(0, 0);
    move_viewpoint(&mut state, 430, 470);
    assert_eq!(state.view_port, ViewPort { x: 429, y: 469 });
}

#[test]
fn each_key_moves_the_window_by_one_cell() {
    let mut state = state_with_view(10, 10);
    handle_key_press(&mut state, KeyEvent::LEFT);
    assert_eq!(state.view_port, ViewPort { x: 9, y: 10 });
    handle_key_press(&mut state, KeyEvent::UP);
    assert_eq!(state.view_port, ViewPort { x: 9, y: 9 });
    handle_key_press(&mut state, KeyEvent::RIGHT);
    assert_eq!(state.view_port, ViewPort { x: 10, y: 9 });
    handle_key_press(&mut state, KeyEvent::DOWN);
    assert_eq!(state.view_port, ViewPort { x: 10, y: 10 });
}

#[test]
fn user_events_move_the_window() {
    let mut state = state_with_view(0, 0);
    handle_user_input(&mut state, UserEvent::KeyPress(KeyEvent::RIGHT));
    handle_user_input(&mut state, UserEvent::KeyPress(KeyEvent::DOWN));
    handle_user_input(&mut state, UserEvent::KeyPress(KeyEvent::DOWN));
    assert_eq!(state.view_port, ViewPort { x: 1, y: 2 });
    handle_user_input(&mut state, UserEvent::KeyPress(KeyEvent::LEFT));
    handle_user_input(&mut state, UserEvent::KeyPress(KeyEvent::LEFT));
    handle_user_input(&mut state, UserEvent::KeyPress(KeyEvent::UP));
    assert_eq!(state.view_port, ViewPort { x: 0, y: 1 });
}

#[test]
fn both_coordinates_move_together() {
    let mut state = state_with_view(100, 200);
    move_viewpoint(&mut state, -30, 45);
    assert_eq!(state.view_port, ViewPort { x: 70, y: 245 });
}

#[test]
fn extreme_moves_are_held_at_the_limits() {
    let mut state = state_with_view(200, 200);
    move_viewpoint(&mut state, i32::MAX, i32::MIN);
    assert_eq!(state.view_port, ViewPort { x: MAX_X, y: 0 });
    move_viewpoint(&mut state, i32::MIN, i32::MAX);
    assert_eq!(state.view_port, ViewPort { x: 0, y: MAX_Y });
}

#[test]
fn window_outside_its_limits_is_brought_back() {
    let mut state = state_with_view(usize::MAX, 480);
    move_viewpoint(&mut state, 0, 0);
    assert_eq!(state.view_port, ViewPort { x: MAX_X, y: MAX_Y });
}

#[test]
fn moving_the_window_leaves_world_and_agents_alone() {
    let mut state = GameState::default();
    let agents = state.agents.clone();
    move_viewpoint(&mut state, 17, 23);
    assert_eq!(state.view_port, ViewPort { x: 17, y: 23 });
    assert_eq!(state.agents, agents);
    assert_eq!(state.tiles.len(), GAME_ROWS);
    assert!(state.is_well_formed());
}

#[test]
fn window_stays_within_its_limits_whatever_the_moves() {
    let mut state = state_with_view(0, 0);
    let mut dx: i32 = 1;
    let mut dy: i32 = -1;
    for i in 0..2000i32 {
        dx = dx.wrapping_mul(31).wrapping_add(i) % 97;
        dy = dy.wrapping_mul(17).wrapping_sub(i) % 89;
        move_viewpoint(&mut state, dx, dy);
        assert!(state.view_port.x <= MAX_X);
        assert!(state.view_port.y <= MAX_Y);
    }
}

#[test]
fn to_relative_gives_the_place_inside_the_window() {
    let view_port = ViewPort { x: 10, y: 20 };
    assert_eq!(view_port.to_relative(10, 20), Some((0, 0)));
    assert_eq!(view_port.to_relative(79, 49), Some((69, 29)));
    assert_eq!(view_port.to_relative(45, 30), Some((35, 10)));
}

#[test]
fn to_relative_gives_none_outside_the_window() {
    let view_port = ViewPort { x: 10, y: 20 };
    assert_eq!(view_port.to_relative(9, 20), None);
    assert_eq!(view_port.to_relative(10, 19), None);
    assert_eq!(view_port.to_relative(80, 20), None);
    assert_eq!(view_port.to_relative(10, 50), None);
    assert_eq!(view_port.to_relative(0, 0), None);
    assert_eq!(view_port.to_relative(usize::MAX, usize::MAX), None);
}

#[test]
fn to_relative_round_trip_over_the_whole_window() {
    for view_port in [ViewPort { x: 0, y: 0 }, ViewPort { x: 123, y: 45 }, ViewPort { x: 429, y: 469 }] {
        for rel_y in 0..VIEW_ROWS {
            for rel_x in 0..VIEW_COLS {
                let (x, y) = (view_port.x + rel_x, view_port.y + rel_y);
                assert_eq!(view_port.to_relative(x, y), Some((rel_x, rel_y)));
            }
        }
        for rel_x in 0..VIEW_COLS {
            assert_eq!(view_port.to_relative(view_port.x + rel_x, view_port.y + VIEW_ROWS), None);
        }
        for rel_y in 0..VIEW_ROWS {
            assert_eq!(view_port.to_relative(view_port.x + VIEW_COLS, view_port.y + rel_y), None);
        }
    }
}

#[test]
fn to_relative_works_at_the_end_of_the_number_range() {
    let view_port = ViewPort { x: usize::MAX - 3, y: usize::MAX };
    assert_eq!(view_port.to_relative(usize::MAX, usize::MAX), Some((3, 0)));
    assert_eq!(view_port.to_relative(usize::MAX - 4, usize::MAX), None);
}

use gridsim::model::{GameState, ViewChars, ViewPort};
use gridsim::view::{drain_step, install, DrainAction, Received};

fn frame_of(fill: char) -> ViewChars {
    vec![vec![fill; 70]; 30]
}

fn drain(looks: Vec<Received>) -> (Option<ViewChars>, DrainAction) {
    let mut pending = None;
    let mut last = DrainAction::Continue;
    for look in looks {
        let (waiting, action) = drain_step(pending, look);
        pending = waiting;
        last = action;
        if action != DrainAction::Continue {
            break;
        }
    }
    (pending, last)
}

#[test]
fn found_frame_waits_and_the_drain_goes_on() {
    let (pending, action) = drain_step(None, Received::Frame(frame_of('a')));
    assert_eq!(pending, Some(frame_of('a')));
    assert_eq!(action, DrainAction::Continue);
}

#[test]
fn newer_frame_takes_the_place_of_the_older() {
    let (pending, action) = drain_step(Some(frame_of('a')), Received::Frame(frame_of('b')));
    assert_eq!(pending, Some(frame_of('b')));
    assert_eq!(action, DrainAction::Continue);
}

#[test]
fn empty_queue_ends_the_drain() {
    let (pending, action) = drain_step(Some(frame_of('a')), Received::Empty);
    assert_eq!(pending, Some(frame_of('a')));
    assert_eq!(action, DrainAction::Stop);
    let (pending, action) = drain_step(None, Received::Empty);
    assert_eq!(pending, None);
    assert_eq!(action, DrainAction::Stop);
}

#[test]
fn lost_sender_ends_the_presentation() {
    let (pending, action) = drain_step(None, Received::Disconnected);
    assert_eq!(pending, None);
    assert_eq!(action, DrainAction::Quit);
    let (pending, action) = drain_step(Some(frame_of('z')), Received::Disconnected);
    assert_eq!(pending, Some(frame_of('z')));
    assert_eq!(action, DrainAction::Quit);
}

#[test]
fn drain_keeps_only_the_newest_frame() {
    let looks = vec![
        Received::Frame(frame_of('a')),
        Received::Frame(frame_of('b')),
        Received::Frame(frame_of('c')),
        Received::Empty,
        Received::Frame(frame_of('d')),
    ];
    let (pending, action) = drain(looks);
    assert_eq!(pending, Some(frame_of('c')));
    assert_eq!(action, DrainAction::Stop);
}

#[test]
fn install_shows_the_frame_that_waits() {
    let mut displayed = frame_of(' ');
    let redraw = install(&mut displayed, Some(frame_of('n')));
    assert!(redraw);
    assert_eq!(displayed, frame_of('n'));
}

#[test]
fn drain_without_new_frames_leaves_the_display_unchanged() {
    let mut displayed = GameState::default().to_display_string();
    let before = displayed.clone();
    for _ in 0..3 {
        let (pending, action) = drain(vec![Received::Empty]);
        assert_eq!(pending, None);
        assert_eq!(action, DrainAction::Stop);
        let redraw = install(&mut displayed, pending);
        assert!(!redraw);
        assert_eq!(displayed, before);
    }
    let (pending, action) = drain(vec![Received::Disconnected]);
    assert_eq!(action, DrainAction::Quit);
    assert!(!install(&mut displayed, pending));
    assert_eq!(displayed, before);
}

#[test]
fn frames_of_a_run_reach_the_display_newest_first() {
    let mut state = GameState::default();
    let mut displayed = state.to_display_string();
    let mut queue = Vec::new();
    for x in 1..4usize {
        state.view_port = ViewPort { x, y: 0 };
        queue.push(Received::Frame(state.to_display_string()));
    }
    queue.push(Received::Empty);
    let (pending, _) = drain(queue);
    assert!(install(&mut displayed, pending));
    assert_eq!(displayed, state.to_display_string());
    assert_eq!(displayed[3][0], '!');
}

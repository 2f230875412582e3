use pig_platformer::input::handle_event;
use pig_platformer::input::Event;
use pig_platformer::input::Key;
use pig_platformer::input::LoopState;
use pig_platformer::player::Player;

fn pressed(code: Key) -> Event {
    Event::KeyPressed { code }
}

fn released(code: Key) -> Event {
    Event::KeyReleased { code }
}

#[test]
fn pressing_a_holds_left() {
    let mut player = Player::new(100, 100);
    assert_eq!(handle_event(&mut player, pressed(Key::A)), LoopState::Running);
    let mut expected = Player::new(100, 100);
    expected.control_left = true;
    assert_eq!(player, expected);
}

#[test]
fn pressing_d_holds_right() {
    let mut player = Player::new(100, 100);
    assert_eq!(handle_event(&mut player, pressed(Key::D)), LoopState::Running);
    let mut expected = Player::new(100, 100);
    expected.control_right = true;
    assert_eq!(player, expected);
}

#[test]
fn pressing_w_holds_up() {
    let mut player = Player::new(100, 100);
    assert_eq!(handle_event(&mut player, pressed(Key::W)), LoopState::Running);
    let mut expected = Player::new(100, 100);
    expected.control_up = true;
    assert_eq!(player, expected);
}

#[test]
fn pressing_s_holds_down() {
    let mut player = Player::new(100, 100);
    assert_eq!(handle_event(&mut player, pressed(Key::S)), LoopState::Running);
    let mut expected = Player::new(100, 100);
    expected.control_down = true;
    assert_eq!(player, expected);
}

#[test]
fn pressing_space_holds_jump() {
    let mut player = Player::new(100, 100);
    assert_eq!(handle_event(&mut player, pressed(Key::Space)), LoopState::Running);
    let mut expected = Player::new(100, 100);
    expected.control_jump = true;
    assert_eq!(player, expected);
}

#[test]
fn releasing_a_key_releases_its_control_only() {
    let keys: Vec<Key> = vec![Key::A, Key::D, Key::W, Key::S, Key::Space];
    for key in keys {
        let mut player = Player::new(3, 4);
        player.control_left = true;
        player.control_right = true;
        player.control_up = true;
        player.control_down = true;
        player.control_jump = true;
        let mut expected = player;
        match key {
            Key::A => expected.control_left = false,
            Key::D => expected.control_right = false,
            Key::W => expected.control_up = false,
            Key::S => expected.control_down = false,
            _ => expected.control_jump = false,
        }
        assert_eq!(handle_event(&mut player, released(key)), LoopState::Running);
        assert_eq!(player, expected);
    }
}

#[test]
fn pressing_a_held_key_changes_nothing() {
    let mut player = Player::new(100, 100);
    handle_event(&mut player, pressed(Key::D));
    let before = player;
    assert_eq!(handle_event(&mut player, pressed(Key::D)), LoopState::Running);
    assert_eq!(player, before);
}

#[test]
fn releasing_a_released_key_changes_nothing() {
    let mut player = Player::new(100, 100);
    assert_eq!(handle_event(&mut player, released(Key::W)), LoopState::Running);
    assert_eq!(player, Player::new(100, 100));
}

#[test]
fn escape_pressed_closes_and_leaves_the_player() {
    let mut player = Player::new(100, 100);
    player.control_left = true;
    let before = player;
    assert_eq!(handle_event(&mut player, pressed(Key::Escape)), LoopState::Closing);
    assert_eq!(player, before);
}

#[test]
fn escape_released_is_ignored() {
    let mut player = Player::new(100, 100);
    player.control_jump = true;
    let before = player;
    assert_eq!(handle_event(&mut player, released(Key::Escape)), LoopState::Running);
    assert_eq!(player, before);
}

#[test]
fn close_request_closes_and_leaves_the_player() {
    let mut player = Player::new(100, 100);
    player.control_up = true;
    let before = player;
    assert_eq!(handle_event(&mut player, Event::Closed), LoopState::Closing);
    assert_eq!(player, before);
}

#[test]
fn unmapped_keys_are_ignored() {
    let mut player = Player::new(100, 100);
    player.control_down = true;
    let before = player;
    assert_eq!(handle_event(&mut player, pressed(Key::Other)), LoopState::Running);
    assert_eq!(player, before);
    assert_eq!(handle_event(&mut player, released(Key::Other)), LoopState::Running);
    assert_eq!(player, before);
}

#[test]
fn other_events_are_ignored() {
    let mut player = Player::new(100, 100);
    player.control_right = true;
    let before = player;
    assert_eq!(handle_event(&mut player, Event::Other), LoopState::Running);
    assert_eq!(player, before);
}

#[test]
fn events_never_move_the_player() {
    let events: Vec<Event> = vec![
        pressed(Key::A),
        pressed(Key::W),
        released(Key::A),
        pressed(Key::Space),
        Event::Other,
        pressed(Key::S),
    ];
    let mut player = Player::new(-5, 9);
    for event in events {
        handle_event(&mut player, event);
        assert_eq!(player.position.x, -5);
        assert_eq!(player.position.y, 9);
    }
    assert!(!player.control_left);
    assert!(player.control_up);
    assert!(player.control_down);
    assert!(player.control_jump);
}

#[test]
fn held_keys_steer_the_next_update() {
    let mut player = Player::new(100, 100);
    handle_event(&mut player, pressed(Key::W));
    handle_event(&mut player, pressed(Key::A));
    player.move_player(16);
    assert_eq!(player.position.x, 99);
    assert_eq!(player.position.y, 99);
    handle_event(&mut player, released(Key::W));
    handle_event(&mut player, pressed(Key::D));
    player.move_player(16);
    assert_eq!(player.position.x, 99);
    assert_eq!(player.position.y, 99);
    handle_event(&mut player, released(Key::A));
    player.move_player(16);
    assert_eq!(player.position.x, 100);
    assert_eq!(player.position.y, 99);
}

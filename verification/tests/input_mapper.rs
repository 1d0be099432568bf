use bevy::input::keyboard::KeyCode;
use bevy::input::Input;
use roll_a_ball::keys::KeyState;
use roll_a_ball::player::player_input;
use roll_a_ball::player::PlayerState;
use roll_a_ball::player::DEFAULT_SPEED;
use roll_a_ball::vector::Vec3;

fn keys(a: bool, d: bool, s: bool, w: bool) -> KeyState {
    KeyState { a, d, s, w }
}

/// The direction that the highest-priority key of `k` commands.
fn by_priority(k: KeyState, current: Vec3) -> Vec3 {
    if k.w {
        Vec3::new(0, 0, -1)
    } else if k.s {
        Vec3::new(0, 0, 1)
    } else if k.d {
        Vec3::new(1, 0, 0)
    } else if k.a {
        Vec3::new(-1, 0, 0)
    } else {
        current
    }
}

fn all_key_states() -> Vec<KeyState> {
    let mut states: Vec<KeyState> = Vec::new();
    for bits in 0u8..16 {
        states.push(keys(bits & 1 != 0, bits & 2 != 0, bits & 4 != 0, bits & 8 != 0));
    }
    states
}

#[test]
fn new_player_heads_nowhere_at_default_speed() {
    let player = PlayerState::new();
    assert_eq!(player.direction(), Vec3::new(0, 0, 0));
    assert_eq!(player.speed(), 5000);
    assert_eq!(DEFAULT_SPEED, 5000);
}

#[test]
fn with_speed_sets_the_speed_only() {
    let player = PlayerState::with_speed(-42);
    assert_eq!(player.direction(), Vec3::new(0, 0, 0));
    assert_eq!(player.speed(), -42);
}

#[test]
fn a_alone_heads_down_the_x_axis() {
    let mut player = PlayerState::new();
    player_input(&mut player, keys(true, false, false, false));
    assert_eq!(player.direction(), Vec3::new(-1, 0, 0));
}

#[test]
fn d_alone_heads_up_the_x_axis() {
    let mut player = PlayerState::new();
    player_input(&mut player, keys(false, true, false, false));
    assert_eq!(player.direction(), Vec3::new(1, 0, 0));
}

#[test]
fn s_alone_heads_up_the_z_axis() {
    let mut player = PlayerState::new();
    player_input(&mut player, keys(false, false, true, false));
    assert_eq!(player.direction(), Vec3::new(0, 0, 1));
}

#[test]
fn w_alone_heads_down_the_z_axis() {
    let mut player = PlayerState::new();
    player_input(&mut player, keys(false, false, false, true));
    assert_eq!(player.direction(), Vec3::new(0, 0, -1));
}

#[test]
fn a_and_d_in_one_tick_give_d() {
    let mut player = PlayerState::new();
    player_input(&mut player, keys(true, true, false, false));
    assert_eq!(player.direction(), Vec3::new(1, 0, 0));
}

#[test]
fn w_beats_every_other_key() {
    let mut player = PlayerState::new();
    player_input(&mut player, keys(true, true, true, true));
    assert_eq!(player.direction(), Vec3::new(0, 0, -1));
}

#[test]
fn s_beats_d_and_a() {
    let mut player = PlayerState::new();
    player_input(&mut player, keys(true, true, true, false));
    assert_eq!(player.direction(), Vec3::new(0, 0, 1));
}

#[test]
fn w_and_d_never_give_a_diagonal() {
    let mut player = PlayerState::new();
    player_input(&mut player, keys(false, true, false, true));
    assert_eq!(player.direction(), Vec3::new(0, 0, -1));
}

#[test]
fn no_key_keeps_the_direction() {
    let mut player = PlayerState::new();
    player_input(&mut player, KeyState::none());
    assert_eq!(player.direction(), Vec3::new(0, 0, 0));
    player_input(&mut player, keys(false, false, false, true));
    player_input(&mut player, KeyState::none());
    assert_eq!(player.direction(), Vec3::new(0, 0, -1));
    player_input(&mut player, KeyState::none());
    assert_eq!(player.direction(), Vec3::new(0, 0, -1));
}

#[test]
fn none_has_no_key_down() {
    assert_eq!(KeyState::none(), keys(false, false, false, false));
}

#[test]
fn every_combination_follows_the_priority() {
    for start in all_key_states() {
        for pressed in all_key_states() {
            let mut player = PlayerState::new();
            player_input(&mut player, start);
            let before: Vec3 = player.direction();
            player_input(&mut player, pressed);
            assert_eq!(player.direction(), by_priority(pressed, before));
        }
    }
}

#[test]
fn direction_is_always_an_axis_or_zero() {
    let headings: Vec<Vec3> = vec![
        Vec3::new(0, 0, 0),
        Vec3::new(1, 0, 0),
        Vec3::new(-1, 0, 0),
        Vec3::new(0, 0, 1),
        Vec3::new(0, 0, -1),
    ];
    let mut player = PlayerState::new();
    for pressed in all_key_states() {
        player_input(&mut player, pressed);
        assert!(headings.contains(&player.direction()));
    }
}

#[test]
fn input_leaves_the_speed_alone() {
    let mut player = PlayerState::with_speed(1234);
    for pressed in all_key_states() {
        player_input(&mut player, pressed);
        assert_eq!(player.speed(), 1234);
    }
}

#[test]
fn read_of_an_idle_keyboard_is_empty() {
    let input: Input<KeyCode> = Input::default();
    assert_eq!(KeyState::read(&input), KeyState::none());
}

#[test]
fn read_sees_each_steering_key() {
    let mut input: Input<KeyCode> = Input::default();
    input.press(KeyCode::A);
    assert_eq!(KeyState::read(&input), keys(true, false, false, false));
    input.press(KeyCode::W);
    assert_eq!(KeyState::read(&input), keys(true, false, false, true));
    input.press(KeyCode::S);
    input.press(KeyCode::D);
    assert_eq!(KeyState::read(&input), keys(true, true, true, true));
}

#[test]
fn read_forgets_a_released_key() {
    let mut input: Input<KeyCode> = Input::default();
    input.press(KeyCode::D);
    input.press(KeyCode::S);
    input.release(KeyCode::S);
    assert_eq!(KeyState::read(&input), keys(false, true, false, false));
}

#[test]
fn read_keeps_a_held_key_over_frames() {
    let mut input: Input<KeyCode> = Input::default();
    input.press(KeyCode::W);
    input.clear();
    assert_eq!(KeyState::read(&input), keys(false, false, false, true));
}

#[test]
fn read_ignores_other_keys() {
    let mut input: Input<KeyCode> = Input::default();
    input.press(KeyCode::Up);
    input.press(KeyCode::Q);
    input.press(KeyCode::Space);
    assert_eq!(KeyState::read(&input), KeyState::none());
}

#[test]
fn pressing_a_then_d_on_the_keyboard_gives_d() {
    let mut input: Input<KeyCode> = Input::default();
    input.press(KeyCode::A);
    input.press(KeyCode::D);
    let mut player = PlayerState::new();
    player_input(&mut player, KeyState::read(&input));
    assert_eq!(player.direction(), Vec3::new(1, 0, 0));
}

#[test]
fn releasing_the_last_key_lets_the_player_drift() {
    let mut input: Input<KeyCode> = Input::default();
    let mut player = PlayerState::new();
    input.press(KeyCode::S);
    player_input(&mut player, KeyState::read(&input));
    input.release(KeyCode::S);
    player_input(&mut player, KeyState::read(&input));
    assert_eq!(player.direction(), Vec3::new(0, 0, 1));
}

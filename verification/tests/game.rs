use flappy_donkey::game::{GameMode, Key, State};
use flappy_donkey::player::Player;
use flappy_donkey::FRAME_DURATION;

#[test]
fn new_game_starts_on_the_menu() {
    let s = State::new();
    assert_eq!(s.mode, GameMode::Menu);
    assert_eq!(s.player, Player { x: 5, y: 25, velocity: 0 });
    assert_eq!(s.frame_time, 0);
    assert_eq!(s.score, 0);
    assert_eq!(s.obstacle.x, 80);
    assert_eq!(s.obstacle.gap_y, 10);
    assert_eq!(s.obstacle.size, 20);
}

#[test]
fn menu_ignores_every_key_but_p_and_q() {
    let mut s = State::new();
    let before = s;
    assert!(!s.tick(0, None));
    assert_eq!(s, before);
    assert!(!s.tick(0, Some(Key::Space)));
    assert_eq!(s, before);
    assert!(!s.tick(0, Some(Key::Other)));
    assert_eq!(s, before);
}

#[test]
fn menu_q_quits_and_touches_nothing() {
    let mut s = State::new();
    let before = s;
    assert!(s.tick(0, Some(Key::Q)));
    assert_eq!(s, before);
}

#[test]
fn menu_p_starts_playing() {
    let mut s = State::new();
    assert!(!s.tick(0, Some(Key::P)));
    assert_eq!(s.mode, GameMode::Playing);
    assert_eq!(s.player, Player { x: 5, y: 25, velocity: 0 });
    assert_eq!(s.frame_time, 0);
}

#[test]
fn end_screen_has_the_menu_choices() {
    let mut s = State::new();
    s.mode = GameMode::End;
    s.player = Player { x: 9, y: 52, velocity: 10 };
    let before = s;
    assert!(!s.tick(0, None));
    assert_eq!(s, before);
    assert!(!s.tick(0, Some(Key::Space)));
    assert_eq!(s, before);
    assert!(s.tick(0, Some(Key::Q)));
    assert_eq!(s, before);
}

#[test]
fn restart_from_end_keeps_the_score() {
    let mut s = State::new();
    s.mode = GameMode::End;
    s.player = Player { x: 9, y: 52, velocity: 10 };
    s.frame_time = 300;
    s.score = 3;
    assert!(!s.tick(0, Some(Key::P)));
    assert_eq!(s.mode, GameMode::Playing);
    assert_eq!(s.player, Player { x: 5, y: 25, velocity: 0 });
    assert_eq!(s.frame_time, 0);
    assert_eq!(s.score, 3);
}

#[test]
fn short_frames_only_accumulate() {
    let mut s = State::new();
    s.tick(0, Some(Key::P));
    assert!(!s.tick(400, None));
    assert_eq!(s.frame_time, 400);
    assert_eq!(s.player, Player { x: 5, y: 25, velocity: 0 });
}

#[test]
fn accumulated_time_runs_one_step() {
    let mut s = State::new();
    s.tick(0, Some(Key::P));
    s.tick(400, None);
    // 400 + 400 exceeds the 750 tenth-millisecond step: the accumulator
    // resets and one physics step runs.
    assert!(!s.tick(400, None));
    assert_eq!(s.frame_time, 0);
    assert_eq!(s.player, Player { x: 6, y: 25, velocity: 1 });
}

#[test]
fn exactly_the_step_bound_does_not_step() {
    let mut s = State::new();
    s.tick(0, Some(Key::P));
    assert!(!s.tick(FRAME_DURATION, None));
    assert_eq!(s.frame_time, FRAME_DURATION);
    assert_eq!(s.player, Player { x: 5, y: 25, velocity: 0 });
}

#[test]
fn space_flaps_at_once_without_a_step() {
    let mut s = State::new();
    s.tick(0, Some(Key::P));
    assert!(!s.tick(0, Some(Key::Space)));
    assert_eq!(s.player.velocity, -10);
    assert_eq!(s.player.y, 25);
    assert_eq!(s.player.x, 5);
    assert_eq!(s.mode, GameMode::Playing);
}

#[test]
fn falling_past_the_bottom_ends_the_life() {
    let mut s = State::new();
    s.tick(0, Some(Key::P));
    s.player = Player { x: 9, y: 49, velocity: 10 };
    // One step at full speed pushes the row to 51, past the 50-row
    // screen: the mode flips to End in the same frame.
    assert!(!s.tick(800, None));
    assert_eq!(s.player.y, 51);
    assert_eq!(s.mode, GameMode::End);
}

#[test]
fn landing_on_the_last_row_keeps_playing() {
    let mut s = State::new();
    s.tick(0, Some(Key::P));
    s.player = Player { x: 9, y: 48, velocity: 10 };
    assert!(!s.tick(800, None));
    assert_eq!(s.player.y, 50);
    assert_eq!(s.mode, GameMode::Playing);
}

#[test]
fn quit_has_no_effect_while_playing() {
    let mut s = State::new();
    s.tick(0, Some(Key::P));
    assert!(!s.tick(0, Some(Key::Q)));
    assert_eq!(s.mode, GameMode::Playing);
}

#[test]
fn well_formedness_is_what_tick_keeps() {
    let mut s = State::new();
    assert!(s.is_well_formed());
    s.tick(0, Some(Key::P));
    assert!(s.is_well_formed());
    for _ in 0..100 {
        s.tick(800, Some(Key::Space));
        assert!(s.is_well_formed());
    }
    let mut bad = State::new();
    bad.player.velocity = 11;
    assert!(!bad.is_well_formed());
}

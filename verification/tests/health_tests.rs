use breaker::app_state::AppStateTransition;
use breaker::blink::{blink, Blinking, BLINK_DURATION};
use breaker::health::{health_handler, Health, PlayerMessage, PLAYER_STARTING_HEALTH};
use breaker::sound::play_collision_sound;
use breaker::world::{Ball, Paddle};

#[test]
fn lost_life_costs_a_point_and_starts_the_blinking() {
    let mut requests = Vec::new();
    let mut health = Health(PLAYER_STARTING_HEALTH);
    let mut paddle = Paddle::new();
    let mut ball = Ball::new();
    health_handler(
        &mut requests,
        &vec![PlayerMessage::JustLostHealth],
        &mut health,
        &mut paddle,
        &mut ball,
    );
    assert_eq!(health, Health(2));
    assert_eq!(paddle.blinking, Some(Blinking { elapsed: 0, duration: 1_000_000 }));
    assert_eq!(ball.blinking, Some(Blinking { elapsed: 0, duration: 1_000_000 }));
    assert!(requests.is_empty());

    // a second message while the paddle blinks is dropped
    health_handler(
        &mut requests,
        &vec![PlayerMessage::JustLostHealth],
        &mut health,
        &mut paddle,
        &mut ball,
    );
    assert_eq!(health, Health(2));
    assert!(requests.is_empty());
}

#[test]
fn messages_behind_the_first_are_dropped() {
    let mut requests = Vec::new();
    let mut health = Health(3);
    let mut paddle = Paddle::new();
    let mut ball = Ball::new();
    let messages = vec![PlayerMessage::JustLostHealth; 3];
    health_handler(&mut requests, &messages, &mut health, &mut paddle, &mut ball);
    assert_eq!(health, Health(2));
    assert!(requests.is_empty());
}

#[test]
fn no_message_changes_nothing() {
    let mut requests = vec![AppStateTransition::ToExit];
    let mut health = Health(3);
    let mut paddle = Paddle::new();
    let mut ball = Ball::new();
    health_handler(&mut requests, &Vec::new(), &mut health, &mut paddle, &mut ball);
    assert_eq!(health, Health(3));
    assert_eq!(paddle, Paddle::new());
    assert_eq!(ball, Ball::new());
    assert_eq!(requests, vec![AppStateTransition::ToExit]);
}

#[test]
fn lost_life_without_health_asks_for_the_menu() {
    let mut requests = vec![AppStateTransition::ToInGame];
    let mut health = Health(1);
    let mut paddle = Paddle::new();
    let mut ball = Ball::new();
    health_handler(
        &mut requests,
        &vec![PlayerMessage::JustLostHealth],
        &mut health,
        &mut paddle,
        &mut ball,
    );
    assert_eq!(health, Health(0));
    // the blink window runs out
    blink(&mut paddle.blinking, &mut paddle.visible, BLINK_DURATION);
    blink(&mut ball.blinking, &mut ball.visible, BLINK_DURATION);
    assert_eq!(paddle.blinking, None);

    health_handler(
        &mut requests,
        &vec![PlayerMessage::JustLostHealth],
        &mut health,
        &mut paddle,
        &mut ball,
    );
    assert_eq!(health, Health(0));
    assert_eq!(requests, vec![AppStateTransition::ToInGame, AppStateTransition::ToMainMenu]);
    assert_eq!(paddle.blinking, None);
    assert_eq!(ball.blinking, None);

    health_handler(
        &mut requests,
        &vec![PlayerMessage::JustLostHealth; 2],
        &mut health,
        &mut paddle,
        &mut ball,
    );
    assert_eq!(requests.len(), 4);
    assert_eq!(requests[3], AppStateTransition::ToMainMenu);
}

#[test]
fn blink_window_counts_up_to_its_duration() {
    let mut window = Blinking::new(1_000_000);
    assert!(!window.is_finished());
    window.tick(400_000);
    assert_eq!(window, Blinking { elapsed: 400_000, duration: 1_000_000 });
    window.tick(599_999);
    assert_eq!(window.elapsed, 999_999);
    assert!(!window.is_finished());
    window.tick(u64::MAX);
    assert_eq!(window.elapsed, 1_000_000);
    assert!(window.is_finished());
    window.tick(5);
    assert_eq!(window.elapsed, 1_000_000);
}

#[test]
fn blink_shows_and_hides_in_turn() {
    // shown while the rest of the window, within its fifth, is at most half a fifth
    let shown_at = |elapsed: u64| Blinking { elapsed, duration: 1_000_000 }.is_shown();
    assert!(shown_at(0));
    assert!(!shown_at(1));
    assert!(!shown_at(50_000));
    assert!(!shown_at(99_999));
    assert!(shown_at(100_000));
    assert!(shown_at(150_000));
    assert!(shown_at(200_000));
    assert!(!shown_at(200_001));
    assert!(!shown_at(250_000));
    assert!(shown_at(350_000));
    assert!(!shown_at(850_000));
    assert!(shown_at(950_000));
    assert!(shown_at(1_000_000));
    // ten changes over the window
    let mut changes = 0;
    let mut last = shown_at(0);
    for elapsed in 1..=1_000_000u64 {
        let now = shown_at(elapsed);
        if now != last {
            changes += 1;
        }
        last = now;
    }
    assert_eq!(changes, 10);
}

#[test]
fn blink_runs_and_ends() {
    let mut blinking = Some(Blinking::new(1_000_000));
    let mut visible = true;
    blink(&mut blinking, &mut visible, 50_000);
    assert_eq!(blinking, Some(Blinking { elapsed: 50_000, duration: 1_000_000 }));
    assert!(!visible);
    blink(&mut blinking, &mut visible, 100_000);
    assert_eq!(blinking, Some(Blinking { elapsed: 150_000, duration: 1_000_000 }));
    assert!(visible);
    blink(&mut blinking, &mut visible, 100_000);
    assert!(!visible);
    blink(&mut blinking, &mut visible, 750_000);
    assert_eq!(blinking, None);
    assert!(visible);
}

#[test]
fn blink_without_a_window() {
    let mut blinking = None;
    let mut visible = false;
    blink(&mut blinking, &mut visible, 50_000);
    assert_eq!(blinking, None);
    assert!(!visible);
}

#[test]
fn blink_with_an_empty_window() {
    let mut blinking = Some(Blinking::new(0));
    let mut visible = false;
    blink(&mut blinking, &mut visible, 0);
    assert_eq!(blinking, None);
    assert!(visible);
}

#[test]
fn sound_waits_between_two_plays() {
    let mut delay = 0;
    assert!(!play_collision_sound(&mut delay, true, 50_000));
    assert_eq!(delay, 50_000);
    assert!(!play_collision_sound(&mut delay, false, 49_999));
    assert_eq!(delay, 99_999);
    assert!(play_collision_sound(&mut delay, true, 1));
    assert_eq!(delay, 0);
    assert!(!play_collision_sound(&mut delay, true, 99_999));
    assert!(!play_collision_sound(&mut delay, false, 1_000_000));
    assert_eq!(delay, 1_099_999);
    assert!(play_collision_sound(&mut delay, true, 0));
    assert_eq!(delay, 0);
}

#[test]
fn sound_delay_stops_at_the_largest_value() {
    let mut delay = u64::MAX - 5;
    assert!(!play_collision_sound(&mut delay, false, 10));
    assert_eq!(delay, u64::MAX);
    assert!(play_collision_sound(&mut delay, true, 10));
    assert_eq!(delay, 0);
}

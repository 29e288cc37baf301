use vstd::prelude::*;
use crate::app_state::AppStateTransition;
use crate::blink::{Blinking, BLINK_DURATION};
use crate::world::{Ball, Paddle};

verus! {

/// The health that a player starts with.
pub const PLAYER_STARTING_HEALTH: usize = 3;

/// The player's health. At zero the player is dead.
#[derive(Clone, Copy, Debug, PartialEq, Eq, Structural)]
pub struct Health(pub usize);

/// What the physics reports of the player.
#[derive(Clone, Copy, Debug, PartialEq, Eq, Structural)]
pub enum PlayerMessage {
    /// The ball has gone through the bottom of the arena.
    JustLostHealth,
}

/// The blink window that a lost life starts.
pub open spec fn fresh_blink() -> Blinking {
    Blinking { elapsed: 0, duration: BLINK_DURATION }
}

/// `count` requests to go back to the main menu.
pub open spec fn menu_requests(count: nat) -> Seq<AppStateTransition> {
    Seq::new(count, |i: int| AppStateTransition::ToMainMenu)
}

/// The messages cost the player a point of health: there is one, the
/// paddle does not blink, and there is health to lose.
pub open spec fn loses_health(messages: nat, health: Health, paddle: Paddle) -> bool {
    messages > 0 && paddle.blinking is None && health.0 > 0
}

/// How many times the messages ask for the main menu: once each, when
/// the paddle does not blink and no health is left.
pub open spec fn asks_for_menu(messages: nat, health: Health, paddle: Paddle) -> nat {
    if paddle.blinking is None && health.0 == 0 {
        messages
    } else {
        0
    }
}

/// Handles the lives lost since the last call, one message each.
///
/// While the paddle blinks the player cannot be hurt: with a blinking
/// paddle every message is dropped. Otherwise a player who still has
/// health loses one point, and paddle and ball start to blink, so
/// that the messages behind the first are dropped. A player
/// without health loses none: each message asks for the main menu
/// instead, and nothing starts to blink.
pub fn health_handler(
    state_msgs: &mut Vec<AppStateTransition>,
    player_msgs: &Vec<PlayerMessage>,
    health: &mut Health,
    paddle: &mut Paddle,
    ball: &mut Ball,
)
    ensures
        final(health).0 == (if loses_health(player_msgs@.len(), *old(health), *old(paddle)) {
            old(health).0 - 1
        } else {
            old(health).0 as int
        }),
        *final(paddle) == (if loses_health(player_msgs@.len(), *old(health), *old(paddle)) {
            Paddle { blinking: Some(fresh_blink()), ..*old(paddle) }
        } else {
            *old(paddle)
        }),
        *final(ball) == (if loses_health(player_msgs@.len(), *old(health), *old(paddle)) {
            Ball { blinking: Some(fresh_blink()), ..*old(ball) }
        } else {
            *old(ball)
        }),
        final(state_msgs)@ == old(state_msgs)@ + menu_requests(
            asks_for_menu(player_msgs@.len(), *old(health), *old(paddle)),
        ),
{
    let n: usize = player_msgs.len();
    let mut i: usize = 0;
    assert(old(state_msgs)@ + menu_requests(0) == old(state_msgs)@);
    while i < n
        invariant
            i <= n,
            n == player_msgs@.len(),
            health.0 == (if loses_health(i as nat, *old(health), *old(paddle)) {
                old(health).0 - 1
            } else {
                old(health).0 as int
            }),
            *paddle == (if loses_health(i as nat, *old(health), *old(paddle)) {
                Paddle { blinking: Some(fresh_blink()), ..*old(paddle) }
            } else {
                *old(paddle)
            }),
            *ball == (if loses_health(i as nat, *old(health), *old(paddle)) {
                Ball { blinking: Some(fresh_blink()), ..*old(ball) }
            } else {
                *old(ball)
            }),
            state_msgs@ == old(state_msgs)@ + menu_requests(
                asks_for_menu(i as nat, *old(health), *old(paddle)),
            ),
        decreases n - i,
    {
        match player_msgs[i] {
            PlayerMessage::JustLostHealth => {
                if paddle.blinking.is_none() {
                    if health.0 == 0 {
                        state_msgs.push(AppStateTransition::ToMainMenu);
                        assert(old(state_msgs)@ + menu_requests((i + 1) as nat) == (old(
                            state_msgs,
                        )@ + menu_requests(i as nat)).push(AppStateTransition::ToMainMenu));
                    } else {
                        health.0 = health.0 - 1;
                        paddle.blinking = Some(Blinking::new(BLINK_DURATION));
                        ball.blinking = Some(Blinking::new(BLINK_DURATION));
                    }
                }
            },
        }
        i = i + 1;
    }
}

} // verus!

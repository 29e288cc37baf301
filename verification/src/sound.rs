use vstd::prelude::*;

verus! {

/// The least time between two collision sounds, in microseconds.
pub const COLLISION_SOUND_DELAY: u64 = 100_000;

/// The time waited since the last sound after `delta` more
/// microseconds. The count stops at the largest `u64`.
pub open spec fn waited(delay: u64, delta: u64) -> u64 {
    if delay + delta > u64::MAX {
        u64::MAX
    } else {
        (delay + delta) as u64
    }
}

/// Decides, once per frame, whether the collision sound is to be
/// played. `delay` is the time since the sound was last played,
/// `delta` the length of the frame, and `collided` tells whether the
/// ball has bounced since the last call. The sound is played when the
/// ball has bounced and at least `COLLISION_SOUND_DELAY` has gone by;
/// the count of the time then starts again.
pub fn play_collision_sound(delay: &mut u64, collided: bool, delta: u64) -> (play: bool)
    ensures
        play == (collided && waited(*old(delay), delta) >= COLLISION_SOUND_DELAY),
        *final(delay) == (if play {
            0
        } else {
            waited(*old(delay), delta)
        }),
{
    *delay = delay.saturating_add(delta);
    if collided && *delay >= COLLISION_SOUND_DELAY {
        *delay = 0;
        return true;
    }
    false
}

} // verus!

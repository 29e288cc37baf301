use vstd::prelude::*;

verus! {

/// How long the window after a lost life lasts, in microseconds.
pub const BLINK_DURATION: u64 = 1_000_000;

/// Into how many equal cycles a blink window is divided; an entity is
/// hidden for one half of each cycle and shown for the other.
pub const BLINK_CYCLES: u64 = 5;

/// A running blink window: a countdown, in microseconds, during which
/// its entity flickers and the player cannot be hurt again.
#[derive(Clone, Copy, Debug, PartialEq, Eq, Structural)]
pub struct Blinking {
    pub elapsed: u64,
    pub duration: u64,
}

impl Blinking {
    /// The window has run its whole duration.
    pub open spec fn finished(self) -> bool {
        self.elapsed >= self.duration
    }

    /// The time the window still has to run.
    pub open spec fn remaining(self) -> int {
        if self.finished() {
            0
        } else {
            self.duration - self.elapsed
        }
    }

    /// The window after `delta` more microseconds: the elapsed time
    /// grows by `delta` and stops at the duration. A finished window
    /// stays as it is.
    pub open spec fn ticked(self, delta: u64) -> Blinking {
        if self.finished() {
            self
        } else if self.elapsed + delta >= self.duration {
            Blinking { elapsed: self.duration, duration: self.duration }
        } else {
            Blinking { elapsed: (self.elapsed + delta) as u64, duration: self.duration }
        }
    }

    /// Whether the entity shows at this point of the window. With `r`
    /// the part of the window that remains, as a fraction of the
    /// whole, the entity shows while the remainder of `r` modulo one
    /// cycle is at most half a cycle: `(5 r) mod 1 <= 1/2`, written
    /// without fractions. A finished window shows its entity.
    pub open spec fn shows(self) -> bool {
        self.finished() || 2 * ((BLINK_CYCLES * self.remaining()) % (self.duration as int))
            <= self.duration
    }

    /// A window of `duration` microseconds of which none has passed.
    pub fn new(duration: u64) -> (b: Blinking)
        ensures
            b == (Blinking { elapsed: 0, duration }),
    {
        Blinking { elapsed: 0, duration }
    }

    pub fn is_finished(&self) -> (r: bool)
        ensures
            r == self.finished(),
    {
        self.elapsed >= self.duration
    }

    /// Advances the window by `delta` microseconds.
    pub fn tick(&mut self, delta: u64)
        ensures
            *final(self) == old(self).ticked(delta),
    {
        if self.elapsed < self.duration {
            if delta >= self.duration - self.elapsed {
                self.elapsed = self.duration;
            } else {
                self.elapsed = self.elapsed + delta;
            }
        }
    }

    pub fn is_shown(&self) -> (r: bool)
        ensures
            r == self.shows(),
    {
        if self.elapsed >= self.duration {
            return true;
        }
        let remaining: u128 = (self.duration - self.elapsed) as u128;
        let whole: u128 = self.duration as u128;
        let cycles: u128 = BLINK_CYCLES as u128;
        assert(cycles * remaining <= 5 * u64::MAX) by (nonlinear_arith)
            requires
                cycles == 5,
                remaining <= u64::MAX,
        ;
        let phase: u128 = (cycles * remaining) % whole;
        2 * phase <= whole
    }
}

/// The blink window and the visibility of an entity after `delta`
/// more microseconds. An entity without a window is left alone.
/// Otherwise the window advances; if that ends it, the window is
/// taken away and the entity shown; if not, the entity is shown or
/// hidden as the window says.
pub open spec fn blinked(blinking: Option<Blinking>, visible: bool, delta: u64) -> (
    Option<Blinking>,
    bool,
) {
    match blinking {
        None => (None, visible),
        Some(window) => {
            let after = window.ticked(delta);
            if after.finished() {
                (None, true)
            } else {
                (Some(after), after.shows())
            }
        },
    }
}

/// Runs the blink window of one entity for `delta` microseconds.
pub fn blink(blinking: &mut Option<Blinking>, visible: &mut bool, delta: u64)
    ensures
        (*final(blinking), *final(visible)) == blinked(*old(blinking), *old(visible), delta),
{
    match blinking {
        None => {},
        Some(window) => {
            let mut t: Blinking = *window;
            t.tick(delta);
            if t.is_finished() {
                *blinking = None;
                *visible = true;
            } else {
                *visible = t.is_shown();
                *blinking = Some(t);
            }
        },
    }
}

/// However much time passes at once, a window that has just ended
/// leaves its entity shown, and one that goes on has not reached its
/// duration.
pub proof fn lemma_blink_ends_shown(b: Blinking, delta: u64)
    ensures
        b.ticked(delta).finished() ==> b.ticked(delta).shows(),
        !b.ticked(delta).finished() ==> b.ticked(delta).elapsed == b.elapsed + delta,
        b.ticked(delta).duration == b.duration,
{
}

} // verus!

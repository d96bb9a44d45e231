use vstd::prelude::*;
use crate::frame::stamp;
use crate::frame::Drawable;
use crate::frame::Frame;
use crate::timer::Timer;
use crate::EXPLOSION_MS;
use crate::NUM_COLS;
use crate::NUM_ROWS;
use crate::SHOT_STEP_MS;

verus! {

/// A projectile the player fired: it climbs one row every `SHOT_STEP_MS`
/// milliseconds until it reaches the top row or explodes on an invader.
#[derive(Clone, Copy, Debug, PartialEq, Eq, Structural)]
pub struct Shot {
    pub x: usize,
    pub y: usize,
    pub exploding: bool,
    pub timer: Timer,
}

impl Shot {
    /// The value of a freshly fired shot at the given cell.
    pub open spec fn fresh(x: usize, y: usize) -> Shot {
        Shot {
            x,
            y,
            exploding: false,
            timer: Timer { duration_ms: SHOT_STEP_MS, remaining_ms: SHOT_STEP_MS },
        }
    }

    pub open spec fn wf(&self) -> bool {
        &&& self.x < NUM_COLS
        &&& self.y < NUM_ROWS
    }

    /// The shot after `delta_ms` milliseconds: the timer advances, and when
    /// it fires on a shot that is not exploding, the shot climbs one row
    /// (stopping at the top) and the timer starts over.
    pub open spec fn after_update(self, delta_ms: u64) -> Shot {
        let t = self.timer.ticked(delta_ms);
        if t.spec_finished() && !self.exploding {
            Shot {
                x: self.x,
                y: if self.y > 0 { (self.y - 1) as usize } else { 0 },
                exploding: self.exploding,
                timer: t.restarted(),
            }
        } else {
            Shot { x: self.x, y: self.y, exploding: self.exploding, timer: t }
        }
    }

    /// The shot once its explosion animation starts.
    pub open spec fn after_explode(self) -> Shot {
        Shot {
            x: self.x,
            y: self.y,
            exploding: true,
            timer: Timer { duration_ms: EXPLOSION_MS, remaining_ms: EXPLOSION_MS },
        }
    }

    /// A shot is gone once its explosion animation has finished, or once it
    /// has reached the top row.
    pub open spec fn spec_dead(&self) -> bool {
        (self.timer.spec_finished() && self.exploding) || self.y == 0
    }

    pub fn new(x: usize, y: usize) -> (s: Shot)
        ensures
            s == Shot::fresh(x, y),
    {
        Shot { x, y, exploding: false, timer: Timer::new(SHOT_STEP_MS) }
    }

    /// Advance the shot by `delta_ms` milliseconds of elapsed time.
    pub fn update(&mut self, delta_ms: u64)
        ensures
            *final(self) == old(self).after_update(delta_ms),
            old(self).wf() ==> final(self).wf(),
    {
        self.timer.tick(delta_ms);
        if self.timer.finished() && !self.exploding {
            if self.y > 0 {
                self.y -= 1;
            }
            self.timer.reset();
        }
    }

    /// Start the explosion animation: the shot stops moving and dies once the
    /// explosion timer fires.
    pub fn explode(&mut self)
        ensures
            *final(self) == old(self).after_explode(),
    {
        self.exploding = true;
        self.timer = Timer::new(EXPLOSION_MS);
    }

    #[verifier::when_used_as_spec(spec_dead)]
    pub fn dead(&self) -> (r: bool)
        ensures
            r == self.spec_dead(),
    {
        (self.timer.finished() && self.exploding) || self.y == 0
    }
}

impl Drawable for Shot {
    open spec fn draw_spec(&self, g: Seq<Seq<char>>) -> Seq<Seq<char>> {
        stamp(g, self.x as int, self.y as int, if self.exploding { '*' } else { '|' })
    }

    open spec fn drawable(&self) -> bool {
        self.wf()
    }

    fn draw(&self, frame: &mut Frame) {
        frame.set(self.x, self.y, if self.exploding { '*' } else { '|' });
    }
}

} // verus!

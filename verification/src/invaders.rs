use vstd::prelude::*;
use crate::frame::stamp;
use crate::frame::Drawable;
use crate::frame::Frame;
use crate::rng::random_below;
use crate::timer::Timer;
use crate::EXPLOSION_MS;
use crate::INVADER_STEP_MS;
use crate::NUM_COLS;
use crate::NUM_ROWS;

verus! {

/// A descending enemy: it drops one row every `INVADER_STEP_MS` milliseconds
/// until it explodes or walks off the bottom of the grid. A row of
/// `NUM_ROWS` is the off-grid sentinel: such an invader is dead.
#[derive(Clone, Copy, Debug, PartialEq, Eq, Structural)]
pub struct Invader {
    pub x: usize,
    pub y: usize,
    pub exploding: bool,
    pub timer: Timer,
}

impl Invader {
    /// The value of a freshly spawned invader on the top row of column `x`.
    pub open spec fn fresh(x: usize) -> Invader {
        Invader {
            x,
            y: 0,
            exploding: false,
            timer: Timer { duration_ms: INVADER_STEP_MS, remaining_ms: INVADER_STEP_MS },
        }
    }

    /// The invader once its explosion animation starts.
    pub open spec fn after_explode(self) -> Invader {
        Invader {
            x: self.x,
            y: self.y,
            exploding: true,
            timer: Timer { duration_ms: EXPLOSION_MS, remaining_ms: EXPLOSION_MS },
        }
    }

    pub open spec fn wf(&self) -> bool {
        &&& self.x < NUM_COLS
        &&& self.y <= NUM_ROWS
    }

    /// The invader one descent step later: one row down, stopping at the
    /// off-grid sentinel row `NUM_ROWS`.
    pub open spec fn after_move_down(self) -> Invader {
        if self.y < NUM_ROWS {
            Invader { x: self.x, y: (self.y + 1) as usize, exploding: self.exploding, timer: self.timer }
        } else {
            self
        }
    }

    /// The invader after `delta_ms` milliseconds: the timer advances, and
    /// when it fires on an invader that is not exploding, the invader
    /// descends one row and the timer starts over.
    pub open spec fn after_update(self, delta_ms: u64) -> Invader {
        let t = self.timer.ticked(delta_ms);
        if t.spec_finished() && !self.exploding {
            Invader {
                x: self.x,
                y: self.after_move_down().y,
                exploding: self.exploding,
                timer: t.restarted(),
            }
        } else {
            Invader { x: self.x, y: self.y, exploding: self.exploding, timer: t }
        }
    }

    /// An invader is gone once its explosion animation has finished, or once
    /// it has reached the bottom of the grid.
    pub open spec fn spec_dead(&self) -> bool {
        (self.timer.spec_finished() && self.exploding) || self.y == NUM_ROWS
    }

    /// A fresh invader on the top row of the given column.
    pub fn new_at(x: usize) -> (i: Invader)
        requires
            x < NUM_COLS,
        ensures
            i == Invader::fresh(x),
    {
        Invader { x, y: 0, exploding: false, timer: Timer::new(INVADER_STEP_MS) }
    }

    /// A fresh invader on the top row of a random column.
    pub fn new() -> (i: Invader)
        ensures
            i.x < NUM_COLS,
            i == Invader::fresh(i.x),
    {
        let x = random_below(NUM_COLS);
        Invader::new_at(x)
    }

    /// Descend one row, stopping at the off-grid sentinel row.
    pub fn move_down(&mut self)
        ensures
            *final(self) == old(self).after_move_down(),
    {
        if self.y < NUM_ROWS {
            self.y += 1;
        }
    }

    /// Start the explosion animation: the invader stops descending and dies
    /// once the explosion timer fires.
    pub fn explode(&mut self)
        ensures
            *final(self) == old(self).after_explode(),
    {
        self.exploding = true;
        self.timer = Timer::new(EXPLOSION_MS);
    }

    /// Advance the invader by `delta_ms` milliseconds of elapsed time.
    pub fn update(&mut self, delta_ms: u64)
        ensures
            *final(self) == old(self).after_update(delta_ms),
            old(self).wf() ==> final(self).wf(),
    {
        self.timer.tick(delta_ms);
        if self.timer.finished() && !self.exploding {
            self.move_down();
            self.timer.reset();
        }
    }

    #[verifier::when_used_as_spec(spec_dead)]
    pub fn dead(&self) -> (r: bool)
        ensures
            r == self.spec_dead(),
    {
        (self.timer.finished() && self.exploding) || self.y == NUM_ROWS
    }
}

impl Drawable for Invader {
    open spec fn draw_spec(&self, g: Seq<Seq<char>>) -> Seq<Seq<char>> {
        stamp(g, self.x as int, self.y as int, if self.exploding { '*' } else { 'V' })
    }

    /// An invader on the off-grid sentinel row has no cell to draw into.
    open spec fn drawable(&self) -> bool {
        self.x < NUM_COLS && self.y < NUM_ROWS
    }

    fn draw(&self, frame: &mut Frame) {
        frame.set(self.x, self.y, if self.exploding { '*' } else { 'V' });
    }
}

/// A non-exploding invader never climbs, and descends by at most one row in
/// one update.
pub proof fn lemma_invader_descends(i: Invader, delta_ms: u64)
    requires
        !i.exploding,
    ensures
        i.after_update(delta_ms).y >= i.y,
        i.after_update(delta_ms).y <= i.y + 1,
{
}

} // verus!

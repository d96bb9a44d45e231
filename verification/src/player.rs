use vstd::prelude::*;
use crate::frame::stamp;
use crate::frame::Drawable;
use crate::frame::Frame;
use crate::shot::Shot;
use crate::timer::Timer;
use crate::EXPLOSION_MS;
use crate::NUM_COLS;
use crate::NUM_ROWS;
use crate::PLAYER_STEP_MS;
use crate::SHOT_STEP_MS;

verus! {

/// The player's ship: it sits on a fixed row, slides along it, and owns the
/// shots currently in flight — at most one at a time.
pub struct Player {
    pub x: usize,
    pub y: usize,
    pub exploding: bool,
    pub timer: Timer,
    pub shots: Vec<Shot>,
}

/// The mathematical value of a `Player`: the same fields, with the shot
/// collection abstracted to a sequence.
#[verifier::ext_equal]
pub ghost struct PlayerV {
    pub x: usize,
    pub y: usize,
    pub exploding: bool,
    pub timer: Timer,
    pub shots: Seq<Shot>,
}

impl View for Player {
    type V = PlayerV;

    open spec fn view(&self) -> PlayerV {
        PlayerV {
            x: self.x,
            y: self.y,
            exploding: self.exploding,
            timer: self.timer,
            shots: self.shots@,
        }
    }
}

impl PlayerV {
    /// The starting player: mid-way along the bottom row, not exploding,
    /// holding no shots.
    pub open spec fn initial() -> PlayerV {
        PlayerV {
            x: NUM_COLS / 2,
            y: (NUM_ROWS - 1) as usize,
            exploding: false,
            timer: Timer { duration_ms: PLAYER_STEP_MS, remaining_ms: PLAYER_STEP_MS },
            shots: Seq::<Shot>::empty(),
        }
    }

    /// A well-formed player stands on the grid, strictly below the top row,
    /// and holds at most one in-flight shot, itself on the grid.
    pub open spec fn wf(self) -> bool {
        &&& self.x < NUM_COLS
        &&& 0 < self.y < NUM_ROWS
        &&& self.shots.len() <= 1
        &&& forall|i: int| 0 <= i < self.shots.len() ==> (#[trigger] self.shots[i]).wf()
    }

    /// One column to the left, stopping at the edge.
    pub open spec fn after_move_left(self) -> PlayerV {
        if self.x > 0 {
            PlayerV { x: (self.x - 1) as usize, ..self }
        } else {
            self
        }
    }

    /// One column to the right, stopping at the edge.
    pub open spec fn after_move_right(self) -> PlayerV {
        if self.x + 1 < NUM_COLS {
            PlayerV { x: (self.x + 1) as usize, ..self }
        } else {
            self
        }
    }

    /// A shot may leave only while no other is in flight and a row above the
    /// player exists for it to start on.
    pub open spec fn can_shoot(self) -> bool {
        self.shots.len() == 0 && self.y > 0
    }

    /// The player after a shoot intent: a fresh shot appears one row above
    /// the ship, or nothing changes when none may leave.
    pub open spec fn after_shoot(self) -> PlayerV {
        if self.can_shoot() {
            PlayerV {
                shots: self.shots.push(Shot::fresh(self.x, (self.y - 1) as usize)),
                ..self
            }
        } else {
            self
        }
    }

    /// The player after `delta_ms` milliseconds: its own timer advances
    /// (idling back to its base interval while the player is not exploding),
    /// and every shot in flight advances too.
    pub open spec fn after_update(self, delta_ms: u64) -> PlayerV {
        let t = self.timer.ticked(delta_ms);
        PlayerV {
            timer: if t.spec_finished() && !self.exploding {
                t.restarted()
            } else {
                t
            },
            shots: self.shots.map_values(|s: Shot| s.after_update(delta_ms)),
            ..self
        }
    }

    /// The shots still in flight once the dead ones are reaped, in order.
    pub open spec fn after_reap(self) -> PlayerV {
        PlayerV { shots: self.shots.filter(|s: Shot| !s.spec_dead()), ..self }
    }

    /// The player once its explosion animation starts.
    pub open spec fn after_explode(self) -> PlayerV {
        PlayerV {
            exploding: true,
            timer: Timer { duration_ms: EXPLOSION_MS, remaining_ms: EXPLOSION_MS },
            ..self
        }
    }

    /// The player is gone once its explosion animation has finished.
    pub open spec fn spec_dead(self) -> bool {
        self.timer.spec_finished() && self.exploding
    }

    /// The grid once the ship's glyph and then every shot, in order, are
    /// stamped onto `g`.
    pub open spec fn draw_spec(self, g: Seq<Seq<char>>) -> Seq<Seq<char>> {
        draw_shots_spec(
            stamp(g, self.x as int, self.y as int, if self.exploding { '*' } else { 'A' }),
            self.shots,
        )
    }
}

/// The grid once every shot of `shots`, in order, is stamped onto `g`.
pub open spec fn draw_shots_spec(g: Seq<Seq<char>>, shots: Seq<Shot>) -> Seq<Seq<char>>
    decreases shots.len(),
{
    if shots.len() == 0 {
        g
    } else {
        shots.last().draw_spec(draw_shots_spec(g, shots.drop_last()))
    }
}

impl Player {
    /// A fresh ship in the middle of the bottom row, holding no shots.
    pub fn new() -> (p: Player)
        ensures
            p@ == PlayerV::initial(),
            p@.wf(),
    {
        Player {
            x: NUM_COLS / 2,
            y: NUM_ROWS - 1,
            exploding: false,
            timer: Timer::new(PLAYER_STEP_MS),
            shots: Vec::new(),
        }
    }

    /// A fresh ship at a chosen cell, holding no shots.
    pub fn new_at(x: usize, y: usize) -> (p: Player)
        requires
            x < NUM_COLS,
            0 < y < NUM_ROWS,
        ensures
            p@ == (PlayerV {
                x,
                y,
                exploding: false,
                timer: Timer { duration_ms: PLAYER_STEP_MS, remaining_ms: PLAYER_STEP_MS },
                shots: Seq::<Shot>::empty(),
            }),
            p@.wf(),
    {
        Player { x, y, exploding: false, timer: Timer::new(PLAYER_STEP_MS), shots: Vec::new() }
    }

    pub fn move_left(&mut self)
        ensures
            final(self)@ == old(self)@.after_move_left(),
            old(self)@.wf() ==> final(self)@.wf(),
    {
        if self.x > 0 {
            self.x -= 1;
        }
    }

    pub fn move_right(&mut self)
        ensures
            final(self)@ == old(self)@.after_move_right(),
            old(self)@.wf() ==> final(self)@.wf(),
    {
        if self.x < NUM_COLS - 1 {
            self.x += 1;
        }
    }

    /// Fire if no shot is in flight; reports whether a shot left, so that the
    /// caller can raise the matching sound cue.
    pub fn shoot(&mut self) -> (fired: bool)
        ensures
            fired == old(self)@.can_shoot(),
            final(self)@ == old(self)@.after_shoot(),
            old(self)@.wf() ==> final(self)@.wf(),
    {
        if self.shots.len() == 0 && self.y > 0 {
            let s = Shot::new(self.x, self.y - 1);
            self.shots.push(s);
            true
        } else {
            false
        }
    }

    /// Advance the player and every shot by `delta_ms` milliseconds.
    #[verifier::loop_isolation(false)]
    pub fn update(&mut self, delta_ms: u64)
        ensures
            final(self)@ == old(self)@.after_update(delta_ms),
            old(self)@.wf() ==> final(self)@.wf(),
    {
        self.timer.tick(delta_ms);
        if self.timer.finished() && !self.exploding {
            self.timer.reset();
        }
        let ghost mapped = old(self)@.shots.map_values(|s: Shot| s.after_update(delta_ms));
        let mut i: usize = 0;
        while i < self.shots.len()
            invariant
                self.shots@.len() == old(self).shots@.len(),
                i <= self.shots@.len(),
                self.x == old(self).x,
                self.y == old(self).y,
                self.exploding == old(self).exploding,
                self.timer == old(self)@.after_update(delta_ms).timer,
                forall|j: int| 0 <= j < i ==> self.shots@[j] == mapped[j],
                forall|j: int| i <= j < self.shots@.len() ==> self.shots@[j] == old(self).shots@[j],
            decreases self.shots@.len() - i,
        {
            let s = &mut self.shots[i];
            s.update(delta_ms);
            i += 1;
        }
        proof {
            assert(self.shots@ =~= mapped);
            assert(self@ =~= old(self)@.after_update(delta_ms));
        }
    }

    /// Drop every dead shot, keeping the rest in order.
    #[verifier::loop_isolation(false)]
    pub fn reap_shots(&mut self)
        ensures
            final(self)@ == old(self)@.after_reap(),
            old(self)@.wf() ==> final(self)@.wf(),
    {
        let ghost pred = |s: Shot| !s.spec_dead();
        let mut kept: Vec<Shot> = Vec::new();
        let mut i: usize = 0;
        while i < self.shots.len()
            invariant
                i <= self.shots@.len(),
                self.shots@ == old(self).shots@,
                kept@ == self.shots@.take(i as int).filter(pred),
                kept@.len() <= i,
                forall|j: int|
                    0 <= j < kept@.len() && old(self)@.wf() ==> (#[trigger] kept@[j]).wf(),
            decreases self.shots@.len() - i,
        {
            let s = self.shots[i];
            proof {
                reveal_with_fuel(Seq::filter, 2);
                let t1 = self.shots@.take(i + 1);
                assert(t1.drop_last() =~= self.shots@.take(i as int));
                assert(t1.last() == self.shots@[i as int]);
            }
            if !s.dead() {
                kept.push(s);
            }
            i += 1;
        }
        proof {
            assert(self.shots@.take(self.shots@.len() as int) =~= self.shots@);
        }
        self.shots = kept;
        proof {
            assert(self@ =~= old(self)@.after_reap());
        }
    }

    /// Start the explosion animation: the ship dies once the explosion timer
    /// fires, which ends the round.
    pub fn explode(&mut self)
        ensures
            final(self)@ == old(self)@.after_explode(),
            old(self)@.wf() ==> final(self)@.wf(),
    {
        self.exploding = true;
        self.timer = Timer::new(EXPLOSION_MS);
    }

    #[verifier::when_used_as_spec(view_dead)]
    pub fn dead(&self) -> (r: bool)
        ensures
            r == self@.spec_dead(),
    {
        self.timer.finished() && self.exploding
    }

    /// `PlayerV::spec_dead`, phrased on the player itself so that `dead` can
    /// stand in spec position.
    pub open spec fn view_dead(&self) -> bool {
        self@.spec_dead()
    }
}

/// Law: a well-formed player holds at most one in-flight shot — and every
/// constructor and method of the library keeps players well-formed.
pub proof fn lemma_single_shot(p: PlayerV)
    requires
        p.wf(),
    ensures
        p.shots.len() <= 1,
{
}

impl Drawable for Player {
    open spec fn draw_spec(&self, g: Seq<Seq<char>>) -> Seq<Seq<char>> {
        self@.draw_spec(g)
    }

    open spec fn drawable(&self) -> bool {
        self@.wf()
    }

    #[verifier::loop_isolation(false)]
    fn draw(&self, frame: &mut Frame) {
        frame.set(self.x, self.y, if self.exploding { '*' } else { 'A' });
        let ghost g1 = frame@;
        let mut i: usize = 0;
        while i < self.shots.len()
            invariant
                i <= self.shots@.len(),
                frame.wf(),
                frame@ == draw_shots_spec(g1, self.shots@.take(i as int)),
            decreases self.shots@.len() - i,
        {
            proof {
                assert(self.shots@.take(i + 1).drop_last() =~= self.shots@.take(i as int));
                assert(self.shots@.take(i + 1).last() == self.shots@[i as int]);
            }
            let s = &self.shots[i];
            s.draw(frame);
            i += 1;
        }
        proof {
            assert(self.shots@.take(self.shots@.len() as int) =~= self.shots@);
        }
    }
}

} // verus!

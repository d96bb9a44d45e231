use vstd::prelude::*;
use crate::frame::blank_grid;
use crate::frame::Drawable;
use crate::frame::Frame;
use crate::invaders::Invader;
use crate::player::Player;
use crate::player::PlayerV;
use crate::NUM_COLS;
use crate::SPAWN_ODDS;
use crate::rng::random_below;

verus! {

/// A discrete user action handed to the simulation, in arrival order.
#[derive(Clone, Copy, Debug, PartialEq, Eq, Structural)]
pub enum Intent {
    MoveLeft,
    MoveRight,
    Shoot,
    Quit,
}

/// A fire-and-forget audio cue; playing it is the audio collaborator's
/// business. The ticks raise all of these but `Startup`, which the driver
/// raises once when a session begins.
#[derive(Clone, Copy, Debug, PartialEq, Eq, Structural)]
pub enum Sound {
    Startup,
    Pew,
    Explode,
    Lose,
    Win,
}

/// How a round ends.
#[derive(Clone, Copy, Debug, PartialEq, Eq, Structural)]
pub enum Outcome {
    Quit,
    Lost,
    Won,
}

/// What one tick reports back: the audio cues it raised, in order, and
/// whether the round ended.
#[derive(Debug)]
pub struct TickResult {
    pub sounds: Vec<Sound>,
    pub outcome: Option<Outcome>,
}

/// The whole simulation state: the player and the invaders it must shoot
/// down, plus whether any invader has ever entered the round — a win may
/// only be declared after that.
pub struct Game {
    pub player: Player,
    pub invaders: Vec<Invader>,
    pub ever_spawned: bool,
}

/// The mathematical value of a `Game`.
#[verifier::ext_equal]
pub ghost struct GameV {
    pub player: PlayerV,
    pub invaders: Seq<Invader>,
    pub ever_spawned: bool,
}

impl View for Game {
    type V = GameV;

    open spec fn view(&self) -> GameV {
        GameV { player: self.player@, invaders: self.invaders@, ever_spawned: self.ever_spawned }
    }
}

pub open spec fn invaders_wf(invs: Seq<Invader>) -> bool {
    forall|i: int| 0 <= i < invs.len() ==> (#[trigger] invs[i]).wf()
}

/// Every invader has a cell on the grid to draw into; reaping guarantees it,
/// since only an invader on the sentinel row is off the grid, and it is dead.
pub open spec fn invaders_drawable(invs: Seq<Invader>) -> bool {
    forall|i: int| 0 <= i < invs.len() ==> (#[trigger] invs[i]).drawable()
}

/// The grid once every invader of `invs`, in order, is stamped onto `g`.
pub open spec fn draw_invaders_spec(g: Seq<Seq<char>>, invs: Seq<Invader>) -> Seq<Seq<char>>
    decreases invs.len(),
{
    if invs.len() == 0 {
        g
    } else {
        invs.last().draw_spec(draw_invaders_spec(g, invs.drop_last()))
    }
}

/// A column that may be spawned into: either no spawn at all, or one on the
/// grid.
pub open spec fn spawn_ok(spawn_col: Option<usize>) -> bool {
    match spawn_col {
        None => true,
        Some(c) => c < NUM_COLS,
    }
}

/// One intent applied to the player: movement clamps to the grid, a shoot
/// fires only while no shot is in flight (raising the pew cue), and a quit
/// asks for the round to end.
pub open spec fn apply_intent(p: PlayerV, intent: Intent, sounds: Seq<Sound>) -> (PlayerV, Seq<Sound>, bool) {
    match intent {
        Intent::MoveLeft => (p.after_move_left(), sounds, false),
        Intent::MoveRight => (p.after_move_right(), sounds, false),
        Intent::Shoot => (
            p.after_shoot(),
            if p.can_shoot() {
                sounds.push(Sound::Pew)
            } else {
                sounds
            },
            false,
        ),
        Intent::Quit => (p, sounds, true),
    }
}

/// All pending intents applied in arrival order; a quit stops the
/// processing where it stands.
pub open spec fn apply_intents(p: PlayerV, intents: Seq<Intent>) -> (PlayerV, Seq<Sound>, bool)
    decreases intents.len(),
{
    if intents.len() == 0 {
        (p, Seq::<Sound>::empty(), false)
    } else {
        let (p1, sounds1, quit1) = apply_intents(p, intents.drop_last());
        if quit1 {
            (p1, sounds1, true)
        } else {
            apply_intent(p1, intents.last(), sounds1)
        }
    }
}

/// Whether `inv` is a live collision candidate sitting exactly at column
/// `cx`, row `cy`.
pub open spec fn at_cell(inv: Invader, cx: usize, cy: int) -> bool {
    &&& !inv.exploding
    &&& inv.x == cx
    &&& inv.y == cy
}

/// The first invader, in iteration order, sitting live at column `cx`,
/// row `cy`.
pub open spec fn first_at(invs: Seq<Invader>, cx: usize, cy: int) -> Option<int>
    decreases invs.len(),
{
    if invs.len() == 0 {
        None
    } else if at_cell(invs[0], cx, cy) {
        Some(0int)
    } else {
        match first_at(invs.drop_first(), cx, cy) {
            None => None,
            Some(k) => Some(k + 1),
        }
    }
}

/// `first_at` finds exactly the least index of a live invader at the cell,
/// or reports that there is none.
pub proof fn lemma_first_at(invs: Seq<Invader>, cx: usize, cy: int)
    ensures
        match first_at(invs, cx, cy) {
            None => forall|j: int| 0 <= j < invs.len() ==> !at_cell(#[trigger] invs[j], cx, cy),
            Some(k) => {
                &&& 0 <= k < invs.len()
                &&& at_cell(invs[k], cx, cy)
                &&& forall|j: int| 0 <= j < k ==> !at_cell(#[trigger] invs[j], cx, cy)
            },
        },
    decreases invs.len(),
{
    if invs.len() > 0 && !at_cell(invs[0], cx, cy) {
        lemma_first_at(invs.drop_first(), cx, cy);
        assert forall|j: int| 1 <= j < invs.len() implies invs.drop_first()[j - 1] == invs[j] by {}
    }
}

impl GameV {
    /// A well-formed game: the player and every invader sit on the grid,
    /// and at most one shot is in flight.
    pub open spec fn wf(self) -> bool {
        &&& self.player.wf()
        &&& invaders_wf(self.invaders)
    }

    /// The game once a player–invader collision is resolved: the first live
    /// invader on the row directly above the player, at the player's
    /// column, explodes together with the player. A player on the top row
    /// has no row above it, so nothing happens there.
    pub open spec fn after_player_collision(self) -> (GameV, bool) {
        match first_at(self.invaders, self.player.x, self.player.y - 1) {
            None => (self, false),
            Some(k) => (
                GameV {
                    player: self.player.after_explode(),
                    invaders: self.invaders.update(k, self.invaders[k].after_explode()),
                    ..self
                },
                true,
            ),
        }
    }

    /// The game once a shot–invader collision is resolved: while a live
    /// shot is in flight — the first of the collection, which by
    /// well-formedness is the only one — the first live invader on the row
    /// directly below it, at its column, explodes together with the shot.
    pub open spec fn after_shot_collision(self) -> (GameV, bool) {
        if self.player.shots.len() > 0 && !self.player.shots[0].exploding {
            let s = self.player.shots[0];
            match first_at(self.invaders, s.x, s.y + 1) {
                None => (self, false),
                Some(k) => (
                    GameV {
                        player: PlayerV {
                            shots: self.player.shots.update(0, s.after_explode()),
                            ..self.player
                        },
                        invaders: self.invaders.update(k, self.invaders[k].after_explode()),
                        ..self
                    },
                    true,
                ),
            }
        } else {
            (self, false)
        }
    }

    /// The game once every dead shot and invader is reaped, order kept.
    pub open spec fn after_reap(self) -> GameV {
        GameV {
            player: self.player.after_reap(),
            invaders: self.invaders.filter(|inv: Invader| !inv.spec_dead()),
            ..self
        }
    }

    /// The grid once the player — with its shots — and then every invader,
    /// in order, are drawn onto `g`.
    pub open spec fn draw_spec(self, g: Seq<Seq<char>>) -> Seq<Seq<char>> {
        draw_invaders_spec(self.player.draw_spec(g), self.invaders)
    }

    /// One whole simulation tick: resolve the spawn draw, apply the pending
    /// intents in order (a quit ends the round on the spot), advance every
    /// timer by the elapsed time, resolve the player–invader and then the
    /// shot–invader collision, reap the dead, and detect the terminal
    /// states. Returns the next state, the audio cues raised in order, and
    /// the outcome, if the round ended: the round is lost once the player
    /// is dead, and won once no invader is left though some had spawned.
    pub open spec fn after_tick(
        self,
        delta_ms: u64,
        intents: Seq<Intent>,
        spawn_col: Option<usize>,
    ) -> (GameV, Seq<Sound>, Option<Outcome>) {
        let g1 = self.after_spawn(spawn_col);
        let (p2, sounds, quit) = apply_intents(g1.player, intents);
        let g2 = GameV { player: p2, ..g1 };
        if quit {
            (g2, sounds.push(Sound::Lose), Some(Outcome::Quit))
        } else {
            let g3 = GameV {
                player: g2.player.after_update(delta_ms),
                invaders: g2.invaders.map_values(|inv: Invader| inv.after_update(delta_ms)),
                ever_spawned: g2.ever_spawned,
            };
            let (g4, hit_player) = g3.after_player_collision();
            let (g5, hit_shot) = g4.after_shot_collision();
            let g6 = g5.after_reap();
            let sounds2 = if hit_player {
                sounds.push(Sound::Explode)
            } else {
                sounds
            };
            let sounds3 = if hit_shot {
                sounds2.push(Sound::Explode)
            } else {
                sounds2
            };
            if g6.player.spec_dead() {
                (g6, sounds3.push(Sound::Lose), Some(Outcome::Lost))
            } else if g6.invaders.len() == 0 && g6.ever_spawned {
                (g6, sounds3.push(Sound::Win), Some(Outcome::Won))
            } else {
                (g6, sounds3, None)
            }
        }
    }

    /// The game once the tick's stochastic spawn is resolved: either no new
    /// invader, or a fresh one appended on the top row of the drawn column.
    pub open spec fn after_spawn(self, spawn_col: Option<usize>) -> GameV {
        match spawn_col {
            None => self,
            Some(c) => GameV {
                invaders: self.invaders.push(Invader::fresh(c)),
                ever_spawned: true,
                ..self
            },
        }
    }
}

impl Game {
    /// A fresh round: the player at its starting cell, no invaders yet.
    pub fn new() -> (g: Game)
        ensures
            g@.wf(),
            g@.player == PlayerV::initial(),
            g@.invaders == Seq::<Invader>::empty(),
            !g@.ever_spawned,
    {
        Game { player: Player::new(), invaders: Vec::new(), ever_spawned: false }
    }

    /// Put an invader into the round by hand; it counts as spawned, so
    /// clearing it can win the round.
    pub fn add_invader(&mut self, invader: Invader)
        ensures
            final(self)@ == (GameV {
                invaders: old(self)@.invaders.push(invader),
                ever_spawned: true,
                ..old(self)@
            }),
    {
        self.invaders.push(invader);
        self.ever_spawned = true;
    }

    /// Resolve this tick's stochastic spawn with the given draw.
    fn spawn(&mut self, spawn_col: Option<usize>)
        requires
            spawn_ok(spawn_col),
        ensures
            final(self)@ == old(self)@.after_spawn(spawn_col),
            old(self)@.wf() ==> final(self)@.wf(),
    {
        match spawn_col {
            None => {}
            Some(c) => {
                self.invaders.push(Invader::new_at(c));
                self.ever_spawned = true;
            }
        }
        proof {
            assert(self@ =~= old(self)@.after_spawn(spawn_col));
        }
    }

    /// Apply the pending intents to the player in arrival order, pushing a
    /// pew cue for every shot that leaves; reports whether a quit was seen,
    /// which stops the processing where it stands.
    #[verifier::loop_isolation(false)]
    fn apply_intents_exec(&mut self, intents: &Vec<Intent>, sounds: &mut Vec<Sound>) -> (quit: bool)
        ensures
            ({
                let (p1, sounds1, quit1) = apply_intents(old(self)@.player, intents@);
                &&& final(self)@ == (GameV { player: p1, ..old(self)@ })
                &&& final(sounds)@ == old(sounds)@ + sounds1
                &&& quit == quit1
            }),
            old(self)@.wf() ==> final(self)@.wf(),
    {
        let mut quit = false;
        let mut i: usize = 0;
        while i < intents.len() && !quit
            invariant
                i <= intents@.len(),
                self.invaders@ == old(self).invaders@,
                self.ever_spawned == old(self).ever_spawned,
                ({
                    let (p1, sounds1, quit1) = apply_intents(old(self)@.player, intents@.take(i as int));
                    &&& self@.player == p1
                    &&& sounds@ == old(sounds)@ + sounds1
                    &&& quit == quit1
                }),
                old(self)@.wf() ==> self@.player.wf(),
            decreases intents@.len() - i,
        {
            proof {
                assert(intents@.take(i + 1).drop_last() =~= intents@.take(i as int));
                assert(intents@.take(i + 1).last() == intents@[i as int]);
            }
            match intents[i] {
                Intent::MoveLeft => {
                    self.player.move_left();
                }
                Intent::MoveRight => {
                    self.player.move_right();
                }
                Intent::Shoot => {
                    let fired = self.player.shoot();
                    if fired {
                        sounds.push(Sound::Pew);
                    }
                }
                Intent::Quit => {
                    quit = true;
                }
            }
            i += 1;
        }
        proof {
            if i < intents@.len() {
                lemma_apply_intents_quit_stable(old(self)@.player, intents@, i as int);
            }
            assert(intents@.take(intents@.len() as int) =~= intents@);
        }
        quit
    }

    /// Advance the player, every shot and every invader by the elapsed time.
    #[verifier::loop_isolation(false)]
    fn update_entities(&mut self, delta_ms: u64)
        ensures
            final(self)@ == (GameV {
                player: old(self)@.player.after_update(delta_ms),
                invaders: old(self)@.invaders.map_values(
                    |inv: Invader| inv.after_update(delta_ms),
                ),
                ever_spawned: old(self)@.ever_spawned,
            }),
            old(self)@.wf() ==> final(self)@.wf(),
    {
        self.player.update(delta_ms);
        let ghost mapped = old(self)@.invaders.map_values(|inv: Invader| inv.after_update(delta_ms));
        let mut i: usize = 0;
        while i < self.invaders.len()
            invariant
                self.invaders@.len() == old(self).invaders@.len(),
                i <= self.invaders@.len(),
                self.player@ == old(self)@.player.after_update(delta_ms),
                self.ever_spawned == old(self).ever_spawned,
                forall|j: int| 0 <= j < i ==> self.invaders@[j] == mapped[j],
                forall|j: int|
                    i <= j < self.invaders@.len() ==> self.invaders@[j] == old(self).invaders@[j],
            decreases self.invaders@.len() - i,
        {
            let inv = &mut self.invaders[i];
            inv.update(delta_ms);
            i += 1;
        }
        proof {
            assert(self.invaders@ =~= mapped);
            assert(self@ =~= (GameV {
                player: old(self)@.player.after_update(delta_ms),
                invaders: mapped,
                ever_spawned: old(self)@.ever_spawned,
            }));
        }
    }

    /// Resolve a player–invader collision, reporting whether one happened.
    fn resolve_player_collision(&mut self) -> (hit: bool)
        requires
            old(self)@.wf(),
        ensures
            ({
                let (g, h) = old(self)@.after_player_collision();
                &&& final(self)@ == g
                &&& hit == h
            }),
            final(self)@.wf(),
    {
        proof {
            lemma_first_at(self@.invaders, self@.player.x, self@.player.y - 1);
        }
        let found = if self.player.y > 0 {
            find_at(&self.invaders, self.player.x, self.player.y - 1)
        } else {
            None
        };
        match found {
            None => {
                proof {
                    assert(first_at(self@.invaders, self@.player.x, self@.player.y - 1) is None);
                }
                false
            }
            Some(k) => {
                let inv = &mut self.invaders[k];
                inv.explode();
                self.player.explode();
                proof {
                    let (g, h) = old(self)@.after_player_collision();
                    assert(self@ =~= g);
                }
                true
            }
        }
    }

    /// Resolve a shot–invader collision, reporting whether one happened.
    fn resolve_shot_collision(&mut self) -> (hit: bool)
        requires
            old(self)@.wf(),
        ensures
            ({
                let (g, h) = old(self)@.after_shot_collision();
                &&& final(self)@ == g
                &&& hit == h
            }),
            final(self)@.wf(),
    {
        if self.player.shots.len() > 0 {
            let s = self.player.shots[0];
            if !s.exploding {
                proof {
                    lemma_first_at(self@.invaders, s.x, s.y + 1);
                }
                match find_at(&self.invaders, s.x, s.y + 1) {
                    None => {
                        proof {
                            assert(first_at(self@.invaders, s.x, s.y + 1) is None);
                        }
                        false
                    }
                    Some(k) => {
                        let inv = &mut self.invaders[k];
                        inv.explode();
                        let sh = &mut self.player.shots[0];
                        sh.explode();
                        proof {
                            let (g, h) = old(self)@.after_shot_collision();
                            assert(self@ =~= g);
                        }
                        true
                    }
                }
            } else {
                false
            }
        } else {
            false
        }
    }

    /// Drop every dead shot and invader, keeping the rest in order.
    #[verifier::loop_isolation(false)]
    fn reap(&mut self)
        ensures
            final(self)@ == old(self)@.after_reap(),
            old(self)@.wf() ==> final(self)@.wf(),
    {
        self.player.reap_shots();
        let ghost pred = |inv: Invader| !inv.spec_dead();
        let mut kept: Vec<Invader> = Vec::new();
        let mut i: usize = 0;
        while i < self.invaders.len()
            invariant
                i <= self.invaders@.len(),
                self.invaders@ == old(self).invaders@,
                self.player@ == old(self)@.player.after_reap(),
                self.ever_spawned == old(self).ever_spawned,
                kept@ == self.invaders@.take(i as int).filter(pred),
                forall|j: int|
                    0 <= j < kept@.len() && old(self)@.wf() ==> (#[trigger] kept@[j]).wf(),
            decreases self.invaders@.len() - i,
        {
            let inv = self.invaders[i];
            proof {
                reveal_with_fuel(Seq::filter, 2);
                let t1 = self.invaders@.take(i + 1);
                assert(t1.drop_last() =~= self.invaders@.take(i as int));
                assert(t1.last() == self.invaders@[i as int]);
            }
            if !inv.dead() {
                kept.push(inv);
            }
            i += 1;
        }
        proof {
            assert(self.invaders@.take(self.invaders@.len() as int) =~= self.invaders@);
        }
        self.invaders = kept;
        proof {
            assert(self@ =~= old(self)@.after_reap());
        }
    }

    /// One whole simulation tick with the spawn draw already resolved:
    /// exactly `GameV::after_tick` on the current state.
    pub fn tick_with_spawn(
        &mut self,
        delta_ms: u64,
        intents: &Vec<Intent>,
        spawn_col: Option<usize>,
    ) -> (r: TickResult)
        requires
            old(self)@.wf(),
            spawn_ok(spawn_col),
        ensures
            final(self)@.wf(),
            ({
                let (g, sounds, outcome) = old(self)@.after_tick(delta_ms, intents@, spawn_col);
                &&& final(self)@ == g
                &&& r.sounds@ == sounds
                &&& r.outcome == outcome
            }),
    {
        let mut sounds: Vec<Sound> = Vec::new();
        self.spawn(spawn_col);
        let quit = self.apply_intents_exec(intents, &mut sounds);
        proof {
            let (p1, sounds1, quit1) = apply_intents(old(self)@.after_spawn(spawn_col).player, intents@);
            assert(Seq::<Sound>::empty() + sounds1 =~= sounds1);
        }
        if quit {
            sounds.push(Sound::Lose);
            return TickResult { sounds, outcome: Some(Outcome::Quit) };
        }
        self.update_entities(delta_ms);
        let hit_player = self.resolve_player_collision();
        let hit_shot = self.resolve_shot_collision();
        self.reap();
        if hit_player {
            sounds.push(Sound::Explode);
        }
        if hit_shot {
            sounds.push(Sound::Explode);
        }
        let outcome = if self.player.dead() {
            sounds.push(Sound::Lose);
            Some(Outcome::Lost)
        } else if self.invaders.len() == 0 && self.ever_spawned {
            sounds.push(Sound::Win);
            Some(Outcome::Won)
        } else {
            None
        };
        TickResult { sounds, outcome }
    }

    /// One whole simulation tick, with the spawn drawn stochastically: one
    /// tick in `SPAWN_ODDS` spawns an invader, on a uniformly random
    /// column. Everything past the draw is `GameV::after_tick` on some
    /// on-grid draw.
    pub fn tick(&mut self, delta_ms: u64, intents: &Vec<Intent>) -> (r: TickResult)
        requires
            old(self)@.wf(),
        ensures
            final(self)@.wf(),
            exists|spawn_col: Option<usize>|
                {
                    let (g, sounds, outcome) = old(self)@.after_tick(delta_ms, intents@, spawn_col);
                    &&& #[trigger] spawn_ok(spawn_col)
                    &&& final(self)@ == g
                    &&& r.sounds@ == sounds
                    &&& r.outcome == outcome
                },
    {
        let spawn_col = if spawn_roll() {
            Some(random_below(NUM_COLS))
        } else {
            None
        };
        let r = self.tick_with_spawn(delta_ms, intents, spawn_col);
        proof {
            assert(spawn_ok(spawn_col));
        }
        r
    }
}

impl Drawable for Game {
    open spec fn draw_spec(&self, g: Seq<Seq<char>>) -> Seq<Seq<char>> {
        self@.draw_spec(g)
    }

    open spec fn drawable(&self) -> bool {
        self@.player.wf() && invaders_drawable(self@.invaders)
    }

    /// Draw the player — with its shots — and then every invader, in order.
    #[verifier::loop_isolation(false)]
    fn draw(&self, frame: &mut Frame) {
        self.player.draw(frame);
        let ghost g1 = frame@;
        let mut i: usize = 0;
        while i < self.invaders.len()
            invariant
                i <= self.invaders@.len(),
                frame.wf(),
                frame@ == draw_invaders_spec(g1, self.invaders@.take(i as int)),
            decreases self.invaders@.len() - i,
        {
            proof {
                assert(self.invaders@.take(i + 1).drop_last() =~= self.invaders@.take(i as int));
                assert(self.invaders@.take(i + 1).last() == self.invaders@[i as int]);
            }
            let inv = &self.invaders[i];
            inv.draw(frame);
            i += 1;
        }
        proof {
            assert(self.invaders@.take(self.invaders@.len() as int) =~= self.invaders@);
        }
    }
}

/// Law: a round in which no invader has ever spawned cannot be won — a tick
/// without a spawn draw leaves the win undeclared, whatever else happens.
pub proof fn lemma_no_premature_win(g: GameV, delta_ms: u64, intents: Seq<Intent>)
    requires
        !g.ever_spawned,
    ensures
        ({
            let (g2, sounds, outcome) = g.after_tick(delta_ms, intents, None);
            outcome != Some(Outcome::Won)
        }),
{
}

/// Law: clearing a frame and then drawing a game into it yields the very
/// grid that drawing the same game into a freshly built frame yields — the
/// drawn picture is a function of the entities alone.
pub proof fn lemma_draw_round_trip(cleared: Seq<Seq<char>>, built: Seq<Seq<char>>, g: GameV)
    requires
        cleared == blank_grid(),
        built == blank_grid(),
    ensures
        g.draw_spec(cleared) == g.draw_spec(built),
{
}

/// Find the first invader, in iteration order, sitting live at column
/// `cx`, row `cy`.
#[verifier::loop_isolation(false)]
fn find_at(invaders: &Vec<Invader>, cx: usize, cy: usize) -> (r: Option<usize>)
    ensures
        match r {
            None => forall|j: int|
                0 <= j < invaders@.len() ==> !at_cell(#[trigger] invaders@[j], cx, cy as int),
            Some(i) => {
                &&& i < invaders@.len()
                &&& at_cell(invaders@[i as int], cx, cy as int)
                &&& forall|j: int| 0 <= j < i ==> !at_cell(#[trigger] invaders@[j], cx, cy as int)
            },
        },
{
    let mut i: usize = 0;
    while i < invaders.len()
        invariant
            i <= invaders@.len(),
            forall|j: int| 0 <= j < i ==> !at_cell(#[trigger] invaders@[j], cx, cy as int),
        decreases invaders@.len() - i,
    {
        let inv = &invaders[i];
        if !inv.exploding && inv.x == cx && inv.y == cy {
            return Some(i);
        }
        i += 1;
    }
    None
}

/// Once a quit has been seen, the later intents change nothing: applying a
/// prefix that ends in the quit already yields the final player and cues.
proof fn lemma_apply_intents_quit_stable(p: PlayerV, intents: Seq<Intent>, i: int)
    requires
        0 <= i <= intents.len(),
        apply_intents(p, intents.take(i)).2,
    ensures
        apply_intents(p, intents) == apply_intents(p, intents.take(i)),
    decreases intents.len() - i,
{
    if i < intents.len() {
        assert(intents.take(i + 1).drop_last() =~= intents.take(i));
        lemma_apply_intents_quit_stable(p, intents, i + 1);
    } else {
        assert(intents.take(i) =~= intents);
    }
}

/// Draw whether this tick spawns an invader: one tick in `SPAWN_ODDS` does.
fn spawn_roll() -> (spawn: bool) {
    let draw = random_below(SPAWN_ODDS);
    draw == 0
}

} // verus!

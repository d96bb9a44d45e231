use vstd::prelude::*;
use crate::NUM_COLS;
use crate::NUM_ROWS;

verus! {

/// One rendered screen: a column-major grid of glyphs, indexed as
/// `frame[x][y]` with `x < NUM_COLS` and `y < NUM_ROWS`. A blank cell holds
/// a space.
pub struct Frame {
    cells: Vec<Vec<char>>,
}

/// A well-formed grid has exactly `NUM_COLS` columns of `NUM_ROWS` cells each.
pub open spec fn grid_wf(g: Seq<Seq<char>>) -> bool {
    &&& g.len() == NUM_COLS
    &&& forall|x: int| 0 <= x < g.len() ==> (#[trigger] g[x]).len() == NUM_ROWS
}

/// The all-blank grid that a fresh or cleared frame shows.
pub open spec fn blank_grid() -> Seq<Seq<char>> {
    Seq::new(NUM_COLS as nat, |x: int| Seq::new(NUM_ROWS as nat, |y: int| ' '))
}

/// The grid `g` with `glyph` written into the cell at column `x`, row `y`.
pub open spec fn stamp(g: Seq<Seq<char>>, x: int, y: int, glyph: char) -> Seq<Seq<char>> {
    g.update(x, g[x].update(y, glyph))
}

/// Anything that can stamp its glyphs into a frame: the drawn frame is a
/// function of the entity and the frame drawn into, nothing else.
pub trait Drawable {
    /// The grid once this entity's glyphs are stamped onto `g`.
    spec fn draw_spec(&self, g: Seq<Seq<char>>) -> Seq<Seq<char>>;

    /// Whether every glyph of this entity has a cell on the grid.
    spec fn drawable(&self) -> bool;

    /// Stamp this entity's glyphs into the frame.
    fn draw(&self, frame: &mut Frame)
        requires
            old(frame).wf(),
            self.drawable(),
        ensures
            final(frame).wf(),
            final(frame)@ == self.draw_spec(old(frame)@),
    ;
}

impl View for Frame {
    type V = Seq<Seq<char>>;

    closed spec fn view(&self) -> Seq<Seq<char>> {
        self.cells@.map_values(|col: Vec<char>| col@)
    }
}

impl Frame {
    pub open spec fn wf(&self) -> bool {
        grid_wf(self@)
    }

    /// Read the glyph at column `x`, row `y`.
    pub fn get(&self, x: usize, y: usize) -> (g: char)
        requires
            self.wf(),
            x < NUM_COLS,
            y < NUM_ROWS,
        ensures
            g == self@[x as int][y as int],
    {
        proof {
            assert(self.cells@.len() == self@.len());
            assert(self.cells@[x as int]@ == self@[x as int]);
        }
        self.cells[x][y]
    }

    /// Write `glyph` into the cell at column `x`, row `y`.
    pub fn set(&mut self, x: usize, y: usize, glyph: char)
        requires
            old(self).wf(),
            x < NUM_COLS,
            y < NUM_ROWS,
        ensures
            final(self).wf(),
            final(self)@ == stamp(old(self)@, x as int, y as int, glyph),
    {
        proof {
            assert(old(self).cells@.len() == old(self)@.len());
            assert(old(self).cells@[x as int]@ == old(self)@[x as int]);
        }
        self.cells[x][y] = glyph;
        proof {
            assert(self@ =~~= old(self)@.update(
                x as int,
                old(self)@[x as int].update(y as int, glyph),
            ));
        }
    }

    /// Reset every cell to blank.
    pub fn clear(&mut self)
        ensures
            final(self).wf(),
            final(self)@ == blank_grid(),
    {
        *self = new_frame();
    }
}

/// Build an all-blank frame.
pub fn new_frame() -> (f: Frame)
    ensures
        f.wf(),
        f@ == blank_grid(),
{
    let mut cells: Vec<Vec<char>> = Vec::new();
    for x in 0..NUM_COLS
        invariant
            cells@.len() == x,
            forall|i: int| 0 <= i < x ==> (#[trigger] cells@[i])@ == blank_grid()[i],
    {
        let mut col: Vec<char> = Vec::new();
        for y in 0..NUM_ROWS
            invariant
                col@.len() == y,
                forall|j: int| 0 <= j < y ==> col@[j] == ' ',
        {
            col.push(' ');
        }
        proof {
            assert(col@ =~= Seq::new(NUM_ROWS as nat, |y: int| ' '));
        }
        cells.push(col);
    }
    let f = Frame { cells };
    proof {
        assert(f@ =~~= blank_grid());
    }
    f
}

} // verus!

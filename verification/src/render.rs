use vstd::prelude::*;
use crate::frame::Frame;
use crate::NUM_COLS;
use crate::NUM_ROWS;

verus! {

/// One cell write the renderer emits: put `glyph` at column `x`, row `y` of
/// the terminal. The output collaborator performs it; the renderer only
/// decides which cells need it.
#[derive(Clone, Copy, Debug, PartialEq, Eq, Structural)]
pub struct CellWrite {
    pub x: usize,
    pub y: usize,
    pub glyph: char,
}

/// Whether the cell at column `x`, row `y` must be written: always under a
/// forced full redraw, otherwise exactly when its glyph changed between the
/// two frames — a cell gone blank changed, so it is cleared by writing the
/// blank.
pub open spec fn cell_changed(
    last: Seq<Seq<char>>,
    curr: Seq<Seq<char>>,
    force: bool,
    x: int,
    y: int,
) -> bool {
    force || last[x][y] != curr[x][y]
}

/// The writes for the first `upto_y` cells of column `x`, top down.
pub open spec fn col_writes(
    last: Seq<Seq<char>>,
    curr: Seq<Seq<char>>,
    force: bool,
    x: int,
    upto_y: int,
) -> Seq<CellWrite>
    decreases upto_y,
{
    if upto_y <= 0 {
        Seq::<CellWrite>::empty()
    } else {
        let prev = col_writes(last, curr, force, x, upto_y - 1);
        if cell_changed(last, curr, force, x, upto_y - 1) {
            prev.push(CellWrite {
                x: x as usize,
                y: (upto_y - 1) as usize,
                glyph: curr[x][upto_y - 1],
            })
        } else {
            prev
        }
    }
}

/// The writes for the first `upto_x` whole columns, left to right.
pub open spec fn grid_writes(
    last: Seq<Seq<char>>,
    curr: Seq<Seq<char>>,
    force: bool,
    upto_x: int,
) -> Seq<CellWrite>
    decreases upto_x,
{
    if upto_x <= 0 {
        Seq::<CellWrite>::empty()
    } else {
        grid_writes(last, curr, force, upto_x - 1) + col_writes(
            last,
            curr,
            force,
            upto_x - 1,
            NUM_ROWS as int,
        )
    }
}

/// Everything the renderer emits for one frame: every cell under a forced
/// redraw, otherwise only the changed cells, in column-major order.
pub open spec fn render_spec(
    last: Seq<Seq<char>>,
    curr: Seq<Seq<char>>,
    force: bool,
) -> Seq<CellWrite> {
    grid_writes(last, curr, force, NUM_COLS as int)
}

/// Diff the previous frame against the current one and emit the cell writes
/// that bring the screen up to date: the whole grid when `force` asks for a
/// full redraw, and only the changed cells otherwise.
#[verifier::loop_isolation(false)]
pub fn render_writes(last: &Frame, curr: &Frame, force: bool) -> (w: Vec<CellWrite>)
    requires
        last.wf(),
        curr.wf(),
    ensures
        w@ == render_spec(last@, curr@, force),
{
    let mut w: Vec<CellWrite> = Vec::new();
    let mut x: usize = 0;
    while x < NUM_COLS
        invariant
            x <= NUM_COLS,
            w@ == grid_writes(last@, curr@, force, x as int),
        decreases NUM_COLS - x,
    {
        let ghost before_col = w@;
        let mut y: usize = 0;
        while y < NUM_ROWS
            invariant
                y <= NUM_ROWS,
                w@ == before_col + col_writes(last@, curr@, force, x as int, y as int),
            decreases NUM_ROWS - y,
        {
            let lg = last.get(x, y);
            let cg = curr.get(x, y);
            if force || lg != cg {
                w.push(CellWrite { x, y, glyph: cg });
            }
            proof {
                assert(w@ =~= before_col + col_writes(last@, curr@, force, x as int, y + 1));
            }
            y += 1;
        }
        proof {
            assert(w@ =~= grid_writes(last@, curr@, force, x + 1));
        }
        x += 1;
    }
    w
}

/// No cell of a column that equals its previous picture needs a write.
proof fn lemma_col_writes_empty(
    last: Seq<Seq<char>>,
    curr: Seq<Seq<char>>,
    x: int,
    upto_y: int,
)
    requires
        last == curr,
    ensures
        col_writes(last, curr, false, x, upto_y).len() == 0,
    decreases upto_y,
{
    if upto_y > 0 {
        lemma_col_writes_empty(last, curr, x, upto_y - 1);
    }
}

/// No cell of a grid that equals its previous picture needs a write.
proof fn lemma_grid_writes_empty(
    last: Seq<Seq<char>>,
    curr: Seq<Seq<char>>,
    upto_x: int,
)
    requires
        last == curr,
    ensures
        grid_writes(last, curr, false, upto_x).len() == 0,
    decreases upto_x,
{
    if upto_x > 0 {
        lemma_grid_writes_empty(last, curr, upto_x - 1);
        lemma_col_writes_empty(last, curr, upto_x - 1, NUM_ROWS as int);
    }
}

/// Law: rendering is idempotent — once the screen shows the current frame,
/// rendering it again without a forced redraw emits no write at all.
pub proof fn lemma_render_idempotent(last: Seq<Seq<char>>, curr: Seq<Seq<char>>)
    requires
        last == curr,
    ensures
        render_spec(last, curr, false).len() == 0,
{
    lemma_grid_writes_empty(last, curr, NUM_COLS as int);
}

} // verus!

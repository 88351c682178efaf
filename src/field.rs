//! The grid of stones.
use vstd::prelude::*;

use crate::stone::Stone;
use crate::{COLS, ROWS};

verus! {

/// The stones of a fresh grid, row by row: stone `i` rests on column
/// `i % COLS` of row `i / COLS`.
pub open spec fn is_fresh_field(f: Seq<Stone>) -> bool {
    &&& f.len() == ROWS * COLS
    &&& forall|i: int| 0 <= i < f.len() ==> #[trigger] f[i] == Stone::at_rest((i % COLS as int) as u32, (i / COLS as int) as u32)
}

/// Builds the grid: one stone at rest on each cell `(x, y)` with
/// `0 <= x < COLS` and `0 <= y < ROWS`, each with zero offsets, rotation and
/// velocities and no ticks left in its segment.
pub fn new_field() -> (f: Vec<Stone>)
    ensures
        is_fresh_field(f@),
        forall|x: int, y: int| 0 <= x < COLS && 0 <= y < ROWS ==>
            #[trigger] f@[y * COLS + x] == Stone::at_rest(x as u32, y as u32),
        forall|i: int| 0 <= i < f@.len() ==> (#[trigger] f@[i]).wf(),
{
    let mut f: Vec<Stone> = Vec::new();
    let mut y: u32 = 0;
    while y < ROWS
        invariant
            y <= ROWS,
            f@.len() == y * COLS,
            forall|i: int| 0 <= i < f@.len() ==> #[trigger] f@[i] == Stone::at_rest((i % COLS as int) as u32, (i / COLS as int) as u32),
        decreases ROWS - y,
    {
        let mut x: u32 = 0;
        while x < COLS
            invariant
                y < ROWS,
                x <= COLS,
                f@.len() == y * COLS + x,
                forall|i: int| 0 <= i < f@.len() ==> #[trigger] f@[i] == Stone::at_rest((i % COLS as int) as u32, (i / COLS as int) as u32),
            decreases COLS - x,
        {
            let ghost i: int = y as int * COLS as int + x as int;
            assert(i % COLS as int == x && i / COLS as int == y);
            f.push(Stone::new(x, y));
            x = x + 1;
        }
        y = y + 1;
    }
    assert forall|x: int, y: int| 0 <= x < COLS && 0 <= y < ROWS implies
        #[trigger] f@[y * COLS + x] == Stone::at_rest(x as u32, y as u32) by {
        let i = y * COLS + x;
        assert(i % COLS as int == x && i / COLS as int == y);
        assert(0 <= i < f@.len());
    }
    f
}

} // verus!

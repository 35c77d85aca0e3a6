//! The fire: a grid of heat that is fed from its bottom row and cools as it
//! rises.

use crate::generics::Vec2;
use crate::term::{background_commands, Color, CommandView, Term};
use vstd::prelude::*;

verus! {

/// The heat that the bottom row is set to at the start of every step. No cell
/// is ever hotter.
pub const SEED_HEAT: u8 = 30;

/// How many units of heat share one colour of the palette.
pub const BUCKET: u8 = 6;

/// The heat that is left of `heat` one row further up: `draw` decides on a
/// loss of zero to five units, and the result never goes below zero.
pub open spec fn cooled(heat: u8, draw: u32) -> u8 {
    let decay = draw % 6;
    if heat >= decay {
        (heat - decay) as u8
    } else {
        0
    }
}

/// Whether heat that rises under `draw` moves one column to the left on its
/// way up. This is so for two of the six losses, zero and three.
pub open spec fn drifts(draw: u32) -> bool {
    draw % 6 % 3 == 0
}

/// The heat of column `c` in a row after the row `below` it has risen into it,
/// where `above` is what the row held before. Every column of `below` sends
/// its cooled heat to the column straight above or, when it drifts and is not
/// the leftmost, to the left neighbour of that one. Columns rise from left to
/// right and the later arrival stays: so the right neighbour's heat wins where
/// it drifts in, else the heat from straight below where that did not drift
/// away, else the cell keeps what it held.
pub open spec fn risen_cell(below: Seq<u8>, above: Seq<u8>, draws: Seq<u32>, c: int) -> u8 {
    if c + 1 < above.len() && drifts(draws[c + 1]) {
        cooled(below[c + 1], draws[c + 1])
    } else if c == 0 || !drifts(draws[c]) {
        cooled(below[c], draws[c])
    } else {
        above[c]
    }
}

/// A row after the row `below` it has risen into it; see `risen_cell`.
pub open spec fn risen_row(below: Seq<u8>, above: Seq<u8>, draws: Seq<u32>) -> Seq<u8> {
    Seq::new(above.len(), |c: int| risen_cell(below, above, draws, c))
}

/// A row of the given width in which every cell holds `SEED_HEAT`.
pub open spec fn seeded_row(width: nat) -> Seq<u8> {
    Seq::new(width, |c: int| SEED_HEAT)
}

/// Row `y` of `grid` after one step. The bottom row is seeded; every other row
/// is what the row below it, as it is after this same step, rises into, under
/// the draws of that row below.
pub open spec fn stepped_row(grid: Seq<Seq<u8>>, draws: Seq<Seq<u32>>, y: int) -> Seq<u8>
    decreases grid.len() - y,
{
    if y < 0 || y >= grid.len() {
        Seq::empty()
    } else if y == grid.len() - 1 {
        seeded_row(grid[y].len())
    } else {
        risen_row(stepped_row(grid, draws, y + 1), grid[y], draws[y + 1])
    }
}

/// The grid after one step under the given draws; see `stepped_row`.
pub open spec fn stepped(grid: Seq<Seq<u8>>, draws: Seq<Seq<u32>>) -> Seq<Seq<u8>> {
    Seq::new(grid.len(), |y: int| stepped_row(grid, draws, y))
}

/// Whether every row of `rows` has `width` cells.
pub open spec fn is_rectangular<T>(rows: Seq<Seq<T>>, width: nat) -> bool {
    forall|y: int| 0 <= y < rows.len() ==> (#[trigger] rows[y]).len() == width
}

/// Whether no cell of `grid` is hotter than `SEED_HEAT`.
pub open spec fn is_bounded(grid: Seq<Seq<u8>>) -> bool {
    forall|y: int, x: int|
        0 <= y < grid.len() && 0 <= x < grid[y].len() ==> #[trigger] grid[y][x] <= SEED_HEAT
}

/// Whether `draws` holds one draw for every cell of `grid`.
pub open spec fn draws_cover(draws: Seq<Seq<u32>>, grid: Seq<Seq<u8>>) -> bool {
    &&& draws.len() == grid.len()
    &&& forall|y: int| 0 <= y < grid.len() ==> (#[trigger] draws[y]).len() == grid[y].len()
}

/// The colour that a cell of the given heat is painted in, or `None` where the
/// cell is not painted at all, so that what lies behind the fire shows
/// through. The heat is divided by `BUCKET`, with six as the highest bucket;
/// the two lowest buckets are unlit.
pub open spec fn flame_of(heat: u8) -> Option<Color> {
    let bucket = if heat / 6 > 6 {
        6
    } else {
        heat as int / 6
    };
    if bucket <= 1 {
        None
    } else if bucket == 2 {
        Some(Color::DarkRed)
    } else if bucket == 3 {
        Some(Color::Red)
    } else if bucket == 4 {
        Some(Color::DarkYellow)
    } else if bucket == 5 {
        Some(Color::Yellow)
    } else {
        Some(Color::White)
    }
}

/// See `flame_of`. A cell without any heat is never painted.
pub fn flame_color(heat: u8) -> (color: Option<Color>)
    ensures
        color == flame_of(heat),
        heat == 0 ==> color is None,
{
    let bucket = if heat / BUCKET > 6 {
        6
    } else {
        heat / BUCKET
    };
    match bucket {
        0 | 1 => None,
        2 => Some(Color::DarkRed),
        3 => Some(Color::Red),
        4 => Some(Color::DarkYellow),
        5 => Some(Color::Yellow),
        _ => Some(Color::White),
    }
}

/// What painting the cell in column `x` of row `y` emits when the grid's top
/// left cell is on `at`: its background in the colour of its heat, or nothing
/// where the cell is unlit or lies beyond the last addressable row or column.
pub open spec fn flame_commands(at: Vec2, x: int, y: int, heat: u8) -> Seq<CommandView> {
    match flame_of(heat) {
        Some(color) if at.x + x <= u16::MAX && at.y + y <= u16::MAX => background_commands(
            Vec2 { x: (at.x + x) as u16, y: (at.y + y) as u16 },
            color,
        ),
        _ => Seq::empty(),
    }
}

/// What painting the first `n` cells of row `y` emits, left to right.
pub open spec fn flame_row_commands(at: Vec2, y: int, row: Seq<u8>, n: int) -> Seq<CommandView>
    decreases n,
{
    if n <= 0 {
        Seq::empty()
    } else {
        flame_row_commands(at, y, row, n - 1) + flame_commands(at, n - 1, y, row[n - 1])
    }
}

/// What painting the first `n` rows of `grid` emits, top to bottom.
pub open spec fn flame_rows_commands(at: Vec2, grid: Seq<Seq<u8>>, n: int) -> Seq<CommandView>
    decreases n,
{
    if n <= 0 {
        Seq::empty()
    } else {
        flame_rows_commands(at, grid, n - 1) + flame_row_commands(
            at,
            n - 1,
            grid[n - 1],
            grid[n - 1].len() as int,
        )
    }
}

/// What `paint` emits for a grid.
pub open spec fn fire_commands(at: Vec2, grid: Seq<Seq<u8>>) -> Seq<CommandView> {
    flame_rows_commands(at, grid, grid.len() as int)
}

/// An unlit cell emits nothing, wherever it is; a cell without heat is unlit.
pub proof fn unlit_cells_paint_nothing(at: Vec2, x: int, y: int, heat: u8)
    requires
        heat < 2 * BUCKET,
    ensures
        flame_of(heat) is None,
        flame_commands(at, x, y, heat) == Seq::<CommandView>::empty(),
{
}

/// Lets the row `below` rise into the row `above`, column by column from the
/// left; see `risen_cell`.
fn rise(below: &Vec<u8>, above: &mut Vec<u8>, draws: &Vec<u32>)
    requires
        below.len() == old(above).len(),
        draws.len() == old(above).len(),
    ensures
        final(above)@ == risen_row(below@, old(above)@, draws@),
{
    let width = above.len();
    let ghost before = above@;
    let mut x: usize = 0;
    while x < width
        invariant
            x <= width,
            width == above.len(),
            width == below.len(),
            width == draws.len(),
            before.len() == width,
            forall|c: int|
                0 <= c < width ==> #[trigger] above@[c] == if c + 1 < x && drifts(draws@[c + 1]) {
                    cooled(below@[c + 1], draws@[c + 1])
                } else if c < x && (c == 0 || !drifts(draws@[c])) {
                    cooled(below@[c], draws@[c])
                } else {
                    before[c]
                },
        decreases width - x,
    {
        let seed = draws[x] % 6;
        let decay = seed as u8;
        let heat = below[x].saturating_sub(decay);
        let target = if seed % 3 == 0 && x > 0 {
            x - 1
        } else {
            x
        };
        above.set(target, heat);
        x += 1;
    }
    assert(above@ =~= risen_row(below@, before, draws@));
}

/// What rises stays within bounds: heat only ever cools on its way up.
proof fn rising_keeps_bounds(below: Seq<u8>, above: Seq<u8>, draws: Seq<u32>)
    requires
        below.len() == above.len(),
        draws.len() == above.len(),
        forall|c: int| 0 <= c < below.len() ==> below[c] <= SEED_HEAT,
        forall|c: int| 0 <= c < above.len() ==> above[c] <= SEED_HEAT,
    ensures
        forall|c: int|
            0 <= c < above.len() ==> #[trigger] risen_row(below, above, draws)[c] <= SEED_HEAT,
{
}

/// After a step every row is as wide as before and holds no cell hotter than
/// `SEED_HEAT`, provided that this was so before the step.
pub proof fn stepped_row_stays_in_bounds(grid: Seq<Seq<u8>>, draws: Seq<Seq<u32>>, width: nat, y: int)
    requires
        is_rectangular(grid, width),
        is_bounded(grid),
        draws_cover(draws, grid),
        0 <= y < grid.len(),
    ensures
        stepped_row(grid, draws, y).len() == width,
        forall|x: int| 0 <= x < width ==> #[trigger] stepped_row(grid, draws, y)[x] <= SEED_HEAT,
    decreases grid.len() - y,
{
    if y < grid.len() - 1 {
        stepped_row_stays_in_bounds(grid, draws, width, y + 1);
        let below = stepped_row(grid, draws, y + 1);
        assert forall|c: int| 0 <= c < grid[y].len() implies grid[y][c] <= SEED_HEAT by {}
        rising_keeps_bounds(below, grid[y], draws[y + 1]);
    }
}

/// However the draws fall, a step leaves every cell of the bottom row at
/// `SEED_HEAT`.
pub proof fn step_seeds_the_bottom_row(grid: Seq<Seq<u8>>, draws: Seq<Seq<u32>>)
    requires
        grid.len() > 0,
    ensures
        stepped(grid, draws).last() == seeded_row(grid.last().len()),
        forall|x: int|
            0 <= x < grid.last().len() ==> #[trigger] stepped(grid, draws).last()[x] == SEED_HEAT,
{
}

/// However the draws fall, a step never makes a cell hotter than `SEED_HEAT`:
/// a grid that is within bounds stays so, with its shape, for every frame.
pub proof fn step_stays_in_bounds(grid: Seq<Seq<u8>>, draws: Seq<Seq<u32>>, width: nat)
    requires
        is_rectangular(grid, width),
        is_bounded(grid),
        draws_cover(draws, grid),
    ensures
        stepped(grid, draws).len() == grid.len(),
        is_rectangular(stepped(grid, draws), width),
        is_bounded(stepped(grid, draws)),
{
    assert forall|y: int| 0 <= y < grid.len() implies (#[trigger] stepped(grid, draws)[y]).len()
        == width by {
        stepped_row_stays_in_bounds(grid, draws, width, y);
    }
    assert forall|y: int, x: int|
        0 <= y < stepped(grid, draws).len() && 0 <= x < stepped(grid, draws)[y].len() implies #[trigger] stepped(
        grid,
        draws,
    )[y][x] <= SEED_HEAT by {
        stepped_row_stays_in_bounds(grid, draws, width, y);
    }
}

/// `std::time::Instant`, a reading of the monotonic clock. Nothing is known
/// of what a value holds.
#[verifier::external_type_specification]
#[verifier::external_body]
pub struct ExInstant(std::time::Instant);

/// Trusted: `Instant::now` reads the clock. Nothing is claimed of the result.
pub assume_specification[ std::time::Instant::now ]() -> (now: std::time::Instant)
;

/// Trusted: `Instant::elapsed` measures the time since the reading was taken.
/// Nothing is claimed of the result.
pub assume_specification[ std::time::Instant::elapsed ](instant: &std::time::Instant) -> (elapsed:
    std::time::Duration)
;

/// Trusted: `Duration::subsec_nanos` gives the part of a duration that is
/// shorter than a second, in nanoseconds, which is less than a thousand
/// million.
pub assume_specification[ std::time::Duration::subsec_nanos ](
    duration: &std::time::Duration,
) -> (nanos: u32)
    ensures
        nanos < 1_000_000_000,
;

/// A draw from the jitter of the clock: the nanoseconds that pass between
/// reading the clock and looking at it again.
pub fn jitter() -> (draw: u32)
    ensures
        draw < 1_000_000_000,
{
    std::time::Instant::now().elapsed().subsec_nanos()
}

/// The views of a vector of rows, one for one.
pub open spec fn rows_view<T>(rows: Seq<Vec<T>>) -> Seq<Seq<T>> {
    Seq::new(rows.len(), |y: int| rows[y]@)
}

/// A grid of heat. Row 0 is the top, the last row is the bottom, where the
/// fire is fed. Every row has the same width and no cell is hotter than
/// `SEED_HEAT`.
pub struct FireGrid {
    cells: Vec<Vec<u8>>,
    width: usize,
}

impl View for FireGrid {
    type V = Seq<Seq<u8>>;

    /// The heat of every cell, row by row from the top.
    closed spec fn view(&self) -> Seq<Seq<u8>> {
        rows_view(self.cells@)
    }
}

/// A row of `width` cells that all hold `heat`.
fn filled_row(width: usize, heat: u8) -> (row: Vec<u8>)
    ensures
        row@ == Seq::new(width as nat, |c: int| heat),
{
    let mut row: Vec<u8> = Vec::new();
    while row.len() < width
        invariant
            row.len() <= width,
            forall|c: int| 0 <= c < row.len() ==> row@[c] == heat,
        decreases width - row.len(),
    {
        row.push(heat);
    }
    assert(row@ =~= Seq::new(width as nat, |c: int| heat));
    row
}

impl FireGrid {
    #[verifier::type_invariant]
    spec fn well_formed(self) -> bool {
        is_rectangular(self@, self.width as nat) && is_bounded(self@)
    }

    /// The number of cells in every row.
    pub closed spec fn spec_width(&self) -> nat {
        self.width as nat
    }

    /// A cold grid of `height` rows with `width` cells each.
    pub fn new(width: usize, height: usize) -> (grid: FireGrid)
        ensures
            grid@ == Seq::new(height as nat, |y: int| Seq::new(width as nat, |x: int| 0u8)),
            grid.spec_width() == width,
    {
        let mut cells: Vec<Vec<u8>> = Vec::new();
        while cells.len() < height
            invariant
                cells.len() <= height,
                forall|y: int|
                    0 <= y < cells.len() ==> (#[trigger] cells@[y])@ == Seq::new(
                        width as nat,
                        |x: int| 0u8,
                    ),
            decreases height - cells.len(),
        {
            cells.push(filled_row(width, 0));
        }
        assert(rows_view(cells@) =~= Seq::new(
            height as nat,
            |y: int| Seq::new(width as nat, |x: int| 0u8),
        ));
        FireGrid { cells, width }
    }

    /// The number of cells in every row.
    pub fn width(&self) -> (width: usize)
        ensures
            width == self.spec_width(),
    {
        self.width
    }

    /// The number of rows.
    pub fn height(&self) -> (height: usize)
        ensures
            height == self@.len(),
    {
        self.cells.len()
    }

    /// The heat of the cell in column `x` of row `y`, or `None` where the grid
    /// has no such cell.
    pub fn heat_at(&self, y: usize, x: usize) -> (heat: Option<u8>)
        ensures
            heat == if y < self@.len() && x < self.spec_width() {
                Some(self@[y as int][x as int])
            } else {
                None
            },
            is_rectangular(self@, self.spec_width()),
            is_bounded(self@),
    {
        proof {
            use_type_invariant(self);
        }
        if y < self.cells.len() && x < self.width {
            assert(self@[y as int] == self.cells@[y as int]@);
            Some(self.cells[y][x])
        } else {
            None
        }
    }

    /// Whether `draws` holds one draw for every cell of the grid.
    pub fn is_covered_by(&self, draws: &Vec<Vec<u32>>) -> (covered: bool)
        ensures
            covered == draws_cover(rows_view(draws@), self@),
    {
        proof {
            use_type_invariant(self);
        }
        if draws.len() != self.cells.len() {
            return false;
        }
        let mut y: usize = 0;
        while y < draws.len()
            invariant
                y <= draws.len(),
                draws.len() == self.cells.len(),
                is_rectangular(self@, self.width as nat),
                forall|r: int| 0 <= r < y ==> (#[trigger] draws@[r]).len() == self.width,
            decreases draws.len() - y,
        {
            if draws[y].len() != self.width {
                assert(rows_view(draws@)[y as int].len() != self@[y as int].len());
                return false;
            }
            y += 1;
        }
        true
    }

    /// Advances the fire by one frame under the given draws, one for every
    /// cell: the bottom row is seeded, then every row, from the one above the
    /// bottom up to the top, takes up what rises from the row below it as that
    /// row is after this same step. Where `draws` does not cover the grid,
    /// nothing happens and the answer is `false`.
    pub fn step_with(&mut self, draws: &Vec<Vec<u32>>) -> (done: bool)
        ensures
            done == draws_cover(rows_view(draws@), old(self)@),
            final(self)@ == if done {
                stepped(old(self)@, rows_view(draws@))
            } else {
                old(self)@
            },
            final(self).spec_width() == old(self).spec_width(),
            final(self)@.len() == old(self)@.len(),
            is_rectangular(final(self)@, final(self).spec_width()),
            is_bounded(final(self)@),
            done && final(self)@.len() > 0 ==> final(self)@.last() == seeded_row(
                final(self).spec_width(),
            ),
    {
        proof {
            use_type_invariant(&*self);
        }
        if !self.is_covered_by(draws) {
            return false;
        }
        let height = self.cells.len();
        if height == 0 {
            assert(self@ =~= stepped(self@, rows_view(draws@)));
            return true;
        }
        let ghost before = self@;
        let ghost noise = rows_view(draws@);
        let width = self.width;
        let mut cells: Vec<Vec<u8>> = Vec::new();
        core::mem::swap(&mut self.cells, &mut cells);
        let ghost taken = cells@;
        cells.set(height - 1, filled_row(width, SEED_HEAT));
        proof {
            assert forall|r: int| 0 <= r < height implies #[trigger] rows_view(cells@)[r] == if r
                == height - 1 {
                seeded_row(width as nat)
            } else {
                before[r]
            } by {
                assert(before[r] == taken[r]@);
            }
            assert forall|r: int, c: int|
                0 <= r < height && 0 <= c < rows_view(cells@)[r].len() implies #[trigger] rows_view(
                cells@,
            )[r][c] <= SEED_HEAT by {
                if r != height - 1 {
                    assert(before[r][c] <= SEED_HEAT);
                }
            }
        }
        let mut y: usize = height - 1;
        while y > 0
            invariant
                0 <= y < height,
                height == cells.len(),
                height == before.len(),
                noise == rows_view(draws@),
                draws_cover(noise, before),
                is_rectangular(before, width as nat),
                is_bounded(before),
                is_rectangular(rows_view(cells@), width as nat),
                is_bounded(rows_view(cells@)),
                forall|r: int| 0 <= r < y ==> (#[trigger] cells@[r])@ == before[r],
                forall|r: int|
                    y <= r < height ==> (#[trigger] cells@[r])@ == stepped_row(before, noise, r),
            decreases y,
        {
            let ghost below = cells@[y as int]@;
            let mut above = cells[y - 1].clone();
            proof {
                assert(above@ =~= before[y - 1]);
                assert(noise[y as int] == draws@[y as int]@);
                assert(noise[y as int].len() == before[y as int].len());
                assert(rows_view(cells@)[y as int] == below);
            }
            rise(&cells[y], &mut above, &draws[y]);
            proof {
                assert forall|c: int| 0 <= c < below.len() implies below[c] <= SEED_HEAT by {
                    assert(rows_view(cells@)[y as int][c] <= SEED_HEAT);
                }
                rising_keeps_bounds(below, before[y - 1], noise[y as int]);
                assert(above@ == stepped_row(before, noise, y - 1));
            }
            let ghost lower = cells@;
            cells.set(y - 1, above);
            proof {
                assert forall|r: int, c: int|
                    0 <= r < height && 0 <= c < rows_view(cells@)[r].len() implies #[trigger] rows_view(
                    cells@,
                )[r][c] <= SEED_HEAT by {
                    if r != y - 1 {
                        assert(rows_view(cells@)[r] == rows_view(lower)[r]);
                    }
                }
            }
            y -= 1;
        }
        self.cells = cells;
        assert(self@ =~= stepped(before, noise));
        true
    }

    /// Advances the fire by one frame, with the draws taken from the jitter of
    /// the clock; see `step_with`.
    pub fn step(&mut self)
        ensures
            exists|draws: Seq<Seq<u32>>|
                draws_cover(draws, old(self)@) && final(self)@ == #[trigger] stepped(
                    old(self)@,
                    draws,
                ),
            final(self).spec_width() == old(self).spec_width(),
            final(self)@.len() == old(self)@.len(),
            is_rectangular(final(self)@, final(self).spec_width()),
            is_bounded(final(self)@),
            final(self)@.len() > 0 ==> final(self)@.last() == seeded_row(final(self).spec_width()),
    {
        proof {
            use_type_invariant(&*self);
        }
        let height = self.cells.len();
        let width = self.width;
        let mut draws: Vec<Vec<u32>> = Vec::new();
        while draws.len() < height
            invariant
                draws.len() <= height,
                forall|y: int| 0 <= y < draws.len() ==> (#[trigger] draws@[y]).len() == width,
            decreases height - draws.len(),
        {
            let mut row: Vec<u32> = Vec::new();
            while row.len() < width
                invariant
                    row.len() <= width,
                decreases width - row.len(),
            {
                row.push(jitter());
            }
            draws.push(row);
        }
        assert(draws_cover(rows_view(draws@), self@));
        let done = self.step_with(&draws);
        assert(done);
    }

    /// Paints the fire with the grid's top left cell on `at`: row by row from
    /// the top, every lit cell as a background in the colour of its heat.
    /// Unlit cells are left alone, and so are cells that would land beyond the
    /// last addressable row or column.
    pub fn paint(&self, term: &mut Term, at: Vec2)
        ensures
            final(term)@ == old(term)@ + fire_commands(at, self@),
    {
        proof {
            use_type_invariant(self);
        }
        let mut y: usize = 0;
        while y < self.cells.len()
            invariant
                y <= self.cells.len(),
                term@ == old(term)@ + flame_rows_commands(at, self@, y as int),
            decreases self.cells.len() - y,
        {
            let row = &self.cells[y];
            let ghost painted = term@;
            assert(self@[y as int] == row@);
            let mut x: usize = 0;
            while x < row.len()
                invariant
                    x <= row.len(),
                    term@ == painted + flame_row_commands(at, y as int, row@, x as int),
                decreases row.len() - x,
            {
                if let Some(color) = flame_color(row[x]) {
                    if x <= (u16::MAX - at.x) as usize && y <= (u16::MAX - at.y) as usize {
                        term.set_pixel_bg(Vec2::new(at.x + x as u16, at.y + y as u16), color);
                    }
                }
                x += 1;
            }
            y += 1;
        }
    }
}

} // verus!

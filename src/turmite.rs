use rand::Rng;
use vstd::prelude::*;

verus! {

use crate::decision::{decision_of, catalog_table, DecisionTable, CATALOG_LEN};
use crate::orientation::{rotated, Orientation, Rotate};
use crate::render::{Color, Fill};

/// The state of a turmite as mathematical values. The grid is kept row by
/// row: cell `(x, y)` is `cells[y * width + x]`.
pub struct TurmiteView {
    pub x: int,
    pub y: int,
    pub orientation: Orientation,
    pub behavior: DecisionTable,
    pub state: bool,
    pub width: int,
    pub height: int,
    pub cells: Seq<bool>,
    pub pixel_ratio: int,
    pub active: bool,
}

/// The invariant of every turmite: the grid holds `width * height` cells,
/// the position is at most one step past the grid on either axis, and every
/// pixel coordinate up to the grid's far edge fits in a `usize`.
pub open spec fn inv(v: TurmiteView) -> bool {
    &&& v.width >= 1
    &&& v.height >= 1
    &&& v.pixel_ratio >= 1
    &&& v.cells.len() == v.width * v.height
    &&& v.width * v.height <= usize::MAX
    &&& 0 <= v.x <= v.width
    &&& 0 <= v.y <= v.height
    &&& v.width * v.pixel_ratio <= usize::MAX
    &&& v.height * v.pixel_ratio <= usize::MAX
}

/// Whether the position is a cell of the grid.
pub open spec fn in_grid(v: TurmiteView) -> bool {
    0 <= v.x < v.width && 0 <= v.y < v.height
}

/// Where cell `(x, y)` is kept in `cells`.
pub open spec fn cell_index(width: int, x: int, y: int) -> int {
    y * width + x
}

/// The color of the cell under the turmite.
pub open spec fn current_color(v: TurmiteView) -> bool {
    v.cells[cell_index(v.width, v.x, v.y)]
}

/// The state after reading the current cell and applying the table's
/// decision: new internal state, new heading, new color of the cell.
pub open spec fn after_decision(v: TurmiteView) -> TurmiteView {
    let d = decision_of(v.behavior, v.state, current_color(v));
    TurmiteView {
        state: d.state,
        orientation: rotated(v.orientation, d.rotate),
        cells: v.cells.update(cell_index(v.width, v.x, v.y), d.color),
        ..v
    }
}

/// The step, on the two axes, of one move in heading `o`.
pub open spec fn delta(o: Orientation) -> (int, int) {
    match o {
        Orientation::Up => (0, -1),
        Orientation::Right => (1, 0),
        Orientation::Down => (0, 1),
        Orientation::Left => (-1, 0),
    }
}

/// The state after one move in the current heading. A coordinate that would
/// become negative is held at zero, and the turmite stops for good.
pub open spec fn after_move(v: TurmiteView) -> TurmiteView {
    let nx = v.x + delta(v.orientation).0;
    let ny = v.y + delta(v.orientation).1;
    TurmiteView {
        x: if nx < 0 { 0 } else { nx },
        y: if ny < 0 { 0 } else { ny },
        active: v.active && nx >= 0 && ny >= 0,
        ..v
    }
}

/// The state after one tick. A stopped turmite does not change; one that
/// stands outside the grid stops; any other decides, then moves.
pub open spec fn next(v: TurmiteView) -> TurmiteView {
    if !v.active {
        v
    } else if !in_grid(v) {
        TurmiteView { active: false, ..v }
    } else {
        after_move(after_decision(v))
    }
}

/// The state after `n` ticks.
pub open spec fn run(v: TurmiteView, n: nat) -> TurmiteView
    decreases n,
{
    if n == 0 {
        v
    } else {
        next(run(v, (n - 1) as nat))
    }
}

/// The square of pixels of the cell under the turmite, filled with `color`.
pub open spec fn fill_at(v: TurmiteView, color: Color) -> Fill {
    Fill {
        color,
        x: (v.x * v.pixel_ratio) as usize,
        y: (v.y * v.pixel_ratio) as usize,
        size: v.pixel_ratio as usize,
    }
}

/// The color that shows a cell's value.
pub open spec fn cell_color(b: bool) -> Color {
    if b {
        Color::Filled
    } else {
        Color::Empty
    }
}

/// The drawing of one tick: the cell just left, in its new color, then the
/// marker on the new position unless the move stopped the turmite.
pub open spec fn tick_draws(v: TurmiteView) -> Seq<Fill> {
    if !v.active || !in_grid(v) {
        Seq::empty()
    } else {
        let d = after_decision(v);
        let m = after_move(d);
        let cell = fill_at(d, cell_color(current_color(d)));
        if m.active {
            seq![cell, fill_at(m, Color::Agent)]
        } else {
            seq![cell]
        }
    }
}

/// The grid size that a drawing surface of `canvas` pixels holds, at
/// `pixel_ratio` pixels per cell.
pub open spec fn cells_across(canvas: int, pixel_ratio: int) -> int {
    canvas / pixel_ratio
}

/// What a new turmite needs: at least one cell on each axis, and a grid that
/// a `usize` can count.
pub open spec fn can_start(canvas_width: int, canvas_height: int, pixel_ratio: int) -> bool {
    &&& pixel_ratio >= 1
    &&& cells_across(canvas_width, pixel_ratio) >= 1
    &&& cells_across(canvas_height, pixel_ratio) >= 1
    &&& cells_across(canvas_width, pixel_ratio) * cells_across(canvas_height, pixel_ratio)
        <= usize::MAX
}

/// A new turmite: at the center of an empty grid, heading right, with the
/// given behavior and internal state, and `color` written on its cell.
pub open spec fn initial(
    canvas_width: int,
    canvas_height: int,
    pixel_ratio: int,
    behavior: DecisionTable,
    state: bool,
    color: bool,
) -> TurmiteView {
    let width = cells_across(canvas_width, pixel_ratio);
    let height = cells_across(canvas_height, pixel_ratio);
    TurmiteView {
        x: width / 2,
        y: height / 2,
        orientation: Orientation::Right,
        behavior,
        state,
        width,
        height,
        cells: Seq::new((width * height) as nat, |i: int| false).update(
            cell_index(width, width / 2, height / 2),
            color,
        ),
        pixel_ratio,
        active: true,
    }
}

/// The character that shows a cell's value.
pub open spec fn cell_char(b: bool) -> char {
    if b {
        '1'
    } else {
        '0'
    }
}

/// The cells as characters, row by row.
pub open spec fn dump_of(cells: Seq<bool>) -> Seq<char> {
    cells.map_values(|b: bool| cell_char(b))
}

proof fn lemma_cell_in_grid(width: int, height: int, x: int, y: int)
    requires
        0 <= x < width,
        0 <= y < height,
    ensures
        0 <= cell_index(width, x, y) < width * height,
{
    assert(0 <= y * width + x < width * height) by (nonlinear_arith)
        requires
            0 <= x < width,
            0 <= y < height,
    ;
}

proof fn lemma_pixel_fits(a: int, b: int, ratio: int)
    requires
        0 <= a <= b,
        ratio >= 1,
    ensures
        0 <= a * ratio <= b * ratio,
{
    assert(0 <= a * ratio <= b * ratio) by (nonlinear_arith)
        requires
            0 <= a <= b,
            ratio >= 1,
    ;
}

/// Relies on rand's `Rng::gen` for `bool` with the thread-local generator;
/// nothing is promised of the value drawn.
#[verifier::external_body]
fn random_bool() -> bool {
    rand::thread_rng().gen::<bool>()
}

/// A turmite on its grid.
pub struct Turmite {
    x: usize,
    y: usize,
    orientation: Orientation,
    behavior: DecisionTable,
    state: bool,
    width: usize,
    height: usize,
    field: Vec<bool>,
    pixel_ratio: usize,
    is_active: bool,
}

impl View for Turmite {
    type V = TurmiteView;

    closed spec fn view(&self) -> TurmiteView {
        TurmiteView {
            x: self.x as int,
            y: self.y as int,
            orientation: self.orientation,
            behavior: self.behavior,
            state: self.state,
            width: self.width as int,
            height: self.height as int,
            cells: self.field@,
            pixel_ratio: self.pixel_ratio as int,
            active: self.is_active,
        }
    }
}

impl Turmite {
    /// A turmite at the center of a grid of `canvas_width / pixel_ratio` by
    /// `canvas_height / pixel_ratio` cells, heading right, with the given
    /// behavior and starting internal state, and `color` written on its cell.
    pub fn with_choices(
        canvas_width: usize,
        canvas_height: usize,
        pixel_ratio: usize,
        behavior: DecisionTable,
        state: bool,
        color: bool,
    ) -> (r: Turmite)
        requires
            can_start(canvas_width as int, canvas_height as int, pixel_ratio as int),
        ensures
            r@ == initial(
                canvas_width as int,
                canvas_height as int,
                pixel_ratio as int,
                behavior,
                state,
                color,
            ),
            inv(r@),
    {
        let width = canvas_width / pixel_ratio;
        let height = canvas_height / pixel_ratio;
        let n = width * height;
        let mut field: Vec<bool> = Vec::new();
        let mut i: usize = 0;
        while i < n
            invariant
                i <= n,
                field@ == Seq::new(i as nat, |k: int| false),
            decreases n - i,
        {
            field.push(false);
            i = i + 1;
            assert(field@ =~= Seq::new(i as nat, |k: int| false));
        }
        let mut turmite = Turmite {
            x: width / 2,
            y: height / 2,
            orientation: Orientation::Right,
            behavior,
            state,
            width,
            height,
            field,
            pixel_ratio,
            is_active: true,
        };
        proof {
            lemma_cell_in_grid(width as int, height as int, (width / 2) as int, (height / 2) as int);
            assert(width * pixel_ratio <= canvas_width) by (nonlinear_arith)
                requires
                    width == canvas_width / pixel_ratio,
                    pixel_ratio >= 1,
            ;
            assert(height * pixel_ratio <= canvas_height) by (nonlinear_arith)
                requires
                    height == canvas_height / pixel_ratio,
                    pixel_ratio >= 1,
            ;
        }
        turmite.set_color(color);
        turmite
    }

    /// A turmite at the center of a grid of `canvas_width / pixel_ratio` by
    /// `canvas_height / pixel_ratio` cells, heading right, with a table of the
    /// catalog, a starting internal state and a color of its cell all drawn at
    /// random.
    pub fn new(canvas_width: usize, canvas_height: usize, pixel_ratio: usize) -> (r: Turmite)
        requires
            can_start(canvas_width as int, canvas_height as int, pixel_ratio as int),
        ensures
            inv(r@),
            exists|i: int, state: bool, color: bool|
                0 <= i < CATALOG_LEN && r@ == #[trigger] initial(
                    canvas_width as int,
                    canvas_height as int,
                    pixel_ratio as int,
                    catalog_table(i),
                    state,
                    color,
                ),
    {
        let state = random_bool();
        let behavior = DecisionTable::random();
        let color = random_bool();
        Turmite::with_choices(canvas_width, canvas_height, pixel_ratio, behavior, state, color)
    }

    fn cur_color(&self) -> (r: bool)
        requires
            inv(self@),
            in_grid(self@),
        ensures
            r == current_color(self@),
    {
        proof {
            lemma_cell_in_grid(self.width as int, self.height as int, self.x as int, self.y as int);
        }
        self.field[self.y * self.width + self.x]
    }

    fn set_color(&mut self, v: bool)
        requires
            old(self).field@.len() == old(self).width * old(self).height,
            old(self).width * old(self).height <= usize::MAX,
            in_grid(old(self)@),
        ensures
            final(self)@ == (TurmiteView {
                cells: old(self)@.cells.update(
                    cell_index(old(self)@.width, old(self)@.x, old(self)@.y),
                    v,
                ),
                ..old(self)@
            }),
    {
        proof {
            lemma_cell_in_grid(self.width as int, self.height as int, self.x as int, self.y as int);
            assert(self.y * self.width <= self.y * self.width + self.x);
        }
        let i = self.y * self.width + self.x;
        self.field.set(i, v);
    }

    fn move_by(&mut self, dx: i32, dy: i32)
        requires
            inv(old(self)@),
            in_grid(old(self)@),
            (dx as int, dy as int) == delta(old(self)@.orientation),
        ensures
            final(self)@ == after_move(old(self)@),
    {
        let new_x: usize = if dx < 0 {
            if self.x == 0 {
                self.is_active = false;
                0
            } else {
                self.x - 1
            }
        } else {
            self.x + dx as usize
        };
        let new_y: usize = if dy < 0 {
            if self.y == 0 {
                self.is_active = false;
                0
            } else {
                self.y - 1
            }
        } else {
            self.y + dy as usize
        };
        self.x = new_x;
        self.y = new_y;
    }

    fn rotate(&mut self, rotation: Rotate)
        ensures
            final(self)@ == (TurmiteView {
                orientation: rotated(old(self)@.orientation, rotation),
                ..old(self)@
            }),
    {
        self.orientation = self.orientation.rotate(rotation);
    }

    fn tick_state(&mut self)
        requires
            inv(old(self)@),
            in_grid(old(self)@),
        ensures
            final(self)@ == after_decision(old(self)@),
    {
        let color = self.cur_color();
        let d = self.behavior.decide(self.state, color);
        self.state = d.state;
        self.rotate(d.rotate);
        self.set_color(d.color);
    }

    fn tick_pos(&mut self)
        requires
            inv(old(self)@),
        ensures
            final(self)@ == if in_grid(old(self)@) {
                after_move(old(self)@)
            } else {
                TurmiteView { active: false, ..old(self)@ }
            },
    {
        if self.x < self.width && self.y < self.height {
            match self.orientation {
                Orientation::Up => self.move_by(0, -1),
                Orientation::Right => self.move_by(1, 0),
                Orientation::Down => self.move_by(0, 1),
                Orientation::Left => self.move_by(-1, 0),
            }
        } else {
            self.is_active = false;
        }
    }

    fn render(&self, color: Color) -> (r: Option<Fill>)
        requires
            inv(self@),
        ensures
            r == if self@.active {
                Some(fill_at(self@, color))
            } else {
                None
            },
    {
        if self.is_active() {
            proof {
                lemma_pixel_fits(self.x as int, self.width as int, self.pixel_ratio as int);
                lemma_pixel_fits(self.y as int, self.height as int, self.pixel_ratio as int);
            }
            Some(
                Fill {
                    color,
                    x: self.x * self.pixel_ratio,
                    y: self.y * self.pixel_ratio,
                    size: self.pixel_ratio,
                },
            )
        } else {
            None
        }
    }

    fn render_self(&self) -> (r: Option<Fill>)
        requires
            inv(self@),
        ensures
            r == if self@.active {
                Some(fill_at(self@, Color::Agent))
            } else {
                None
            },
    {
        self.render(Color::Agent)
    }

    fn render_cell(&self) -> (r: Option<Fill>)
        requires
            inv(self@),
            in_grid(self@),
        ensures
            r == if self@.active {
                Some(fill_at(self@, cell_color(current_color(self@))))
            } else {
                None
            },
    {
        let color = if self.cur_color() {
            Color::Filled
        } else {
            Color::Empty
        };
        self.render(color)
    }

    /// Whether the turmite still moves.
    pub fn is_active(&self) -> (r: bool)
        ensures
            r == self@.active,
    {
        self.is_active
    }

    /// The cell the turmite stands on, as `(x, y)`.
    pub fn position(&self) -> (r: (usize, usize))
        ensures
            r.0 == self@.x,
            r.1 == self@.y,
    {
        (self.x, self.y)
    }

    /// The current heading.
    pub fn orientation(&self) -> (r: Orientation)
        ensures
            r == self@.orientation,
    {
        self.orientation
    }

    /// The current internal state.
    pub fn state(&self) -> (r: bool)
        ensures
            r == self@.state,
    {
        self.state
    }

    /// The decision table the turmite follows.
    pub fn behavior(&self) -> (r: DecisionTable)
        ensures
            r == self@.behavior,
    {
        self.behavior
    }

    /// The side of one cell, in pixels.
    pub fn pixel_ratio(&self) -> (r: usize)
        ensures
            r == self@.pixel_ratio,
    {
        self.pixel_ratio
    }

    /// The number of cells across the grid.
    pub fn width(&self) -> (r: usize)
        ensures
            r == self@.width,
    {
        self.width
    }

    /// The number of cells down the grid.
    pub fn height(&self) -> (r: usize)
        ensures
            r == self@.height,
    {
        self.height
    }

    /// The value of cell `(x, y)`.
    pub fn cell(&self, x: usize, y: usize) -> (r: bool)
        requires
            inv(self@),
            x < self@.width,
            y < self@.height,
        ensures
            r == self@.cells[cell_index(self@.width, x as int, y as int)],
    {
        proof {
            lemma_cell_in_grid(self.width as int, self.height as int, x as int, y as int);
            assert(y * self.width <= y * self.width + x);
        }
        self.field[y * self.width + x]
    }

    /// One tick: decide, write the cell, turn, draw the cell just left, move,
    /// and draw the turmite where it now stands. The fills to draw come back
    /// in order. A stopped turmite does nothing, and one found outside the
    /// grid stops without drawing.
    pub fn tick(&mut self) -> (r: Vec<Fill>)
        requires
            inv(old(self)@),
        ensures
            inv(final(self)@),
            final(self)@ == next(old(self)@),
            r@ == tick_draws(old(self)@),
    {
        let mut draws: Vec<Fill> = Vec::new();
        if self.is_active() {
            if self.x < self.width && self.y < self.height {
                self.tick_state();
                proof {
                    lemma_cell_in_grid(
                        self.width as int,
                        self.height as int,
                        self.x as int,
                        self.y as int,
                    );
                }
                match self.render_cell() {
                    Some(f) => draws.push(f),
                    None => {},
                }
                self.tick_pos();
                match self.render_self() {
                    Some(f) => draws.push(f),
                    None => {},
                }
            } else {
                self.is_active = false;
            }
        }
        proof {
            assert(draws@ =~= tick_draws(old(self)@));
        }
        draws
    }

    /// The grid as a string of '0' and '1', one character per cell, row by
    /// row.
    pub fn debug_dump(&self) -> (r: String)
        requires
            inv(self@),
        ensures
            r@ == dump_of(self@.cells),
            r@.len() == self@.width * self@.height,
            forall|x: int, y: int|
                0 <= x < self@.width && 0 <= y < self@.height ==> r@[cell_index(self@.width, x, y)]
                    == cell_char(#[trigger] self@.cells[cell_index(self@.width, x, y)]),
    {
        let mut out = String::new();
        let mut i: usize = 0;
        while i < self.field.len()
            invariant
                i <= self.field@.len(),
                out@ == dump_of(self.field@.subrange(0, i as int)),
            decreases self.field@.len() - i,
        {
            proof {
                reveal_strlit("0");
                reveal_strlit("1");
            }
            if self.field[i] {
                out.append("1");
            } else {
                out.append("0");
            }
            proof {
                assert(self.field@.subrange(0, i + 1) =~= self.field@.subrange(0, i as int).push(
                    self.field@[i as int],
                ));
                assert(out@ =~= dump_of(self.field@.subrange(0, i + 1)));
            }
            i = i + 1;
        }
        proof {
            assert(self.field@.subrange(0, i as int) =~= self.field@);
            assert forall|x: int, y: int|
                0 <= x < self@.width && 0 <= y < self@.height implies out@[cell_index(
                    self@.width,
                    x,
                    y,
                )] == cell_char(#[trigger] self@.cells[cell_index(self@.width, x, y)]) by {
                lemma_cell_in_grid(self@.width, self@.height, x, y);
            }
        }
        out
    }
}

/// Every tick keeps the invariant.
pub proof fn lemma_next_keeps_inv(v: TurmiteView)
    requires
        inv(v),
    ensures
        inv(next(v)),
{
    if v.active && in_grid(v) {
        lemma_cell_in_grid(v.width, v.height, v.x, v.y);
    }
}

/// The first tick of a new turmite applies the table's decision for its
/// starting internal state and the starting color of its cell: the internal
/// state, the heading and the color of that cell afterwards are the ones the
/// decision names.
pub proof fn lemma_first_tick_applies_decision(
    canvas_width: int,
    canvas_height: int,
    pixel_ratio: int,
    behavior: DecisionTable,
    state: bool,
    color: bool,
)
    requires
        can_start(canvas_width, canvas_height, pixel_ratio),
    ensures
        ({
            let v = initial(canvas_width, canvas_height, pixel_ratio, behavior, state, color);
            let d = decision_of(behavior, state, color);
            &&& next(v).state == d.state
            &&& next(v).orientation == rotated(Orientation::Right, d.rotate)
            &&& next(v).cells[cell_index(v.width, v.x, v.y)] == d.color
        }),
{
    let v = initial(canvas_width, canvas_height, pixel_ratio, behavior, state, color);
    lemma_cell_in_grid(v.width, v.height, v.x, v.y);
    assert(current_color(v) == color);
}

/// A stopped turmite never changes again, however many ticks follow, and
/// none of those ticks draws anything.
pub proof fn lemma_stopped_stays(v: TurmiteView, n: nat)
    requires
        !v.active,
    ensures
        run(v, n) == v,
        tick_draws(run(v, n)) == Seq::<Fill>::empty(),
    decreases n,
{
    if n > 0 {
        lemma_stopped_stays(v, (n - 1) as nat);
    }
}

/// A turmite on column zero whose decision turns it to the left stops on
/// that tick's move: it stays on column zero and row, draws only the cell it
/// left, and no later tick changes its grid or draws anything.
pub proof fn lemma_left_exit_stops(v: TurmiteView)
    requires
        inv(v),
        v.active,
        in_grid(v),
        v.x == 0,
        after_decision(v).orientation == Orientation::Left,
    ensures
        !next(v).active,
        next(v).x == 0,
        next(v).y == v.y,
        next(v).cells == after_decision(v).cells,
        tick_draws(v).len() == 1,
        forall|n: nat|
            (#[trigger] run(next(v), n)).cells == next(v).cells && tick_draws(run(next(v), n))
                == Seq::<Fill>::empty(),
{
    assert forall|n: nat|
        (#[trigger] run(next(v), n)).cells == next(v).cells && tick_draws(run(next(v), n))
            == Seq::<Fill>::empty() by {
        lemma_stopped_stays(next(v), n);
    }
}

} // verus!

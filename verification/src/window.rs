//! The window buffer: the grid of characters that a frame is composed on
//! before it is shown.

use vstd::prelude::*;

verus! {

/// The characters drawn along the four edges and at the four corners of a
/// window. An edge or corner without a character is not drawn.
#[derive(Clone, Copy, Debug, PartialEq, Eq)]
pub struct Decoration {
    pub left: Option<char>,
    pub right: Option<char>,
    pub top: Option<char>,
    pub bottom: Option<char>,
    pub top_left: Option<char>,
    pub top_right: Option<char>,
    pub bottom_left: Option<char>,
    pub bottom_right: Option<char>,
}

/// A grid of `height` rows of `width` cells that all hold `fill`.
pub open spec fn blank(width: nat, height: nat, fill: char) -> Seq<Seq<char>> {
    Seq::new(height, |y: int| Seq::new(width, |x: int| fill))
}

/// `cells` with every cell holding `fill`.
pub open spec fn cleared(cells: Seq<Seq<char>>, fill: char) -> Seq<Seq<char>> {
    Seq::new(cells.len(), |y: int| Seq::new(cells[y].len(), |x: int| fill))
}

/// Whether column `x` of row `y` is a cell of `cells`.
pub open spec fn inside(cells: Seq<Seq<char>>, x: int, y: int) -> bool {
    0 <= y < cells.len() && 0 <= x < cells[y].len()
}

/// `cells` with `ch` written at column `x` of row `y`; a place outside the
/// grid is left out.
pub open spec fn put(cells: Seq<Seq<char>>, x: int, y: int, ch: char) -> Seq<Seq<char>> {
    if inside(cells, x, y) {
        cells.update(y, cells[y].update(x, ch))
    } else {
        cells
    }
}

/// The glyph that `glyphs`, with its first cell placed at column `left` of
/// row `top`, puts on column `x` of row `y`, if it reaches there.
pub open spec fn glyph_over(glyphs: Seq<Seq<char>>, left: int, top: int, x: int, y: int) -> Option<
    char,
> {
    if inside(glyphs, x - left, y - top) {
        Some(glyphs[y - top][x - left])
    } else {
        None
    }
}

/// `under` with `glyphs` drawn over it, the first glyph at column `left` of
/// row `top`. Glyphs that fall outside `under` are dropped; cells that no
/// glyph reaches keep what they held.
pub open spec fn overlay(under: Seq<Seq<char>>, glyphs: Seq<Seq<char>>, left: int, top: int) -> Seq<
    Seq<char>,
> {
    Seq::new(
        under.len(),
        |y: int|
            Seq::new(
                under[y].len(),
                |x: int|
                    match glyph_over(glyphs, left, top, x, y) {
                        Some(glyph) => glyph,
                        None => under[y][x],
                    },
            ),
    )
}

/// The character that `decoration` puts on column `x` of row `y` of a
/// window of the given size, if any. Edges run the whole length of their
/// side. Where they meet, a corner goes over an upright edge and an upright
/// edge over a level one.
pub open spec fn decoration_at(decoration: Decoration, width: int, height: int, x: int, y: int)
    -> Option<char> {
    let at_left = x == 0;
    let at_right = x == width - 1;
    let at_top = y == 0;
    let at_bottom = y == height - 1;
    if at_bottom && at_right && decoration.bottom_right is Some {
        decoration.bottom_right
    } else if at_bottom && at_left && decoration.bottom_left is Some {
        decoration.bottom_left
    } else if at_top && at_right && decoration.top_right is Some {
        decoration.top_right
    } else if at_top && at_left && decoration.top_left is Some {
        decoration.top_left
    } else if at_right && decoration.right is Some {
        decoration.right
    } else if at_left && decoration.left is Some {
        decoration.left
    } else if at_bottom && decoration.bottom is Some {
        decoration.bottom
    } else if at_top && decoration.top is Some {
        decoration.top
    } else {
        None
    }
}

/// `under` with `decoration` drawn along its rim.
pub open spec fn decorated(under: Seq<Seq<char>>, decoration: Decoration) -> Seq<Seq<char>> {
    Seq::new(
        under.len(),
        |y: int|
            Seq::new(
                under[y].len(),
                |x: int|
                    match decoration_at(decoration, under[y].len() as int, under.len() as int, x, y) {
                        Some(ch) => ch,
                        None => under[y][x],
                    },
            ),
    )
}

/// `under` with only the first glyphs of `glyphs` drawn over it: the rows
/// before `row`, and of row `row` the glyphs before `column`.
pub open spec fn overlay_part(
    under: Seq<Seq<char>>,
    glyphs: Seq<Seq<char>>,
    left: int,
    top: int,
    row: int,
    column: int,
) -> Seq<Seq<char>> {
    Seq::new(
        under.len(),
        |y: int|
            Seq::new(
                under[y].len(),
                |x: int|
                    match glyph_over(glyphs, left, top, x, y) {
                        Some(glyph) => if y - top < row || (y - top == row && x - left < column) {
                            glyph
                        } else {
                            under[y][x]
                        },
                        None => under[y][x],
                    },
            ),
    )
}

/// Drawing no glyph at all leaves the grid as it was.
pub proof fn lemma_overlay_start(under: Seq<Seq<char>>, glyphs: Seq<Seq<char>>, left: int, top: int)
    ensures
        overlay_part(under, glyphs, left, top, 0, 0) == under,
{
    let part = overlay_part(under, glyphs, left, top, 0, 0);
    assert forall|y: int| 0 <= y < under.len() implies part[y] == under[y] by {
        assert(part[y] =~= under[y]);
    }
    assert(part =~= under);
}

/// Writing the next glyph of a row extends what has been drawn by it.
pub proof fn lemma_overlay_step(
    under: Seq<Seq<char>>,
    glyphs: Seq<Seq<char>>,
    left: int,
    top: int,
    row: int,
    column: int,
)
    requires
        inside(glyphs, column, row),
    ensures
        put(
            overlay_part(under, glyphs, left, top, row, column),
            left + column,
            top + row,
            glyphs[row][column],
        ) == overlay_part(under, glyphs, left, top, row, column + 1),
{
    let before = overlay_part(under, glyphs, left, top, row, column);
    let after = overlay_part(under, glyphs, left, top, row, column + 1);
    let written = put(before, left + column, top + row, glyphs[row][column]);
    assert(written.len() == after.len());
    assert forall|y: int| 0 <= y < after.len() implies written[y] == after[y] by {
        assert(written[y] =~= after[y]);
    }
    assert(written =~= after);
}

/// Once a row is drawn to its end, the next row is about to begin.
pub proof fn lemma_overlay_next_row(
    under: Seq<Seq<char>>,
    glyphs: Seq<Seq<char>>,
    left: int,
    top: int,
    row: int,
    column: int,
)
    requires
        0 <= row < glyphs.len(),
        column >= glyphs[row].len(),
    ensures
        overlay_part(under, glyphs, left, top, row, column) == overlay_part(
            under,
            glyphs,
            left,
            top,
            row + 1,
            0,
        ),
{
    let this = overlay_part(under, glyphs, left, top, row, column);
    let next = overlay_part(under, glyphs, left, top, row + 1, 0);
    assert forall|y: int| 0 <= y < this.len() implies this[y] == next[y] by {
        assert(this[y] =~= next[y]);
    }
    assert(this =~= next);
}

/// Once every row is drawn, all of `glyphs` lies over the grid.
pub proof fn lemma_overlay_done(
    under: Seq<Seq<char>>,
    glyphs: Seq<Seq<char>>,
    left: int,
    top: int,
    row: int,
)
    requires
        row >= glyphs.len(),
    ensures
        overlay_part(under, glyphs, left, top, row, 0) == overlay(under, glyphs, left, top),
{
    let part = overlay_part(under, glyphs, left, top, row, 0);
    let whole = overlay(under, glyphs, left, top);
    assert forall|y: int| 0 <= y < part.len() implies part[y] == whole[y] by {
        assert(part[y] =~= whole[y]);
    }
    assert(part =~= whole);
}

impl Decoration {
    /// No edge and no corner.
    pub fn new() -> (decoration: Decoration)
        ensures
            decoration == (Decoration {
                left: None,
                right: None,
                top: None,
                bottom: None,
                top_left: None,
                top_right: None,
                bottom_left: None,
                bottom_right: None,
            }),
    {
        Decoration {
            left: None,
            right: None,
            top: None,
            bottom: None,
            top_left: None,
            top_right: None,
            bottom_left: None,
            bottom_right: None,
        }
    }

    /// The character that the decoration puts on column `x` of row `y` of a
    /// window of the given size, if any.
    pub fn at(&self, width: usize, height: usize, x: usize, y: usize) -> (ch: Option<char>)
        requires
            x < width,
            y < height,
        ensures
            ch == decoration_at(*self, width as int, height as int, x as int, y as int),
    {
        let at_left = x == 0;
        let at_right = x == width - 1;
        let at_top = y == 0;
        let at_bottom = y == height - 1;
        if at_bottom && at_right && self.bottom_right.is_some() {
            self.bottom_right
        } else if at_bottom && at_left && self.bottom_left.is_some() {
            self.bottom_left
        } else if at_top && at_right && self.top_right.is_some() {
            self.top_right
        } else if at_top && at_left && self.top_left.is_some() {
            self.top_left
        } else if at_right && self.right.is_some() {
            self.right
        } else if at_left && self.left.is_some() {
            self.left
        } else if at_bottom && self.bottom.is_some() {
            self.bottom
        } else if at_top && self.top.is_some() {
            self.top
        } else {
            None
        }
    }
}

/// A rectangular grid of characters, addressed by row and column from the
/// top left.
pub struct WindowBuffer {
    rows: Vec<Vec<char>>,
    width: usize,
}

impl View for WindowBuffer {
    type V = Seq<Seq<char>>;

    /// The rows of the window, top row first.
    closed spec fn view(&self) -> Seq<Seq<char>> {
        Seq::new(self.rows@.len(), |y: int| self.rows@[y]@)
    }
}

impl WindowBuffer {
    /// The number of columns.
    pub closed spec fn spec_width(&self) -> nat {
        self.width as nat
    }

    /// The window is a rectangle: every row is as long as the window is
    /// wide.
    #[verifier::type_invariant]
    spec fn rectangular(&self) -> bool {
        forall|y: int| 0 <= y < self.rows@.len() ==> (#[trigger] self.rows@[y])@.len() == self.width
    }

    /// A window of the given size with every cell holding `fill`.
    pub fn new(width: usize, height: usize, fill: char) -> (window: WindowBuffer)
        ensures
            window.spec_width() == width,
            window@ == blank(width as nat, height as nat, fill),
    {
        let mut rows: Vec<Vec<char>> = Vec::new();
        let mut y: usize = 0;
        while y < height
            invariant
                y <= height,
                rows@.len() == y,
                forall|r: int| 0 <= r < y ==> (#[trigger] rows@[r])@ == Seq::new(
                    width as nat,
                    |x: int| fill,
                ),
            decreases height - y,
        {
            let mut row: Vec<char> = Vec::new();
            let mut x: usize = 0;
            while x < width
                invariant
                    x <= width,
                    row@.len() == x,
                    forall|c: int| 0 <= c < x ==> row@[c] == fill,
                decreases width - x,
            {
                row.push(fill);
                x = x + 1;
            }
            assert(row@ =~= Seq::new(width as nat, |x: int| fill));
            rows.push(row);
            y = y + 1;
        }
        let window = WindowBuffer { rows, width };
        assert(window@ =~= blank(width as nat, height as nat, fill));
        window
    }

    /// The number of columns.
    pub fn get_width(&self) -> (width: usize)
        ensures
            width == self.spec_width(),
            forall|y: int| 0 <= y < self@.len() ==> (#[trigger] self@[y]).len() == width,
    {
        proof {
            use_type_invariant(self);
        }
        self.width
    }

    /// The number of rows.
    pub fn get_height(&self) -> (height: usize)
        ensures
            height == self@.len(),
    {
        self.rows.len()
    }

    /// The character at column `x` of row `y`, or nothing outside the
    /// window.
    pub fn cell(&self, x: usize, y: usize) -> (ch: Option<char>)
        ensures
            ch == (if inside(self@, x as int, y as int) {
                Some(self@[y as int][x as int])
            } else {
                None
            }),
    {
        proof {
            use_type_invariant(self);
        }
        if y < self.rows.len() && x < self.width {
            Some(self.rows[y][x])
        } else {
            None
        }
    }

    /// Puts `ch` into the cell at column `x` of row `y`. A place outside
    /// the window is skipped.
    pub fn set_cell(&mut self, x: usize, y: usize, ch: char)
        ensures
            final(self).spec_width() == old(self).spec_width(),
            final(self)@ == put(old(self)@, x as int, y as int, ch),
    {
        proof {
            use_type_invariant(&*self);
        }
        if y >= self.rows.len() || x >= self.width {
            return ;
        }
        let mut rows: Vec<Vec<char>> = Vec::new();
        core::mem::swap(&mut self.rows, &mut rows);
        rows[y][x] = ch;
        self.rows = rows;
        assert(self@ =~= put(old(self)@, x as int, y as int, ch));
    }

    /// Writes `ch` at column `x` of row `y`, either of which may lie
    /// before the window. A place outside the window is skipped.
    pub fn write_char(&mut self, x: i32, y: i32, ch: char)
        ensures
            final(self).spec_width() == old(self).spec_width(),
            final(self)@ == put(old(self)@, x as int, y as int, ch),
    {
        if x >= 0 && y >= 0 {
            self.set_cell(x as usize, y as usize, ch);
        }
    }

    /// Writes `text` on row `y` from column `x` on, one character to a
    /// column. Characters that fall outside the window are dropped.
    pub fn write_str(&mut self, x: i32, y: i32, text: &str)
        ensures
            final(self).spec_width() == old(self).spec_width(),
            final(self)@ == overlay(old(self)@, seq![text@], x as int, y as int),
    {
        let ghost under = self@;
        let ghost glyphs = seq![text@];
        proof {
            lemma_overlay_start(under, glyphs, x as int, y as int);
            lemma_overlay_next_row(under, glyphs, x as int, y as int, 0, text@.len() as int);
            lemma_overlay_done(under, glyphs, x as int, y as int, 1);
        }
        if y < 0 {
            proof {
                let whole = overlay(under, glyphs, x as int, y as int);
                assert forall|r: int| 0 <= r < under.len() implies whole[r] == under[r] by {
                    assert(whole[r] =~= under[r]);
                }
                assert(whole =~= under);
            }
            return ;
        }
        let ascii = text.is_ascii();
        let length = text.unicode_len();
        let mut index: usize = 0;
        while index < length
            invariant
                index <= length,
                length == text@.len(),
                ascii == text.is_ascii(),
                glyphs == seq![text@],
                y >= 0,
                self.spec_width() == old(self).spec_width(),
                self@ == overlay_part(under, glyphs, x as int, y as int, 0, index as int),
            decreases length - index,
        {
            let ch = if ascii {
                text.get_ascii(index) as char
            } else {
                text.get_char(index)
            };
            proof {
                lemma_overlay_step(under, glyphs, x as int, y as int, 0, index as int);
            }
            match offset(x, index) {
                Some(column) => {
                    self.set_cell(column, y as usize, ch);
                },
                None => {
                    proof {
                        self.lemma_cells_are_indexed(x + index, y as int);
                    }
                },
            }
            index = index + 1;
        }
    }

    /// Fills every cell with `fill`.
    pub fn clear(&mut self, fill: char)
        ensures
            final(self).spec_width() == old(self).spec_width(),
            final(self)@ == cleared(old(self)@, fill),
    {
        proof {
            use_type_invariant(&*self);
        }
        let width = self.width;
        let mut rows: Vec<Vec<char>> = Vec::new();
        core::mem::swap(&mut self.rows, &mut rows);
        let height = rows.len();
        let mut y: usize = 0;
        while y < height
            invariant
                y <= height,
                rows@.len() == height,
                forall|r: int| 0 <= r < height ==> (#[trigger] rows@[r])@.len() == width,
                forall|r: int| 0 <= r < y ==> (#[trigger] rows@[r])@ == Seq::new(
                    width as nat,
                    |x: int| fill,
                ),
            decreases height - y,
        {
            let mut x: usize = 0;
            while x < width
                invariant
                    x <= width,
                    y < height,
                    rows@.len() == height,
                    forall|r: int| 0 <= r < height ==> (#[trigger] rows@[r])@.len() == width,
                    forall|r: int| 0 <= r < y ==> (#[trigger] rows@[r])@ == Seq::new(
                        width as nat,
                        |x: int| fill,
                    ),
                    forall|c: int| 0 <= c < x ==> rows@[y as int]@[c] == fill,
                decreases width - x,
            {
                rows[y][x] = fill;
                x = x + 1;
            }
            assert(rows@[y as int]@ =~= Seq::new(width as nat, |x: int| fill));
            y = y + 1;
        }
        self.rows = rows;
        assert forall|r: int| 0 <= r < height implies self@[r] == cleared(old(self)@, fill)[r] by {
            assert(self@[r] =~= cleared(old(self)@, fill)[r]);
        }
        assert(self@ =~= cleared(old(self)@, fill));
    }

    /// Draws `decoration` along the rim of the window.
    pub fn decorate(&mut self, decoration: Decoration)
        ensures
            final(self).spec_width() == old(self).spec_width(),
            final(self)@ == decorated(old(self)@, decoration),
    {
        proof {
            use_type_invariant(&*self);
        }
        let ghost under = self@;
        let width = self.width;
        let mut rows: Vec<Vec<char>> = Vec::new();
        core::mem::swap(&mut self.rows, &mut rows);
        let height = rows.len();
        let mut y: usize = 0;
        while y < height
            invariant
                y <= height,
                rows@.len() == height,
                under.len() == height,
                forall|r: int| 0 <= r < height ==> (#[trigger] under[r]).len() == width,
                forall|r: int| 0 <= r < height ==> (#[trigger] rows@[r])@.len() == width,
                forall|r: int| 0 <= r < y ==> (#[trigger] rows@[r])@ == decorated(under, decoration)[r],
                forall|r: int| y <= r < height ==> (#[trigger] rows@[r])@ == under[r],
            decreases height - y,
        {
            let mut x: usize = 0;
            while x < width
                invariant
                    x <= width,
                    y < height,
                    rows@.len() == height,
                    under.len() == height,
                    forall|r: int| 0 <= r < height ==> (#[trigger] under[r]).len() == width,
                    forall|r: int| 0 <= r < height ==> (#[trigger] rows@[r])@.len() == width,
                    forall|r: int| 0 <= r < y ==> (#[trigger] rows@[r])@ == decorated(
                        under,
                        decoration,
                    )[r],
                    forall|r: int| y < r < height ==> (#[trigger] rows@[r])@ == under[r],
                    forall|c: int| 0 <= c < x ==> rows@[y as int]@[c] == decorated(
                        under,
                        decoration,
                    )[y as int][c],
                    forall|c: int| x <= c < width ==> rows@[y as int]@[c] == under[y as int][c],
                decreases width - x,
            {
                match decoration.at(width, height, x, y) {
                    Some(ch) => {
                        rows[y][x] = ch;
                    },
                    None => {},
                }
                x = x + 1;
            }
            assert(rows@[y as int]@ =~= decorated(under, decoration)[y as int]);
            y = y + 1;
        }
        self.rows = rows;
        assert(self@ =~= decorated(under, decoration));
    }

    /// Replaces the window by one of the given size with every cell
    /// holding `fill`.
    pub fn resize(&mut self, width: usize, height: usize, fill: char)
        ensures
            final(self).spec_width() == width,
            final(self)@ == blank(width as nat, height as nat, fill),
    {
        let window = WindowBuffer::new(width, height, fill);
        *self = window;
    }

    /// Every cell of the window has a row and a column that are indices.
    pub proof fn lemma_cells_are_indexed(&self, x: int, y: int)
        ensures
            inside(self@, x, y) ==> 0 <= x < usize::MAX && 0 <= y < usize::MAX,
    {
        if inside(self@, x, y) {
            assert(self@[y] == self.rows@[y]@);
            assert(self.rows@[y].len() <= usize::MAX);
            assert(self.rows.len() <= usize::MAX);
        }
    }
}

/// The place `index` steps after `base`, where it is an index at all.
pub fn offset(base: i32, index: usize) -> (place: Option<usize>)
    ensures
        place == (if 0 <= base + index <= usize::MAX {
            Some((base + index) as usize)
        } else {
            None
        }),
{
    if base >= 0 {
        let start = base as usize;
        if index <= usize::MAX - start {
            Some(start + index)
        } else {
            None
        }
    } else {
        let back = (-(base as i64)) as u64;
        if index as u64 >= back {
            Some((index as u64 - back) as usize)
        } else {
            None
        }
    }
}

} // verus!

//! Rectangular grids of glyphs placed on the window.

use vstd::prelude::*;
use crate::app::App;
use crate::app::AppState;
use crate::entities::game_object::can_move_by;
use crate::entities::game_object::moved_by;
use crate::entities::game_object::moved_to;
use crate::entities::game_object::GameObject;
use crate::entities::scene::drawn;
use crate::entities::scene::Picture;
use crate::types::vector2int::Vector2Int;
use crate::window::lemma_overlay_done;
use crate::window::lemma_overlay_next_row;
use crate::window::lemma_overlay_start;
use crate::window::lemma_overlay_step;
use crate::window::offset;
use crate::window::overlay_part;
use crate::window::WindowBuffer;
use ndarray::Array2;

verus! {

/// A rectangular map of glyphs, kept in a two-dimensional `ndarray` array.
#[verifier::external_body]
pub struct CharMap {
    cells: Array2<char>,
}

/// The rows of glyphs that a map holds, top row first.
pub uninterp spec fn glyph_rows(map: CharMap) -> Seq<Seq<char>>;

/// The number of columns that a map was made with.
pub uninterp spec fn glyph_columns(map: CharMap) -> nat;

/// Whether `glyphs`, read row after row, fills a map of `rows` rows and
/// `columns` columns, and the map is one that the array type can hold: no
/// axis and no count of elements is above `isize::MAX`.
pub open spec fn fills(rows: usize, columns: usize, glyphs: Seq<char>) -> bool {
    &&& rows * columns == glyphs.len()
    &&& glyphs.len() <= isize::MAX
    &&& rows <= isize::MAX
    &&& columns <= isize::MAX
}

/// `glyphs` cut into rows of `columns` glyphs each.
pub open spec fn in_rows(rows: usize, columns: usize, glyphs: Seq<char>) -> Seq<Seq<char>> {
    Seq::new(
        rows as nat,
        |y: int| Seq::new(columns as nat, |x: int| glyphs[y * columns + x]),
    )
}

/// Makes a map with `Array2::from_shape_vec`, which gives an array exactly
/// when the shape holds as many elements as the vector and neither an axis
/// nor the number of elements is above `isize::MAX`, and which lays the
/// vector out row after row.
#[verifier::external_body]
fn map_from_shape_vec(rows: usize, columns: usize, glyphs: Vec<char>) -> (map: Option<CharMap>)
    ensures
        map is Some <==> fills(rows, columns, glyphs@),
        map matches Some(made) ==> glyph_rows(made) == in_rows(rows, columns, glyphs@)
            && glyph_columns(made) == columns,
{
    match Array2::from_shape_vec((rows, columns), glyphs) {
        Ok(cells) => Some(CharMap { cells }),
        Err(_) => None,
    }
}

/// The two axis lengths of `map`, rows first, as `ArrayBase::shape` gives
/// them. Every row of the map holds as many glyphs as there are columns.
#[verifier::external_body]
fn map_shape(map: &CharMap) -> (shape: (usize, usize))
    ensures
        shape.0 == glyph_rows(*map).len(),
        shape.1 == glyph_columns(*map),
        forall|y: int|
            0 <= y < glyph_rows(*map).len() ==> (#[trigger] glyph_rows(*map)[y]).len() == shape.1,
{
    let shape = map.cells.shape();
    (shape[0], shape[1])
}

/// The glyph that `ArrayBase`'s index by `[usize; 2]` yields at row `y`,
/// column `x`. The index panics outside the array, so both must lie
/// inside.
#[verifier::external_body]
fn map_glyph(map: &CharMap, y: usize, x: usize) -> (glyph: char)
    requires
        y < glyph_rows(*map).len(),
        x < glyph_columns(*map),
    ensures
        glyph == glyph_rows(*map)[y as int][x as int],
{
    map.cells[[y, x]]
}

impl CharMap {
    /// A map of `rows` rows and `columns` columns that holds `glyphs`, read
    /// row after row; nothing if the glyphs do not fill such a map.
    pub fn new(rows: usize, columns: usize, glyphs: Vec<char>) -> (map: Option<CharMap>)
        ensures
            map is Some <==> fills(rows, columns, glyphs@),
            map matches Some(made) ==> glyph_rows(made) == in_rows(rows, columns, glyphs@)
                && glyph_columns(made) == columns,
    {
        map_from_shape_vec(rows, columns, glyphs)
    }

    /// The number of rows.
    pub fn rows(&self) -> (rows: usize)
        ensures
            rows == glyph_rows(*self).len(),
    {
        map_shape(self).0
    }

    /// The number of columns. Every row holds that many glyphs.
    pub fn columns(&self) -> (columns: usize)
        ensures
            columns == glyph_columns(*self),
            forall|y: int|
                0 <= y < glyph_rows(*self).len() ==> (#[trigger] glyph_rows(*self)[y]).len()
                    == columns,
    {
        map_shape(self).1
    }

    /// The glyph at row `y`, column `x`, or nothing outside the map.
    pub fn get(&self, y: usize, x: usize) -> (glyph: Option<char>)
        ensures
            glyph == (if y < glyph_rows(*self).len() && x < glyph_columns(*self) {
                Some(glyph_rows(*self)[y as int][x as int])
            } else {
                None
            }),
    {
        let (rows, columns) = map_shape(self);
        if y < rows && x < columns {
            Some(map_glyph(self, y, x))
        } else {
            None
        }
    }
}

/// A grid of glyphs at a position. The map is borrowed: many objects may
/// show the same one.
#[derive(Clone, Copy)]
pub struct CharObject<'a> {
    game_object: GameObject,
    is_visible: bool,
    char_map: &'a CharMap,
}

impl<'a> CharObject<'a> {
    /// The placement of the object.
    pub closed spec fn spec_game_object(self) -> GameObject {
        self.game_object
    }

    /// Whether the object is drawn.
    pub closed spec fn spec_visible(self) -> bool {
        self.is_visible
    }

    /// The map that the object shows.
    pub closed spec fn spec_char_map(self) -> CharMap {
        *self.char_map
    }

    /// What the object puts on the window: the rows of its map, the first
    /// glyph at its position.
    pub open spec fn picture(self) -> Picture {
        Picture {
            visible: self.spec_visible(),
            left: self.spec_game_object().spec_position().x as int,
            top: self.spec_game_object().spec_position().y as int,
            glyphs: glyph_rows(self.spec_char_map()),
        }
    }

    /// A visible, movable object at the origin that shows `char_map`.
    pub fn new(char_map: &'a CharMap) -> (object: CharObject<'a>)
        ensures
            object.spec_char_map() == *char_map,
            object.spec_visible(),
            !object.spec_game_object().spec_static(),
            object.spec_game_object().spec_position() == (Vector2Int { x: 0, y: 0 }),
    {
        CharObject { game_object: GameObject::new(), is_visible: true, char_map }
    }

    /// Whether the object is locked in place.
    pub fn get_static(&self) -> (is_static: bool)
        ensures
            is_static == self.spec_game_object().spec_static(),
    {
        self.game_object.get_static()
    }

    /// Locks or unlocks the position and returns the object as it now is.
    pub fn set_static(&mut self, value: bool) -> (now: CharObject<'a>)
        ensures
            final(self).spec_game_object().spec_static() == value,
            final(self).spec_game_object().spec_position() == old(
                self,
            ).spec_game_object().spec_position(),
            final(self).spec_visible() == old(self).spec_visible(),
            final(self).spec_char_map() == old(self).spec_char_map(),
            now == *final(self),
    {
        self.game_object.set_static(value);
        *self
    }

    /// Where the object stands.
    pub fn get_position(&self) -> (position: Vector2Int)
        ensures
            position == self.spec_game_object().spec_position(),
    {
        self.game_object.get_position()
    }

    /// Puts the object at `new_position` unless it is static, and returns
    /// the object as it now is.
    pub fn move_to(&mut self, new_position: Vector2Int) -> (now: CharObject<'a>)
        ensures
            final(self).spec_game_object().spec_static() == old(
                self,
            ).spec_game_object().spec_static(),
            final(self).spec_game_object().spec_position() == moved_to(
                old(self).spec_game_object().spec_static(),
                old(self).spec_game_object().spec_position(),
                new_position,
            ),
            final(self).spec_visible() == old(self).spec_visible(),
            final(self).spec_char_map() == old(self).spec_char_map(),
            now == *final(self),
    {
        self.game_object.move_to(new_position);
        *self
    }

    /// Shifts the object by `delta` unless it is static, and returns the
    /// object as it now is.
    pub fn move_by(&mut self, delta: Vector2Int) -> (now: CharObject<'a>)
        requires
            can_move_by(
                old(self).spec_game_object().spec_static(),
                old(self).spec_game_object().spec_position(),
                delta,
            ),
        ensures
            final(self).spec_game_object().spec_static() == old(
                self,
            ).spec_game_object().spec_static(),
            final(self).spec_game_object().spec_position() == moved_by(
                old(self).spec_game_object().spec_static(),
                old(self).spec_game_object().spec_position(),
                delta,
            ),
            final(self).spec_visible() == old(self).spec_visible(),
            final(self).spec_char_map() == old(self).spec_char_map(),
            now == *final(self),
    {
        self.game_object.move_by(delta);
        *self
    }

    /// The placement of the object.
    pub fn get_game_object(&self) -> (game_object: GameObject)
        ensures
            game_object == self.spec_game_object(),
    {
        self.game_object
    }

    /// Whether the object is drawn.
    pub fn get_visible(&self) -> (visible: bool)
        ensures
            visible == self.spec_visible(),
    {
        self.is_visible
    }

    /// Shows or hides the object and returns it as it now is.
    pub fn set_visible(&mut self, value: bool) -> (now: CharObject<'a>)
        ensures
            final(self).spec_visible() == value,
            final(self).spec_game_object() == old(self).spec_game_object(),
            final(self).spec_char_map() == old(self).spec_char_map(),
            now == *final(self),
    {
        self.is_visible = value;
        *self
    }

    /// The number of columns of the map. Every row of the map holds that
    /// many glyphs.
    pub fn get_width(&self) -> (width: usize)
        ensures
            width == glyph_columns(self.spec_char_map()),
            forall|y: int|
                0 <= y < glyph_rows(self.spec_char_map()).len() ==> (#[trigger] glyph_rows(
                    self.spec_char_map(),
                )[y]).len() == width,
    {
        map_shape(self.char_map).1
    }

    /// The number of rows of the map.
    pub fn get_height(&self) -> (height: usize)
        ensures
            height == glyph_rows(self.spec_char_map()).len(),
    {
        map_shape(self.char_map).0
    }

    /// Draws the map onto `window`: the glyph at row `y`, column `x` of the
    /// map goes `x` columns right of and `y` rows below the object's
    /// position. A hidden object draws nothing; glyphs that fall outside
    /// the window are dropped.
    pub fn draw(&self, window: &mut WindowBuffer)
        ensures
            final(window).spec_width() == old(window).spec_width(),
            final(window)@ == drawn(old(window)@, self.picture()),
    {
        if !self.is_visible {
            return ;
        }
        let position = self.game_object.get_position();
        let (height, width) = map_shape(self.char_map);
        let ghost under = window@;
        let ghost glyphs = glyph_rows(*self.char_map);
        let ghost left = position.x as int;
        let ghost top = position.y as int;
        proof {
            lemma_overlay_start(under, glyphs, left, top);
        }
        let mut y: usize = 0;
        while y < height
            invariant
                y <= height,
                height == glyphs.len(),
                width == glyph_columns(*self.char_map),
                glyphs == glyph_rows(*self.char_map),
                forall|r: int| 0 <= r < glyphs.len() ==> (#[trigger] glyphs[r]).len() == width,
                left == position.x,
                top == position.y,
                window.spec_width() == old(window).spec_width(),
                window@ == overlay_part(under, glyphs, left, top, y as int, 0),
            decreases height - y,
        {
            let mut x: usize = 0;
            while x < width
                invariant
                    x <= width,
                    y < height,
                    height == glyphs.len(),
                    width == glyph_columns(*self.char_map),
                    glyphs == glyph_rows(*self.char_map),
                    forall|r: int| 0 <= r < glyphs.len() ==> (#[trigger] glyphs[r]).len() == width,
                    left == position.x,
                    top == position.y,
                    window.spec_width() == old(window).spec_width(),
                    window@ == overlay_part(under, glyphs, left, top, y as int, x as int),
                decreases width - x,
            {
                let glyph = map_glyph(self.char_map, y, x);
                proof {
                    lemma_overlay_step(under, glyphs, left, top, y as int, x as int);
                }
                match (offset(position.x, x), offset(position.y, y)) {
                    (Some(column), Some(row)) => {
                        window.set_cell(column, row, glyph);
                    },
                    _ => {
                        proof {
                            window.lemma_cells_are_indexed(left + x, top + y);
                        }
                    },
                }
                x = x + 1;
            }
            proof {
                lemma_overlay_next_row(under, glyphs, left, top, y as int, x as int);
            }
            y = y + 1;
        }
        proof {
            lemma_overlay_done(under, glyphs, left, top, y as int);
        }
    }

    /// Draws the map onto the window of `app`.
    pub fn render(&self, app: &mut App)
        requires
            old(app).wf(),
        ensures
            final(app).wf(),
            final(app)@ == (AppState {
                window: drawn(old(app)@.window, self.picture()),
                ..old(app)@
            }),
    {
        self.draw(&mut app.window);
        proof {
            old(app).lemma_window_drawn(app);
        }
    }
}

} // verus!

//! What an object shows, and scenes: objects drawn one over the other.

use vstd::prelude::*;
use crate::app::App;
use crate::app::fill_of;
use crate::app::fresh_frame;
use crate::app::no_decoration;
use crate::app::valid;
use crate::app::AppState;
use crate::entities::char_object::CharObject;
use crate::entities::text_object::TextObject;
use crate::window::glyph_over;
use crate::window::inside;
use crate::window::overlay;

verus! {

/// What an object puts on the window: its glyphs, where their first cell
/// goes, and whether they are shown at all.
pub struct Picture {
    pub visible: bool,
    pub left: int,
    pub top: int,
    pub glyphs: Seq<Seq<char>>,
}

/// The glyph that `picture` shows on column `x` of row `y`, if any.
pub open spec fn shown_by(picture: Picture, x: int, y: int) -> Option<char> {
    if picture.visible {
        glyph_over(picture.glyphs, picture.left, picture.top, x, y)
    } else {
        None
    }
}

/// `under` with `picture` drawn over it. A picture that is not visible
/// changes nothing.
pub open spec fn drawn(under: Seq<Seq<char>>, picture: Picture) -> Seq<Seq<char>> {
    if picture.visible {
        overlay(under, picture.glyphs, picture.left, picture.top)
    } else {
        under
    }
}

/// `under` with each of `pictures` drawn over it in turn, the first one
/// first.
pub open spec fn drawn_all(under: Seq<Seq<char>>, pictures: Seq<Picture>) -> Seq<Seq<char>>
    decreases pictures.len(),
{
    if pictures.len() == 0 {
        under
    } else {
        drawn(drawn_all(under, pictures.drop_last()), pictures.last())
    }
}

/// The glyph that the last of `pictures` to reach column `x` of row `y`
/// shows there, if any of them reaches it.
pub open spec fn shown(pictures: Seq<Picture>, x: int, y: int) -> Option<char>
    decreases pictures.len(),
{
    if pictures.len() == 0 {
        None
    } else {
        match shown_by(pictures.last(), x, y) {
            Some(glyph) => Some(glyph),
            None => shown(pictures.drop_last(), x, y),
        }
    }
}

/// Drawing keeps the size of the grid, and each cell holds the glyph that
/// the picture shows there, or what it held before.
pub proof fn lemma_drawn_cell(under: Seq<Seq<char>>, picture: Picture, x: int, y: int)
    ensures
        drawn(under, picture).len() == under.len(),
        0 <= y < under.len() ==> drawn(under, picture)[y].len() == under[y].len(),
        inside(under, x, y) ==> drawn(under, picture)[y][x] == match shown_by(picture, x, y) {
            Some(glyph) => glyph,
            None => under[y][x],
        },
{
}

/// In a scene every cell holds the glyph of the last object that reaches
/// it, and a cell that no object reaches holds what it held before. The
/// size of the grid stays.
pub proof fn lemma_last_drawn_wins(under: Seq<Seq<char>>, pictures: Seq<Picture>, x: int, y: int)
    ensures
        drawn_all(under, pictures).len() == under.len(),
        0 <= y < under.len() ==> drawn_all(under, pictures)[y].len() == under[y].len(),
        inside(under, x, y) ==> drawn_all(under, pictures)[y][x] == match shown(pictures, x, y) {
            Some(glyph) => glyph,
            None => under[y][x],
        },
    decreases pictures.len(),
{
    if pictures.len() > 0 {
        let below = drawn_all(under, pictures.drop_last());
        lemma_last_drawn_wins(under, pictures.drop_last(), x, y);
        lemma_drawn_cell(below, pictures.last(), x, y);
    }
}

/// Of two objects drawn one after the other, the later one is on top:
/// where it reaches, its glyph shows; where only the earlier one reaches,
/// that one's glyph shows; every other cell is untouched.
pub proof fn lemma_later_on_top(
    under: Seq<Seq<char>>,
    earlier: Picture,
    later: Picture,
    x: int,
    y: int,
)
    requires
        inside(under, x, y),
    ensures
        drawn_all(under, seq![earlier, later])[y][x] == (match shown_by(later, x, y) {
            Some(glyph) => glyph,
            None => match shown_by(earlier, x, y) {
                Some(glyph) => glyph,
                None => under[y][x],
            },
        }),
{
    let both = seq![earlier, later];
    let first = both.drop_last();
    assert(first =~= seq![earlier]);
    assert(first.drop_last() =~= Seq::<Picture>::empty());
    assert(both.last() == later);
    assert(first.last() == earlier);
    lemma_last_drawn_wins(under, both, x, y);
    assert(shown(first.drop_last(), x, y) is None);
    assert(shown(first, x, y) == shown_by(earlier, x, y));
}

/// A frame without decoration shows, in every cell of the window, the
/// glyph of the last object of the scene that reaches it, and the fill
/// character where no object reaches.
pub proof fn lemma_frame_shows_scene(state: AppState, pictures: Seq<Picture>, x: int, y: int)
    requires
        valid(state),
        state.decoration == no_decoration(),
        0 <= x < state.width,
        0 <= y < state.height,
    ensures
        drawn_all(fresh_frame(state), pictures).len() == state.height,
        drawn_all(fresh_frame(state), pictures)[y].len() == state.width,
        drawn_all(fresh_frame(state), pictures)[y][x] == (match shown(pictures, x, y) {
            Some(glyph) => glyph,
            None => fill_of(state.background),
        }),
{
    lemma_last_drawn_wins(fresh_frame(state), pictures, x, y);
}

/// Something that can be drawn: a grid of glyphs or a line of text.
#[derive(Clone, Copy)]
pub enum Renderable<'a> {
    Glyphs(CharObject<'a>),
    Text(TextObject<'a>),
}

impl<'a> Renderable<'a> {
    /// What the object puts on the window.
    pub open spec fn picture(self) -> Picture {
        match self {
            Renderable::Glyphs(object) => object.picture(),
            Renderable::Text(object) => object.picture(),
        }
    }

    /// Draws the object onto the window of `app`.
    pub fn render(&self, app: &mut App)
        requires
            old(app).wf(),
        ensures
            final(app).wf(),
            final(app)@ == (AppState {
                window: drawn(old(app)@.window, self.picture()),
                ..old(app)@
            }),
    {
        match self {
            Renderable::Glyphs(object) => object.render(app),
            Renderable::Text(object) => object.render(app),
        }
    }
}

/// The pictures of `items`, in their order.
pub open spec fn pictures_of(items: Seq<Renderable>) -> Seq<Picture> {
    Seq::new(items.len(), |i: int| items[i].picture())
}

/// An ordered collection of objects. They are drawn in their order, so a
/// later object covers an earlier one where both reach.
pub struct Scene<'a> {
    items: Vec<Renderable<'a>>,
}

impl<'a> Scene<'a> {
    /// The objects of the scene, in drawing order.
    pub closed spec fn spec_items(&self) -> Seq<Renderable<'a>> {
        self.items@
    }

    /// The pictures of the objects of the scene, in drawing order.
    pub open spec fn pictures(&self) -> Seq<Picture> {
        pictures_of(self.spec_items())
    }

    /// A scene without objects.
    pub fn new() -> (scene: Scene<'a>)
        ensures
            scene.spec_items() == Seq::<Renderable<'a>>::empty(),
    {
        Scene { items: Vec::new() }
    }

    /// Adds `item` as the last object, drawn over all that are there.
    pub fn push(&mut self, item: Renderable<'a>)
        ensures
            final(self).spec_items() == old(self).spec_items().push(item),
    {
        self.items.push(item);
    }

    /// The number of objects.
    pub fn len(&self) -> (count: usize)
        ensures
            count == self.spec_items().len(),
    {
        self.items.len()
    }

    /// The object at `index` of the drawing order, if there is one.
    pub fn get(&self, index: usize) -> (item: Option<Renderable<'a>>)
        ensures
            item == (if index < self.spec_items().len() {
                Some(self.spec_items()[index as int])
            } else {
                None
            }),
    {
        if index < self.items.len() {
            Some(self.items[index])
        } else {
            None
        }
    }

    /// Puts `item` in place of the object at `index`. An index past the
    /// last object changes nothing.
    pub fn set(&mut self, index: usize, item: Renderable<'a>)
        ensures
            final(self).spec_items() == (if index < old(self).spec_items().len() {
                old(self).spec_items().update(index as int, item)
            } else {
                old(self).spec_items()
            }),
    {
        if index < self.items.len() {
            self.items[index] = item;
        }
    }

    /// Draws every object onto the window of `app`, in order.
    pub fn render(&self, app: &mut App)
        requires
            old(app).wf(),
        ensures
            final(app).wf(),
            final(app)@ == (AppState {
                window: drawn_all(old(app)@.window, self.pictures()),
                ..old(app)@
            }),
    {
        let ghost pictures = self.pictures();
        let mut index: usize = 0;
        assert(pictures.take(0) =~= Seq::<Picture>::empty());
        while index < self.items.len()
            invariant
                index <= self.items.len(),
                pictures == self.pictures(),
                app.wf(),
                app@ == (AppState {
                    window: drawn_all(old(app)@.window, pictures.take(index as int)),
                    ..old(app)@
                }),
            decreases self.items.len() - index,
        {
            proof {
                let next = pictures.take(index + 1);
                assert(next.drop_last() =~= pictures.take(index as int));
                assert(next.last() == self.items@[index as int].picture());
            }
            self.items[index].render(app);
            index = index + 1;
        }
        assert(pictures.take(index as int) =~= pictures);
    }
}

} // verus!

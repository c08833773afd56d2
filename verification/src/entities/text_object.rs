//! Lines of text placed on the window.

use vstd::prelude::*;
use crate::app::App;
use crate::app::AppState;
use crate::entities::game_object::can_move_by;
use crate::entities::game_object::moved_by;
use crate::entities::game_object::moved_to;
use crate::entities::game_object::GameObject;
use crate::entities::scene::drawn;
use crate::entities::scene::Picture;
use crate::types::vector2int::Vector2Int;
use crate::window::WindowBuffer;

verus! {

/// A line of text at a position. The text is borrowed: many objects may
/// show the same one.
#[derive(Clone, Copy)]
pub struct TextObject<'a> {
    game_object: GameObject,
    is_visible: bool,
    text: &'a String,
}

impl<'a> TextObject<'a> {
    /// The placement of the object.
    pub closed spec fn spec_game_object(self) -> GameObject {
        self.game_object
    }

    /// Whether the object is drawn.
    pub closed spec fn spec_visible(self) -> bool {
        self.is_visible
    }

    /// The characters of the text.
    pub closed spec fn spec_text(self) -> Seq<char> {
        self.text@
    }

    /// What the object puts on the window: its text as one row, starting
    /// at its position.
    pub open spec fn picture(self) -> Picture {
        Picture {
            visible: self.spec_visible(),
            left: self.spec_game_object().spec_position().x as int,
            top: self.spec_game_object().spec_position().y as int,
            glyphs: seq![self.spec_text()],
        }
    }

    /// A visible, movable object at the origin that shows `text`.
    pub fn new(text: &'a String) -> (object: TextObject<'a>)
        ensures
            object.spec_text() == text@,
            object.spec_visible(),
            !object.spec_game_object().spec_static(),
            object.spec_game_object().spec_position() == (Vector2Int { x: 0, y: 0 }),
    {
        TextObject { game_object: GameObject::new(), is_visible: true, text }
    }

    /// Whether the object is locked in place.
    pub fn get_static(&self) -> (is_static: bool)
        ensures
            is_static == self.spec_game_object().spec_static(),
    {
        self.game_object.get_static()
    }

    /// Locks or unlocks the position and returns the object as it now is.
    pub fn set_static(&mut self, value: bool) -> (now: TextObject<'a>)
        ensures
            final(self).spec_game_object().spec_static() == value,
            final(self).spec_game_object().spec_position() == old(
                self,
            ).spec_game_object().spec_position(),
            final(self).spec_visible() == old(self).spec_visible(),
            final(self).spec_text() == old(self).spec_text(),
            now == *final(self),
    {
        self.game_object.set_static(value);
        *self
    }

    /// Where the object stands.
    pub fn get_position(&self) -> (position: Vector2Int)
        ensures
            position == self.spec_game_object().spec_position(),
    {
        self.game_object.get_position()
    }

    /// Puts the object at `new_position` unless it is static, and returns
    /// the object as it now is.
    pub fn move_to(&mut self, new_position: Vector2Int) -> (now: TextObject<'a>)
        ensures
            final(self).spec_game_object().spec_static() == old(
                self,
            ).spec_game_object().spec_static(),
            final(self).spec_game_object().spec_position() == moved_to(
                old(self).spec_game_object().spec_static(),
                old(self).spec_game_object().spec_position(),
                new_position,
            ),
            final(self).spec_visible() == old(self).spec_visible(),
            final(self).spec_text() == old(self).spec_text(),
            now == *final(self),
    {
        self.game_object.move_to(new_position);
        *self
    }

    /// Shifts the object by `delta` unless it is static, and returns the
    /// object as it now is.
    pub fn move_by(&mut self, delta: Vector2Int) -> (now: TextObject<'a>)
        requires
            can_move_by(
                old(self).spec_game_object().spec_static(),
                old(self).spec_game_object().spec_position(),
                delta,
            ),
        ensures
            final(self).spec_game_object().spec_static() == old(
                self,
            ).spec_game_object().spec_static(),
            final(self).spec_game_object().spec_position() == moved_by(
                old(self).spec_game_object().spec_static(),
                old(self).spec_game_object().spec_position(),
                delta,
            ),
            final(self).spec_visible() == old(self).spec_visible(),
            final(self).spec_text() == old(self).spec_text(),
            now == *final(self),
    {
        self.game_object.move_by(delta);
        *self
    }

    /// The placement of the object.
    pub fn get_game_object(&self) -> (game_object: GameObject)
        ensures
            game_object == self.spec_game_object(),
    {
        self.game_object
    }

    /// Whether the object is drawn.
    pub fn get_visible(&self) -> (visible: bool)
        ensures
            visible == self.spec_visible(),
    {
        self.is_visible
    }

    /// Shows or hides the object and returns it as it now is.
    pub fn set_visible(&mut self, value: bool) -> (now: TextObject<'a>)
        ensures
            final(self).spec_visible() == value,
            final(self).spec_game_object() == old(self).spec_game_object(),
            final(self).spec_text() == old(self).spec_text(),
            now == *final(self),
    {
        self.is_visible = value;
        *self
    }

    /// Draws the text onto `window`, one character to a column from the
    /// object's position on. A hidden object draws nothing; characters
    /// that fall outside the window are dropped.
    pub fn draw(&self, window: &mut WindowBuffer)
        ensures
            final(window).spec_width() == old(window).spec_width(),
            final(window)@ == drawn(old(window)@, self.picture()),
    {
        if !self.is_visible {
            return ;
        }
        let position = self.game_object.get_position();
        window.write_str(position.x, position.y, self.text.as_str());
    }

    /// Draws the text onto the window of `app`.
    pub fn render(&self, app: &mut App)
        requires
            old(app).wf(),
        ensures
            final(app).wf(),
            final(app)@ == (AppState {
                window: drawn(old(app)@.window, self.picture()),
                ..old(app)@
            }),
    {
        self.draw(&mut app.window);
        proof {
            old(app).lemma_window_drawn(app);
        }
    }
}

} // verus!

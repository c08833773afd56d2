//! The runtime: window configuration, the frame loop's sequence of steps,
//! and the window that each frame is composed on.

use vstd::prelude::*;
use crate::input::after_event;
use crate::input::Input;
use crate::input::InputState;
use crate::input::MouseEvent;
use crate::input::RawEvent;
use crate::input::SpecialKey;
use crate::types::vector2int::Vector2Int;
use crate::window::blank;
use crate::window::decorated;
use crate::window::Decoration;
use crate::window::WindowBuffer;

verus! {

/// How the terminal shows its cursor.
#[derive(Clone, Copy, Debug, PartialEq, Eq, Structural)]
pub enum CursorMode {
    Hidden,
    Normal,
    Block,
}

/// Why the runtime refused a setting or ended a run early.
#[derive(Clone, Copy, Debug, PartialEq, Eq, Structural)]
pub enum AppError {
    /// The terminal session could not be opened.
    SessionError,
    /// A setting was out of range; the earlier value was kept.
    InvalidConfig,
    /// A callback of the embedding program failed.
    CallbackError,
}

/// What the driver of the frame loop has to do next.
#[derive(Clone, Copy, Debug, PartialEq, Eq, Structural)]
pub enum Step {
    /// Open the terminal session.
    OpenSession,
    /// Call the program's `init`.
    Init,
    /// Poll the terminal for one event, without waiting.
    Poll,
    /// Call the program's `update`.
    Update,
    /// Call the program's `render`.
    Render,
    /// Show the window on the terminal.
    Present,
    /// Sleep for what is left of the frame.
    Sleep,
    /// Call the program's `exit`.
    Exit,
    /// Close the terminal session.
    CloseSession,
    /// Nothing: the run is over.
    Finished,
}

/// How the step that the driver was asked for went.
#[derive(Clone, Copy, Debug, PartialEq, Eq, Structural)]
pub enum Outcome {
    /// The step was carried out; a poll found no event.
    Done,
    /// The session could not be opened, or the callback failed. Of a step
    /// that cannot fail it says no more than `Done`.
    Failed,
    /// A poll found this event.
    Input(RawEvent),
}

/// The width of the window of a new runtime, in cells.
pub const DEFAULT_WIDTH: i32 = 100;

/// The height of the window of a new runtime, in cells.
pub const DEFAULT_HEIGHT: i32 = 30;

/// The title of a new runtime.
pub const DEFAULT_TITLE: &'static str = "lunar App";

/// The cursor mode of a new runtime.
pub const DEFAULT_CURSOR_MODE: CursorMode = CursorMode::Hidden;

/// The background of a new runtime: none.
pub const DEFAULT_BACKGROUND: Option<char> = None;

/// The frames a second of a new runtime.
pub const DEFAULT_FRAMERATE: u32 = 60;

/// The number of nanoseconds in a second.
pub const NANOS_PER_SECOND: u64 = 1_000_000_000;

/// The character that an empty cell of the window holds.
pub const BLANK: char = ' ';

/// Everything that an [`App`] holds.
pub struct AppState {
    pub width: int,
    pub height: int,
    pub title: Seq<char>,
    pub background: Option<char>,
    pub cursor_mode: CursorMode,
    pub framerate: int,
    pub decoration: Decoration,
    pub quit: bool,
    pub window: Seq<Seq<char>>,
    pub input: InputState,
    pub step: Step,
    pub failure: Option<AppError>,
}

/// The character that cleared cells hold: the background, or a blank
/// where there is none.
pub open spec fn fill_of(background: Option<char>) -> char {
    match background {
        Some(ch) => ch,
        None => BLANK,
    }
}

/// A decoration without edges and corners.
pub open spec fn no_decoration() -> Decoration {
    Decoration {
        left: None,
        right: None,
        top: None,
        bottom: None,
        top_left: None,
        top_right: None,
        bottom_left: None,
        bottom_right: None,
    }
}

/// The window at the start of a frame's rendering: cleared to the fill
/// character, with the decoration drawn along its rim.
pub open spec fn fresh_frame(state: AppState) -> Seq<Seq<char>> {
    decorated(
        blank(state.width as nat, state.height as nat, fill_of(state.background)),
        state.decoration,
    )
}

/// What a poll brought, read from the outcome that the driver reports.
pub open spec fn polled(outcome: Outcome) -> Option<RawEvent> {
    match outcome {
        Outcome::Input(event) => Some(event),
        _ => None,
    }
}

/// The state once a callback has failed: the session is closed next, and
/// the failure is kept for the caller.
pub open spec fn callback_failed(state: AppState) -> AppState {
    AppState { step: Step::CloseSession, failure: Some(AppError::CallbackError), ..state }
}

/// The state that follows `state` once the driver reports `outcome` for the
/// step it was asked for.
///
/// A run opens the session, applies the initial configuration and calls
/// `init`. Each frame then polls, updates, clears and decorates the window,
/// renders and presents; a frame that ends with the quit flag set is the
/// last, otherwise the loop sleeps and polls again. Then `exit` is called
/// and the session closed. If the session cannot be opened the run ends at
/// once; if a callback fails the session is closed without another
/// callback. The other steps cannot fail: whatever is reported for them,
/// the run goes on.
pub open spec fn advanced(state: AppState, outcome: Outcome) -> AppState {
    match state.step {
        Step::OpenSession => if outcome == Outcome::Failed {
            AppState { step: Step::Finished, failure: Some(AppError::SessionError), ..state }
        } else {
            AppState {
                step: Step::Init,
                background: None,
                decoration: no_decoration(),
                window: blank(state.width as nat, state.height as nat, BLANK),
                ..state
            }
        },
        Step::Init => if outcome == Outcome::Failed {
            callback_failed(state)
        } else {
            AppState { step: Step::Poll, ..state }
        },
        Step::Poll => AppState {
            step: Step::Update,
            input: after_event(state.input, polled(outcome)),
            ..state
        },
        Step::Update => if outcome == Outcome::Failed {
            callback_failed(state)
        } else {
            AppState { step: Step::Render, window: fresh_frame(state), ..state }
        },
        Step::Render => if outcome == Outcome::Failed {
            callback_failed(state)
        } else {
            AppState { step: Step::Present, ..state }
        },
        Step::Present => AppState {
            step: if state.quit {
                Step::Exit
            } else {
                Step::Sleep
            },
            ..state
        },
        Step::Sleep => AppState { step: Step::Poll, ..state },
        Step::Exit => if outcome == Outcome::Failed {
            callback_failed(state)
        } else {
            AppState { step: Step::CloseSession, ..state }
        },
        Step::CloseSession => AppState { step: Step::Finished, ..state },
        Step::Finished => state,
    }
}

/// The time that one frame is given, in nanoseconds, at `framerate` frames
/// a second.
pub open spec fn frame_nanos(framerate: int) -> int {
    NANOS_PER_SECOND as int / framerate
}

/// The time to sleep at the end of a frame that has taken `elapsed`
/// nanoseconds so far.
pub open spec fn rest_nanos(framerate: int, elapsed: int) -> int {
    if elapsed >= frame_nanos(framerate) {
        0
    } else {
        frame_nanos(framerate) - elapsed
    }
}

/// The state with `decoration` taken up and drawn onto the window.
pub open spec fn redecorated(state: AppState, decoration: Decoration) -> AppState {
    AppState { decoration, window: decorated(state.window, decoration), ..state }
}

/// The state with the window resized to `width` by `height` and cleared.
pub open spec fn resized(state: AppState, width: int, height: int) -> AppState {
    AppState {
        width,
        height,
        window: blank(width as nat, height as nat, fill_of(state.background)),
        ..state
    }
}

/// The state with `background` taken up and the window cleared to it.
pub open spec fn refilled(state: AppState, background: Option<char>) -> AppState {
    AppState {
        background,
        window: blank(state.width as nat, state.height as nat, fill_of(background)),
        ..state
    }
}

/// Whether a state is one that a runtime can be in: the sizes and the frame
/// rate are positive, and the window is as large as the configuration says.
pub open spec fn valid(state: AppState) -> bool {
    &&& 0 < state.width <= i32::MAX
    &&& 0 < state.height <= i32::MAX
    &&& 0 < state.framerate <= u32::MAX
    &&& state.window.len() == state.height
    &&& forall|y: int| 0 <= y < state.window.len() ==> (#[trigger] state.window[y]).len() == state.width
}

/// The state after the driver has reported each of `outcomes` in turn.
pub open spec fn run_of(state: AppState, outcomes: Seq<Outcome>) -> AppState
    decreases outcomes.len(),
{
    if outcomes.len() == 0 {
        state
    } else {
        advanced(run_of(state, outcomes.drop_last()), outcomes.last())
    }
}

/// Whether a step lies after the frame loop: the run is ending or over.
pub open spec fn winding_down(step: Step) -> bool {
    step == Step::Exit || step == Step::CloseSession || step == Step::Finished
}

/// Every step keeps a state one that a runtime can be in.
pub proof fn lemma_advanced_valid(state: AppState, outcome: Outcome)
    requires
        valid(state),
    ensures
        valid(advanced(state, outcome)),
{
}

/// A frame that is presented with the quit flag set is the last one:
/// whatever the driver reports from then on, the run goes through `exit`
/// and the closing of the session and never polls, updates or renders
/// again.
pub proof fn lemma_quit_ends_run(state: AppState, outcomes: Seq<Outcome>)
    requires
        state.step == Step::Present,
        state.quit,
        outcomes.len() > 0,
    ensures
        winding_down(run_of(state, outcomes).step),
        outcomes.len() == 1 ==> run_of(state, outcomes).step == Step::Exit,
        outcomes.len() == 2 ==> run_of(state, outcomes).step == Step::CloseSession,
        outcomes.len() >= 3 ==> run_of(state, outcomes).step == Step::Finished,
    decreases outcomes.len(),
{
    if outcomes.len() > 1 {
        lemma_quit_ends_run(state, outcomes.drop_last());
    } else {
        assert(run_of(state, outcomes.drop_last()) == state);
    }
}

/// The session is closed on every way out of a run that has opened it: a
/// callback that fails is followed by the closing of the session at once,
/// with no other callback in between, and the failure is kept.
pub proof fn lemma_failure_closes_session(state: AppState)
    requires
        state.step == Step::Init || state.step == Step::Update || state.step == Step::Render
            || state.step == Step::Exit,
    ensures
        advanced(state, Outcome::Failed).step == Step::CloseSession,
        advanced(state, Outcome::Failed).failure == Some(AppError::CallbackError),
        advanced(advanced(state, Outcome::Failed), Outcome::Done).step == Step::Finished,
{
}

/// If the session cannot be opened the run is over at once: no callback is
/// asked for.
pub proof fn lemma_no_session_no_callbacks(state: AppState, outcomes: Seq<Outcome>)
    requires
        state.step == Step::OpenSession,
        outcomes.len() > 0,
        outcomes[0] == Outcome::Failed,
    ensures
        run_of(state, outcomes).step == Step::Finished,
        run_of(state, outcomes).failure == Some(AppError::SessionError),
    decreases outcomes.len(),
{
    if outcomes.len() > 1 {
        assert(outcomes.drop_last()[0] == outcomes[0]);
        lemma_no_session_no_callbacks(state, outcomes.drop_last());
    } else {
        assert(run_of(state, outcomes.drop_last()) == state);
    }
}

impl CursorMode {
    /// The number by which terminals know the mode.
    pub open spec fn spec_code(self) -> int {
        match self {
            CursorMode::Hidden => 0,
            CursorMode::Normal => 1,
            CursorMode::Block => 2,
        }
    }

    /// The number by which terminals know the mode.
    pub fn code(&self) -> (code: i32)
        ensures
            code == self.spec_code(),
    {
        match self {
            CursorMode::Hidden => 0,
            CursorMode::Normal => 1,
            CursorMode::Block => 2,
        }
    }
}

/// The runtime of one terminal program.
pub struct App {
    pub(crate) width: i32,
    pub(crate) height: i32,
    pub(crate) title: String,
    pub(crate) background: Option<char>,
    pub(crate) cursor_mode: CursorMode,
    pub(crate) framerate: u32,
    pub(crate) decoration: Decoration,
    pub(crate) do_quit: bool,
    pub(crate) step: Step,
    pub(crate) failure: Option<AppError>,
    pub(crate) window: WindowBuffer,
    pub(crate) input: Input,
}

impl View for App {
    type V = AppState;

    closed spec fn view(&self) -> AppState {
        AppState {
            width: self.width as int,
            height: self.height as int,
            title: self.title@,
            background: self.background,
            cursor_mode: self.cursor_mode,
            framerate: self.framerate as int,
            decoration: self.decoration,
            quit: self.do_quit,
            window: self.window@,
            input: self.input@,
            step: self.step,
            failure: self.failure,
        }
    }
}

impl App {
    /// Whether `after` is `self` but for what its window holds.
    pub(crate) open spec fn only_window_differs(&self, after: &App) -> bool {
        &&& after.width == self.width
        &&& after.height == self.height
        &&& after.title == self.title
        &&& after.background == self.background
        &&& after.cursor_mode == self.cursor_mode
        &&& after.framerate == self.framerate
        &&& after.decoration == self.decoration
        &&& after.do_quit == self.do_quit
        &&& after.step == self.step
        &&& after.failure == self.failure
        &&& after.input == self.input
    }

    /// A runtime that differs from another in its window alone is in the
    /// other's state but for the window.
    pub(crate) proof fn lemma_window_drawn(&self, after: &App)
        requires
            self.only_window_differs(after),
        ensures
            after@ == (AppState { window: after.window@, ..self@ }),
            self@.window == self.window@,
    {
    }

    /// The runtime is in a state that it can be in.
    pub open spec fn wf(&self) -> bool {
        valid(self@)
    }

    /// The state of a runtime that has not run yet: the default
    /// configuration, a blank window, no input, and the session still to
    /// be opened.
    pub open spec fn initial() -> AppState {
        AppState {
            width: DEFAULT_WIDTH as int,
            height: DEFAULT_HEIGHT as int,
            title: DEFAULT_TITLE@,
            background: DEFAULT_BACKGROUND,
            cursor_mode: DEFAULT_CURSOR_MODE,
            framerate: DEFAULT_FRAMERATE as int,
            decoration: no_decoration(),
            quit: false,
            window: blank(DEFAULT_WIDTH as nat, DEFAULT_HEIGHT as nat, BLANK),
            input: (InputState {
                char_key: None,
                special_key: SpecialKey::NoKey,
                mouse_event: MouseEvent::NoEvent,
            }),
            step: Step::OpenSession,
            failure: None,
        }
    }

    /// A runtime with the default configuration that has not run yet.
    pub fn new() -> (app: App)
        ensures
            app.wf(),
            app@ == App::initial(),
    {
        App {
            width: DEFAULT_WIDTH,
            height: DEFAULT_HEIGHT,
            title: DEFAULT_TITLE.to_owned(),
            background: DEFAULT_BACKGROUND,
            cursor_mode: DEFAULT_CURSOR_MODE,
            framerate: DEFAULT_FRAMERATE,
            decoration: Decoration::new(),
            do_quit: false,
            step: Step::OpenSession,
            failure: None,
            window: WindowBuffer::new(DEFAULT_WIDTH as usize, DEFAULT_HEIGHT as usize, BLANK),
            input: Input::new(),
        }
    }

    /// The width of the window of a new runtime, in cells.
    pub fn get_default_width() -> (width: i32)
        ensures
            width == DEFAULT_WIDTH,
    {
        DEFAULT_WIDTH
    }

    /// The height of the window of a new runtime, in cells.
    pub fn get_default_height() -> (height: i32)
        ensures
            height == DEFAULT_HEIGHT,
    {
        DEFAULT_HEIGHT
    }

    /// The title of a new runtime.
    pub fn get_default_title() -> (title: String)
        ensures
            title@ == DEFAULT_TITLE@,
    {
        DEFAULT_TITLE.to_owned()
    }

    /// The cursor mode of a new runtime.
    pub fn get_default_cursor_mode() -> (mode: CursorMode)
        ensures
            mode == DEFAULT_CURSOR_MODE,
    {
        DEFAULT_CURSOR_MODE
    }

    /// The frames a second of a new runtime.
    pub fn get_default_framerate() -> (framerate: u32)
        ensures
            framerate == DEFAULT_FRAMERATE,
    {
        DEFAULT_FRAMERATE
    }

    /// Sets the width of the window and clears it. A width that is not
    /// positive is refused and changes nothing.
    pub fn set_width(&mut self, width: i32) -> (result: Result<(), AppError>)
        requires
            old(self).wf(),
        ensures
            final(self).wf(),
            width <= 0 ==> result == Err::<(), AppError>(AppError::InvalidConfig) && final(self)@
                == old(self)@,
            width > 0 ==> result is Ok && final(self)@ == resized(
                old(self)@,
                width as int,
                old(self)@.height,
            ),
    {
        if width <= 0 {
            return Err(AppError::InvalidConfig);
        }
        self.width = width;
        self.window.resize(width as usize, self.height as usize, self.fill());
        Ok(())
    }

    /// The width of the window, in cells.
    pub fn get_width(&self) -> (width: i32)
        ensures
            width == self@.width,
    {
        self.width
    }

    /// Sets the height of the window and clears it. A height that is not
    /// positive is refused and changes nothing.
    pub fn set_height(&mut self, height: i32) -> (result: Result<(), AppError>)
        requires
            old(self).wf(),
        ensures
            final(self).wf(),
            height <= 0 ==> result == Err::<(), AppError>(AppError::InvalidConfig) && final(self)@
                == old(self)@,
            height > 0 ==> result is Ok && final(self)@ == resized(
                old(self)@,
                old(self)@.width,
                height as int,
            ),
    {
        if height <= 0 {
            return Err(AppError::InvalidConfig);
        }
        self.height = height;
        self.window.resize(self.width as usize, height as usize, self.fill());
        Ok(())
    }

    /// The height of the window, in cells.
    pub fn get_height(&self) -> (height: i32)
        ensures
            height == self@.height,
    {
        self.height
    }

    /// Sets the width (`size.x`) and height (`size.y`) of the window and
    /// clears it. A size with a part that is not positive is refused and
    /// changes nothing.
    pub fn set_size(&mut self, size: Vector2Int) -> (result: Result<(), AppError>)
        requires
            old(self).wf(),
        ensures
            final(self).wf(),
            size.x <= 0 || size.y <= 0 ==> result == Err::<(), AppError>(AppError::InvalidConfig)
                && final(self)@ == old(self)@,
            size.x > 0 && size.y > 0 ==> result is Ok && final(self)@ == resized(
                old(self)@,
                size.x as int,
                size.y as int,
            ),
    {
        if size.x <= 0 || size.y <= 0 {
            return Err(AppError::InvalidConfig);
        }
        self.width = size.x;
        self.height = size.y;
        self.window.resize(size.x as usize, size.y as usize, self.fill());
        Ok(())
    }

    /// The size of the window: its width as `x`, its height as `y`.
    pub fn get_size(&self) -> (size: Vector2Int)
        ensures
            size.x == self@.width,
            size.y == self@.height,
    {
        Vector2Int { x: self.width, y: self.height }
    }

    /// Sets the title of the terminal window.
    pub fn set_title(&mut self, title: String)
        requires
            old(self).wf(),
        ensures
            final(self).wf(),
            final(self)@ == (AppState { title: title@, ..old(self)@ }),
    {
        self.title = title;
    }

    /// The title of the terminal window.
    pub fn get_title(&self) -> (title: &str)
        ensures
            title@ == self@.title,
    {
        self.title.as_str()
    }

    /// Sets how the cursor is shown.
    pub fn set_cursor_mode(&mut self, mode: CursorMode)
        requires
            old(self).wf(),
        ensures
            final(self).wf(),
            final(self)@ == (AppState { cursor_mode: mode, ..old(self)@ }),
    {
        self.cursor_mode = mode;
    }

    /// How the cursor is shown.
    pub fn get_cursor_mode(&self) -> (mode: CursorMode)
        ensures
            mode == self@.cursor_mode,
    {
        self.cursor_mode
    }

    /// Sets the background character and clears the window to it.
    pub fn set_background(&mut self, background_char: char)
        requires
            old(self).wf(),
        ensures
            final(self).wf(),
            final(self)@ == refilled(old(self)@, Some(background_char)),
    {
        self.background = Some(background_char);
        self.clear();
    }

    /// Removes the background character and clears the window to blanks.
    pub fn clear_background(&mut self)
        requires
            old(self).wf(),
        ensures
            final(self).wf(),
            final(self)@ == refilled(old(self)@, None),
    {
        self.background = None;
        self.clear();
    }

    /// The background character, or the null character where there is
    /// none.
    pub fn get_background(&self) -> (background: char)
        ensures
            background == match self@.background {
                Some(ch) => ch,
                None => '\0',
            },
    {
        match self.background {
            Some(ch) => ch,
            None => '\0',
        }
    }

    /// The characters along the rim of the window.
    pub fn get_decoration(&self) -> (decoration: Decoration)
        ensures
            decoration == self@.decoration,
    {
        self.decoration
    }

    /// Draws the current edges and corners onto the window, all eight
    /// together.
    pub fn update_borders_corners(&mut self)
        requires
            old(self).wf(),
        ensures
            final(self).wf(),
            final(self)@ == redecorated(old(self)@, old(self)@.decoration),
    {
        let decoration = self.decoration;
        self.window.decorate(decoration);
    }

    /// Takes up `decoration` and draws it onto the window.
    pub fn set_decoration(&mut self, decoration: Decoration)
        requires
            old(self).wf(),
        ensures
            final(self).wf(),
            final(self)@ == redecorated(old(self)@, decoration),
    {
        self.decoration = decoration;
        self.window.decorate(decoration);
    }

    /// Sets the character of the left edge and redraws the rim.
    pub fn set_border_left(&mut self, border_char: char)
        requires
            old(self).wf(),
        ensures
            final(self).wf(),
            final(self)@ == redecorated(
                old(self)@,
                Decoration { left: Some(border_char), ..old(self)@.decoration },
            ),
    {
        let decoration = Decoration { left: Some(border_char), ..self.decoration };
        self.set_decoration(decoration);
    }

    /// Sets the character of the right edge and redraws the rim.
    pub fn set_border_right(&mut self, border_char: char)
        requires
            old(self).wf(),
        ensures
            final(self).wf(),
            final(self)@ == redecorated(
                old(self)@,
                Decoration { right: Some(border_char), ..old(self)@.decoration },
            ),
    {
        let decoration = Decoration { right: Some(border_char), ..self.decoration };
        self.set_decoration(decoration);
    }

    /// Sets the character of the top edge and redraws the rim.
    pub fn set_border_top(&mut self, border_char: char)
        requires
            old(self).wf(),
        ensures
            final(self).wf(),
            final(self)@ == redecorated(
                old(self)@,
                Decoration { top: Some(border_char), ..old(self)@.decoration },
            ),
    {
        let decoration = Decoration { top: Some(border_char), ..self.decoration };
        self.set_decoration(decoration);
    }

    /// Sets the character of the bottom edge and redraws the rim.
    pub fn set_border_bottom(&mut self, border_char: char)
        requires
            old(self).wf(),
        ensures
            final(self).wf(),
            final(self)@ == redecorated(
                old(self)@,
                Decoration { bottom: Some(border_char), ..old(self)@.decoration },
            ),
    {
        let decoration = Decoration { bottom: Some(border_char), ..self.decoration };
        self.set_decoration(decoration);
    }

    /// Sets the character of all four edges and redraws the rim.
    pub fn set_all_borders(&mut self, border_char: char)
        requires
            old(self).wf(),
        ensures
            final(self).wf(),
            final(self)@ == redecorated(
                old(self)@,
                Decoration {
                    left: Some(border_char),
                    right: Some(border_char),
                    top: Some(border_char),
                    bottom: Some(border_char),
                    ..old(self)@.decoration
                },
            ),
    {
        let decoration = Decoration {
            left: Some(border_char),
            right: Some(border_char),
            top: Some(border_char),
            bottom: Some(border_char),
            ..self.decoration
        };
        self.set_decoration(decoration);
    }

    /// Removes the left edge and redraws the rim.
    pub fn clear_border_left(&mut self)
        requires
            old(self).wf(),
        ensures
            final(self).wf(),
            final(self)@ == redecorated(
                old(self)@,
                Decoration { left: None, ..old(self)@.decoration },
            ),
    {
        let decoration = Decoration { left: None, ..self.decoration };
        self.set_decoration(decoration);
    }

    /// Removes the right edge and redraws the rim.
    pub fn clear_border_right(&mut self)
        requires
            old(self).wf(),
        ensures
            final(self).wf(),
            final(self)@ == redecorated(
                old(self)@,
                Decoration { right: None, ..old(self)@.decoration },
            ),
    {
        let decoration = Decoration { right: None, ..self.decoration };
        self.set_decoration(decoration);
    }

    /// Removes the top edge and redraws the rim.
    pub fn clear_border_top(&mut self)
        requires
            old(self).wf(),
        ensures
            final(self).wf(),
            final(self)@ == redecorated(
                old(self)@,
                Decoration { top: None, ..old(self)@.decoration },
            ),
    {
        let decoration = Decoration { top: None, ..self.decoration };
        self.set_decoration(decoration);
    }

    /// Removes the bottom edge and redraws the rim.
    pub fn clear_border_bottom(&mut self)
        requires
            old(self).wf(),
        ensures
            final(self).wf(),
            final(self)@ == redecorated(
                old(self)@,
                Decoration { bottom: None, ..old(self)@.decoration },
            ),
    {
        let decoration = Decoration { bottom: None, ..self.decoration };
        self.set_decoration(decoration);
    }

    /// Removes all four edges and redraws the rim.
    pub fn clear_all_borders(&mut self)
        requires
            old(self).wf(),
        ensures
            final(self).wf(),
            final(self)@ == redecorated(
                old(self)@,
                Decoration {
                    left: None,
                    right: None,
                    top: None,
                    bottom: None,
                    ..old(self)@.decoration
                },
            ),
    {
        let decoration = Decoration {
            left: None,
            right: None,
            top: None,
            bottom: None,
            ..self.decoration
        };
        self.set_decoration(decoration);
    }

    /// Sets the character of the top left corner and redraws the rim.
    pub fn set_corner_top_left(&mut self, corner_char: char)
        requires
            old(self).wf(),
        ensures
            final(self).wf(),
            final(self)@ == redecorated(
                old(self)@,
                Decoration { top_left: Some(corner_char), ..old(self)@.decoration },
            ),
    {
        let decoration = Decoration { top_left: Some(corner_char), ..self.decoration };
        self.set_decoration(decoration);
    }

    /// Sets the character of the top right corner and redraws the rim.
    pub fn set_corner_top_right(&mut self, corner_char: char)
        requires
            old(self).wf(),
        ensures
            final(self).wf(),
            final(self)@ == redecorated(
                old(self)@,
                Decoration { top_right: Some(corner_char), ..old(self)@.decoration },
            ),
    {
        let decoration = Decoration { top_right: Some(corner_char), ..self.decoration };
        self.set_decoration(decoration);
    }

    /// Sets the character of the bottom left corner and redraws the rim.
    pub fn set_corner_bottom_left(&mut self, corner_char: char)
        requires
            old(self).wf(),
        ensures
            final(self).wf(),
            final(self)@ == redecorated(
                old(self)@,
                Decoration { bottom_left: Some(corner_char), ..old(self)@.decoration },
            ),
    {
        let decoration = Decoration { bottom_left: Some(corner_char), ..self.decoration };
        self.set_decoration(decoration);
    }

    /// Sets the character of the bottom right corner and redraws the rim.
    pub fn set_corner_bottom_right(&mut self, corner_char: char)
        requires
            old(self).wf(),
        ensures
            final(self).wf(),
            final(self)@ == redecorated(
                old(self)@,
                Decoration { bottom_right: Some(corner_char), ..old(self)@.decoration },
            ),
    {
        let decoration = Decoration { bottom_right: Some(corner_char), ..self.decoration };
        self.set_decoration(decoration);
    }

    /// Sets the character of all four corners and redraws the rim.
    pub fn set_all_corners(&mut self, corner_char: char)
        requires
            old(self).wf(),
        ensures
            final(self).wf(),
            final(self)@ == redecorated(
                old(self)@,
                Decoration {
                    top_left: Some(corner_char),
                    top_right: Some(corner_char),
                    bottom_left: Some(corner_char),
                    bottom_right: Some(corner_char),
                    ..old(self)@.decoration
                },
            ),
    {
        let decoration = Decoration {
            top_left: Some(corner_char),
            top_right: Some(corner_char),
            bottom_left: Some(corner_char),
            bottom_right: Some(corner_char),
            ..self.decoration
        };
        self.set_decoration(decoration);
    }

    /// Removes the top left corner and redraws the rim.
    pub fn clear_corner_top_left(&mut self)
        requires
            old(self).wf(),
        ensures
            final(self).wf(),
            final(self)@ == redecorated(
                old(self)@,
                Decoration { top_left: None, ..old(self)@.decoration },
            ),
    {
        let decoration = Decoration { top_left: None, ..self.decoration };
        self.set_decoration(decoration);
    }

    /// Removes the top right corner and redraws the rim.
    pub fn clear_corner_top_right(&mut self)
        requires
            old(self).wf(),
        ensures
            final(self).wf(),
            final(self)@ == redecorated(
                old(self)@,
                Decoration { top_right: None, ..old(self)@.decoration },
            ),
    {
        let decoration = Decoration { top_right: None, ..self.decoration };
        self.set_decoration(decoration);
    }

    /// Removes the bottom left corner and redraws the rim.
    pub fn clear_corner_bottom_left(&mut self)
        requires
            old(self).wf(),
        ensures
            final(self).wf(),
            final(self)@ == redecorated(
                old(self)@,
                Decoration { bottom_left: None, ..old(self)@.decoration },
            ),
    {
        let decoration = Decoration { bottom_left: None, ..self.decoration };
        self.set_decoration(decoration);
    }

    /// Removes the bottom right corner and redraws the rim.
    pub fn clear_corner_bottom_right(&mut self)
        requires
            old(self).wf(),
        ensures
            final(self).wf(),
            final(self)@ == redecorated(
                old(self)@,
                Decoration { bottom_right: None, ..old(self)@.decoration },
            ),
    {
        let decoration = Decoration { bottom_right: None, ..self.decoration };
        self.set_decoration(decoration);
    }

    /// Removes all four corners and redraws the rim.
    pub fn clear_all_corners(&mut self)
        requires
            old(self).wf(),
        ensures
            final(self).wf(),
            final(self)@ == redecorated(
                old(self)@,
                Decoration {
                    top_left: None,
                    top_right: None,
                    bottom_left: None,
                    bottom_right: None,
                    ..old(self)@.decoration
                },
            ),
    {
        let decoration = Decoration {
            top_left: None,
            top_right: None,
            bottom_left: None,
            bottom_right: None,
            ..self.decoration
        };
        self.set_decoration(decoration);
    }

    /// Sets the number of frames a second. A rate of zero is refused and
    /// changes nothing.
    pub fn set_framerate(&mut self, framerate: u32) -> (result: Result<(), AppError>)
        requires
            old(self).wf(),
        ensures
            final(self).wf(),
            framerate == 0 ==> result == Err::<(), AppError>(AppError::InvalidConfig)
                && final(self)@ == old(self)@,
            framerate > 0 ==> result is Ok && final(self)@ == (AppState {
                framerate: framerate as int,
                ..old(self)@
            }),
    {
        if framerate == 0 {
            return Err(AppError::InvalidConfig);
        }
        self.framerate = framerate;
        Ok(())
    }

    /// The number of frames a second.
    pub fn get_framerate(&self) -> (framerate: u32)
        ensures
            framerate == self@.framerate,
    {
        self.framerate
    }

    /// The time that one frame is given, in nanoseconds.
    pub fn get_frame_time(&self) -> (nanos: u64)
        requires
            self.wf(),
        ensures
            nanos == frame_nanos(self@.framerate),
    {
        NANOS_PER_SECOND / (self.framerate as u64)
    }

    /// The time to sleep at the end of a frame that has taken `elapsed`
    /// nanoseconds so far: what is left of the frame's time, or nothing.
    pub fn sleep_time(&self, elapsed: u64) -> (nanos: u64)
        requires
            self.wf(),
        ensures
            nanos == rest_nanos(self@.framerate, elapsed as int),
    {
        let frame = self.get_frame_time();
        if elapsed >= frame {
            0
        } else {
            frame - elapsed
        }
    }

    /// Fills every cell of the window with the fill character.
    pub fn clear(&mut self)
        requires
            old(self).wf(),
        ensures
            final(self).wf(),
            final(self)@ == refilled(old(self)@, old(self)@.background),
    {
        let fill = self.fill();
        self.window.clear(fill);
        proof {
            let blanked = blank(self@.width as nat, self@.height as nat, fill);
            assert forall|y: int| 0 <= y < blanked.len() implies self@.window[y] == blanked[y] by {
                assert(self@.window[y] =~= blanked[y]);
            }
            assert(self@.window =~= blanked);
        }
    }

    /// Asks for the run to end. The frame in progress is still finished.
    pub fn quit(&mut self)
        requires
            old(self).wf(),
        ensures
            final(self).wf(),
            final(self)@ == (AppState { quit: true, ..old(self)@ }),
    {
        self.do_quit = true;
    }

    /// Whether the run has been asked to end.
    pub fn is_quitting(&self) -> (quit: bool)
        ensures
            quit == self@.quit,
    {
        self.do_quit
    }

    /// What the driver has to do next.
    pub fn step(&self) -> (step: Step)
        ensures
            step == self@.step,
    {
        self.step
    }

    /// Why the run ended early, if it did.
    pub fn failure(&self) -> (failure: Option<AppError>)
        ensures
            failure == self@.failure,
    {
        self.failure
    }

    /// The input of the current frame.
    pub fn input(&self) -> (input: &Input)
        ensures
            input@ == self@.input,
    {
        &self.input
    }

    /// The window that the frame is composed on.
    pub fn window(&self) -> (window: &WindowBuffer)
        ensures
            window@ == self@.window,
    {
        &self.window
    }

    /// Takes in how the step that the driver was asked for went, does the
    /// runtime's own part of what follows, and says what the driver has to
    /// do next.
    pub fn advance(&mut self, outcome: Outcome) -> (next: Step)
        requires
            old(self).wf(),
        ensures
            final(self).wf(),
            final(self)@ == advanced(old(self)@, outcome),
            next == final(self)@.step,
    {
        let failed = outcome == Outcome::Failed;
        match self.step {
            Step::OpenSession => {
                if failed {
                    self.failure = Some(AppError::SessionError);
                    self.step = Step::Finished;
                } else {
                    self.background = None;
                    self.clear();
                    self.decoration = Decoration::new();
                    self.step = Step::Init;
                }
            },
            Step::Init => {
                if failed {
                    self.fail_callback();
                } else {
                    self.step = Step::Poll;
                }
            },
            Step::Poll => {
                let raw = match outcome {
                    Outcome::Input(event) => Some(event),
                    _ => None,
                };
                self.input.query(raw);
                self.step = Step::Update;
            },
            Step::Update => {
                if failed {
                    self.fail_callback();
                } else {
                    self.clear();
                    self.update_borders_corners();
                    self.step = Step::Render;
                }
            },
            Step::Render => {
                if failed {
                    self.fail_callback();
                } else {
                    self.step = Step::Present;
                }
            },
            Step::Present => {
                if self.do_quit {
                    self.step = Step::Exit;
                } else {
                    self.step = Step::Sleep;
                }
            },
            Step::Sleep => {
                self.step = Step::Poll;
            },
            Step::Exit => {
                if failed {
                    self.fail_callback();
                } else {
                    self.step = Step::CloseSession;
                }
            },
            Step::CloseSession => {
                self.step = Step::Finished;
            },
            Step::Finished => {},
        }
        self.step
    }

    /// The character that cleared cells hold.
    fn fill(&self) -> (fill: char)
        ensures
            fill == fill_of(self@.background),
    {
        match self.background {
            Some(ch) => ch,
            None => BLANK,
        }
    }

    /// Records that a callback failed; the session is closed next.
    fn fail_callback(&mut self)
        requires
            old(self).wf(),
        ensures
            final(self).wf(),
            final(self)@ == callback_failed(old(self)@),
    {
        self.failure = Some(AppError::CallbackError);
        self.step = Step::CloseSession;
    }
}

} // verus!

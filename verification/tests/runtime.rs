use lunar::app::App;
use lunar::app::AppError;
use lunar::app::CursorMode;
use lunar::app::Outcome;
use lunar::app::Step;
use lunar::entities::text_object::TextObject;
use lunar::input::RawEvent;
use lunar::input::SpecialKey;
use lunar::types::vector2int::Vector2Int;
use lunar::window::Decoration;

fn v(x: i32, y: i32) -> Vector2Int {
    Vector2Int { x, y }
}

fn row(app: &App, y: usize) -> String {
    let window = app.window();
    (0..window.get_width()).map(|x| window.cell(x, y).unwrap()).collect()
}

fn rows(app: &App) -> Vec<String> {
    (0..app.window().get_height()).map(|y| row(app, y)).collect()
}

/// Runs `app` to its end as a driver would, with no terminal behind it, and
/// returns the steps that were asked for, in order.
fn drive(
    app: &mut App,
    mut callback: impl FnMut(&mut App, Step) -> bool,
    mut events: Vec<Option<RawEvent>>,
    limit: usize,
) -> Vec<Step> {
    events.reverse();
    let mut trace = Vec::new();
    let mut step = app.step();
    while step != Step::Finished && trace.len() < limit {
        trace.push(step);
        let outcome = match step {
            Step::Init | Step::Update | Step::Render | Step::Exit => {
                if callback(app, step) {
                    Outcome::Done
                } else {
                    Outcome::Failed
                }
            }
            Step::Poll => match events.pop().flatten() {
                Some(event) => Outcome::Input(event),
                None => Outcome::Done,
            },
            _ => Outcome::Done,
        };
        step = app.advance(outcome);
    }
    trace
}

#[test]
fn a_new_runtime_has_the_defaults() {
    let app = App::new();
    assert_eq!(app.get_width(), 100);
    assert_eq!(app.get_height(), 30);
    assert_eq!(app.get_size(), v(100, 30));
    assert_eq!(app.get_title(), "lunar App");
    assert_eq!(app.get_cursor_mode(), CursorMode::Hidden);
    assert_eq!(app.get_background(), '\0');
    assert_eq!(app.get_framerate(), 60);
    assert_eq!(app.get_decoration(), Decoration::new());
    assert!(!app.is_quitting());
    assert_eq!(app.step(), Step::OpenSession);
    assert_eq!(app.failure(), None);
    assert_eq!(app.window().get_width(), 100);
    assert_eq!(app.window().get_height(), 30);
    assert_eq!(row(&app, 29), " ".repeat(100));
    assert_eq!(app.input().get_char_key_down(), None);
}

#[test]
fn the_defaults_can_be_asked_for() {
    assert_eq!(App::get_default_width(), 100);
    assert_eq!(App::get_default_height(), 30);
    assert_eq!(App::get_default_title(), "lunar App");
    assert_eq!(App::get_default_cursor_mode(), CursorMode::Hidden);
    assert_eq!(App::get_default_framerate(), 60);
    assert_eq!(CursorMode::Hidden.code(), 0);
    assert_eq!(CursorMode::Normal.code(), 1);
    assert_eq!(CursorMode::Block.code(), 2);
}

#[test]
fn sizes_that_are_not_positive_are_refused() {
    let mut app = App::new();
    assert_eq!(app.set_width(0), Err(AppError::InvalidConfig));
    assert_eq!(app.set_width(-4), Err(AppError::InvalidConfig));
    assert_eq!(app.set_height(0), Err(AppError::InvalidConfig));
    assert_eq!(app.set_height(i32::MIN), Err(AppError::InvalidConfig));
    assert_eq!(app.set_size(v(10, 0)), Err(AppError::InvalidConfig));
    assert_eq!(app.set_size(v(-1, 10)), Err(AppError::InvalidConfig));
    assert_eq!(app.get_size(), v(100, 30));
    assert_eq!(app.window().get_width(), 100);
    assert_eq!(app.window().get_height(), 30);
}

#[test]
fn setting_a_size_resizes_the_window() {
    let mut app = App::new();
    app.set_background('.');
    assert_eq!(app.set_width(4), Ok(()));
    assert_eq!(app.set_height(2), Ok(()));
    assert_eq!(app.get_size(), v(4, 2));
    assert_eq!(rows(&app), ["....", "...."]);
    assert_eq!(app.set_size(v(1, 3)), Ok(()));
    assert_eq!(rows(&app), [".", ".", "."]);
}

#[test]
fn a_frame_rate_of_zero_is_refused() {
    let mut app = App::new();
    assert_eq!(app.set_framerate(0), Err(AppError::InvalidConfig));
    assert_eq!(app.get_framerate(), 60);
    assert_eq!(app.set_framerate(30), Ok(()));
    assert_eq!(app.get_framerate(), 30);
}

#[test]
fn the_frame_time_is_a_second_by_the_rate() {
    let mut app = App::new();
    assert_eq!(app.get_frame_time(), 16_666_666);
    app.set_framerate(1).unwrap();
    assert_eq!(app.get_frame_time(), 1_000_000_000);
    app.set_framerate(1000).unwrap();
    assert_eq!(app.get_frame_time(), 1_000_000);
    app.set_framerate(u32::MAX).unwrap();
    assert_eq!(app.get_frame_time(), 0);
}

#[test]
fn the_sleep_is_what_is_left_of_the_frame() {
    let mut app = App::new();
    app.set_framerate(100).unwrap();
    assert_eq!(app.sleep_time(0), 10_000_000);
    assert_eq!(app.sleep_time(4_000_000), 6_000_000);
    assert_eq!(app.sleep_time(10_000_000), 0);
    assert_eq!(app.sleep_time(u64::MAX), 0);
}

#[test]
fn title_and_cursor_mode_are_kept() {
    let mut app = App::new();
    app.set_title(String::from("Pong"));
    app.set_cursor_mode(CursorMode::Block);
    assert_eq!(app.get_title(), "Pong");
    assert_eq!(app.get_cursor_mode(), CursorMode::Block);
}

#[test]
fn the_background_fills_the_window() {
    let mut app = App::new();
    app.set_size(v(3, 2)).unwrap();
    app.set_background('~');
    assert_eq!(app.get_background(), '~');
    assert_eq!(rows(&app), ["~~~", "~~~"]);
    app.clear_background();
    assert_eq!(app.get_background(), '\0');
    assert_eq!(rows(&app), ["   ", "   "]);
}

#[test]
fn borders_and_corners_are_drawn_at_once() {
    let mut app = App::new();
    app.set_size(v(4, 3)).unwrap();
    app.set_background('.');
    app.set_border_left('l');
    assert_eq!(rows(&app), ["l...", "l...", "l..."]);
    app.set_border_right('r');
    app.set_border_top('t');
    app.set_border_bottom('b');
    assert_eq!(rows(&app), ["lttr", "l..r", "lbbr"]);
    app.set_corner_top_left('1');
    app.set_corner_top_right('2');
    app.set_corner_bottom_left('3');
    app.set_corner_bottom_right('4');
    assert_eq!(rows(&app), ["1tt2", "l..r", "3bb4"]);
    app.set_all_borders('*');
    app.set_all_corners('+');
    assert_eq!(rows(&app), ["+**+", "*..*", "+**+"]);
}

#[test]
fn cleared_borders_and_corners_are_not_drawn_again() {
    let mut app = App::new();
    app.set_size(v(3, 3)).unwrap();
    app.set_all_borders('*');
    app.set_all_corners('+');
    app.clear_border_left();
    app.clear_corner_top_left();
    app.clear();
    app.update_borders_corners();
    assert_eq!(rows(&app), ["**+", "  *", "+*+"]);
    app.clear_border_right();
    app.clear_border_top();
    app.clear_border_bottom();
    app.clear();
    app.update_borders_corners();
    assert_eq!(rows(&app), ["  +", "   ", "+ +"]);
    app.set_all_borders('*');
    app.clear_corner_top_right();
    app.clear_corner_bottom_left();
    app.clear_corner_bottom_right();
    app.clear();
    app.update_borders_corners();
    assert_eq!(rows(&app), ["***", "* *", "***"]);
    app.set_all_corners('+');
    app.clear_all_borders();
    app.clear();
    app.update_borders_corners();
    assert_eq!(rows(&app), ["+ +", "   ", "+ +"]);
    app.clear_all_corners();
    assert_eq!(app.get_decoration(), Decoration::new());
}

#[test]
fn one_frame_shows_the_text_and_the_fill() {
    let text = String::from("hi");
    let line = TextObject::new(&text);
    let mut app = App::new();
    let trace = drive(
        &mut app,
        |app, step| {
            match step {
                Step::Init => app.set_size(v(10, 5)).unwrap(),
                Step::Update => app.quit(),
                Step::Render => line.render(app),
                _ => {}
            }
            true
        },
        vec![None],
        100,
    );
    assert_eq!(trace.len(), 8);
    assert_eq!(row(&app, 0), "hi        ");
    assert_eq!(rows(&app)[1..], ["          ", "          ", "          ", "          "]);
}

#[test]
fn one_frame_shows_the_background_where_nothing_is_drawn() {
    let text = String::from("hi");
    let line = TextObject::new(&text);
    let mut app = App::new();
    drive(
        &mut app,
        |app, step| {
            match step {
                Step::Init => {
                    app.set_size(v(10, 5)).unwrap();
                    app.set_background('.');
                }
                Step::Update => app.quit(),
                Step::Render => line.render(app),
                _ => {}
            }
            true
        },
        vec![None],
        100,
    );
    assert_eq!(row(&app, 0), "hi........");
    assert_eq!(row(&app, 4), "..........");
}

#[test]
fn quitting_in_the_first_update_ends_after_one_frame() {
    let mut calls: Vec<Step> = Vec::new();
    let mut app = App::new();
    let trace = drive(
        &mut app,
        |app, step| {
            calls.push(step);
            if step == Step::Update {
                app.quit();
            }
            true
        },
        Vec::new(),
        100,
    );
    assert_eq!(calls, [Step::Init, Step::Update, Step::Render, Step::Exit]);
    assert_eq!(
        trace,
        [
            Step::OpenSession,
            Step::Init,
            Step::Poll,
            Step::Update,
            Step::Render,
            Step::Present,
            Step::Exit,
            Step::CloseSession,
        ]
    );
    assert_eq!(app.step(), Step::Finished);
    assert_eq!(app.failure(), None);
    assert_eq!(app.advance(Outcome::Done), Step::Finished);
}

#[test]
fn the_loop_goes_on_until_it_is_asked_to_quit() {
    let mut updates = 0;
    let mut app = App::new();
    let trace = drive(
        &mut app,
        |app, step| {
            if step == Step::Update {
                updates += 1;
                if updates == 3 {
                    app.quit();
                }
            }
            true
        },
        Vec::new(),
        100,
    );
    assert_eq!(updates, 3);
    assert_eq!(trace.iter().filter(|step| **step == Step::Poll).count(), 3);
    assert_eq!(trace.iter().filter(|step| **step == Step::Render).count(), 3);
    assert_eq!(trace.iter().filter(|step| **step == Step::Present).count(), 3);
    assert_eq!(trace.iter().filter(|step| **step == Step::Sleep).count(), 2);
    assert_eq!(trace.iter().filter(|step| **step == Step::Exit).count(), 1);
    assert_eq!(trace.last(), Some(&Step::CloseSession));
}

#[test]
fn quitting_in_render_still_presents_the_frame() {
    let mut app = App::new();
    let trace = drive(
        &mut app,
        |app, step| {
            if step == Step::Render {
                app.quit();
            }
            true
        },
        Vec::new(),
        100,
    );
    assert_eq!(trace[4..], [Step::Render, Step::Present, Step::Exit, Step::CloseSession]);
}

#[test]
fn polled_events_reach_the_input() {
    let mut seen: Vec<(Option<char>, SpecialKey)> = Vec::new();
    let mut app = App::new();
    drive(
        &mut app,
        |app, step| {
            if step == Step::Update {
                seen.push((app.input().get_char_key_down(), app.input().get_special_key_down()));
                if seen.len() == 4 {
                    app.quit();
                }
            }
            true
        },
        vec![
            Some(RawEvent::Character('a')),
            None,
            Some(RawEvent::Special(SpecialKey::Down)),
            Some(RawEvent::Other),
        ],
        100,
    );
    assert_eq!(
        seen,
        [
            (Some('a'), SpecialKey::NoKey),
            (None, SpecialKey::NoKey),
            (None, SpecialKey::Down),
            (None, SpecialKey::NoKey),
        ]
    );
}

#[test]
fn a_session_that_cannot_be_opened_runs_no_callback() {
    let mut app = App::new();
    assert_eq!(app.step(), Step::OpenSession);
    assert_eq!(app.advance(Outcome::Failed), Step::Finished);
    assert_eq!(app.failure(), Some(AppError::SessionError));
    assert_eq!(app.advance(Outcome::Done), Step::Finished);
    assert_eq!(app.failure(), Some(AppError::SessionError));
}

#[test]
fn a_failing_callback_closes_the_session() {
    let mut calls: Vec<Step> = Vec::new();
    let mut app = App::new();
    let trace = drive(
        &mut app,
        |_, step| {
            calls.push(step);
            step != Step::Update
        },
        Vec::new(),
        100,
    );
    assert_eq!(calls, [Step::Init, Step::Update]);
    assert_eq!(
        trace,
        [Step::OpenSession, Step::Init, Step::Poll, Step::Update, Step::CloseSession]
    );
    assert_eq!(app.step(), Step::Finished);
    assert_eq!(app.failure(), Some(AppError::CallbackError));
}

#[test]
fn a_failing_init_or_exit_closes_the_session() {
    let mut app = App::new();
    let trace = drive(&mut app, |_, step| step != Step::Init, Vec::new(), 100);
    assert_eq!(trace, [Step::OpenSession, Step::Init, Step::CloseSession]);
    assert_eq!(app.failure(), Some(AppError::CallbackError));
    let mut app = App::new();
    let trace = drive(
        &mut app,
        |app, step| {
            app.quit();
            step != Step::Exit
        },
        Vec::new(),
        100,
    );
    assert_eq!(trace.last(), Some(&Step::CloseSession));
    assert_eq!(trace[trace.len() - 2], Step::Exit);
    assert_eq!(app.failure(), Some(AppError::CallbackError));
}

#[test]
fn opening_the_session_clears_background_and_rim() {
    let mut app = App::new();
    app.set_size(v(3, 2)).unwrap();
    app.set_title(String::from("kept"));
    app.set_cursor_mode(CursorMode::Normal);
    app.set_background('.');
    app.set_all_borders('*');
    app.set_all_corners('+');
    assert_eq!(app.advance(Outcome::Done), Step::Init);
    assert_eq!(app.get_background(), '\0');
    assert_eq!(app.get_decoration(), Decoration::new());
    assert_eq!(rows(&app), ["   ", "   "]);
    assert_eq!(app.get_size(), v(3, 2));
    assert_eq!(app.get_title(), "kept");
    assert_eq!(app.get_cursor_mode(), CursorMode::Normal);
}

#[test]
fn every_frame_starts_cleared_and_decorated() {
    let text = String::from("xxxx");
    let line = TextObject::new(&text);
    let mut frames = 0;
    let mut shown: Vec<Vec<String>> = Vec::new();
    let mut app = App::new();
    drive(
        &mut app,
        |app, step| {
            match step {
                Step::Init => {
                    app.set_size(v(4, 3)).unwrap();
                    app.set_all_borders('*');
                }
                Step::Update => {
                    frames += 1;
                    if frames == 2 {
                        app.quit();
                    }
                }
                Step::Render => {
                    shown.push(rows(app));
                    if frames == 1 {
                        let mut moved = line;
                        moved.move_to(v(0, 1));
                        moved.render(app);
                    }
                }
                _ => {}
            }
            true
        },
        Vec::new(),
        100,
    );
    assert_eq!(shown.len(), 2);
    assert_eq!(shown[0], ["****", "*  *", "****"]);
    assert_eq!(shown[1], ["****", "*  *", "****"]);
}

use lunar::app::App;
use lunar::entities::char_object::CharMap;
use lunar::entities::char_object::CharObject;
use lunar::entities::game_object::GameObject;
use lunar::entities::scene::Renderable;
use lunar::entities::scene::Scene;
use lunar::entities::text_object::TextObject;
use lunar::types::vector2int::Vector2Int;
use lunar::window::offset;
use lunar::window::Decoration;
use lunar::window::WindowBuffer;

fn v(x: i32, y: i32) -> Vector2Int {
    Vector2Int { x, y }
}

fn map_of(rows: &[&str]) -> CharMap {
    let columns = rows.first().map_or(0, |row| row.chars().count());
    let glyphs: Vec<char> = rows.iter().flat_map(|row| row.chars()).collect();
    CharMap::new(rows.len(), columns, glyphs).unwrap()
}

fn row_of(window: &WindowBuffer, y: usize) -> String {
    (0..window.get_width()).map(|x| window.cell(x, y).unwrap()).collect()
}

fn rows_of(window: &WindowBuffer) -> Vec<String> {
    (0..window.get_height()).map(|y| row_of(window, y)).collect()
}

#[test]
fn a_new_object_stands_at_the_origin_and_can_move() {
    let object = GameObject::new();
    assert_eq!(object.get_position(), v(0, 0));
    assert!(!object.get_static());
}

#[test]
fn shifts_add_up() {
    let mut object = GameObject::new();
    object.move_to(v(10, 20));
    let deltas = [v(1, 2), v(-5, 7), v(0, 0), v(100, -300), v(-96, 291)];
    for delta in deltas {
        object.move_by(delta);
    }
    assert_eq!(object.get_position(), v(10, 20));
    object.move_by(v(3, -4));
    assert_eq!(object.get_position(), v(13, 16));
}

#[test]
fn a_static_object_stays() {
    let mut object = GameObject::new();
    object.move_to(v(4, 5));
    object.set_static(true);
    assert!(object.get_static());
    object.move_to(v(9, 9));
    object.move_by(v(1, 1));
    object.move_by(v(i32::MAX, i32::MIN));
    object.move_to(v(-3, 0));
    assert_eq!(object.get_position(), v(4, 5));
    object.set_static(false);
    object.move_by(v(1, 1));
    assert_eq!(object.get_position(), v(5, 6));
}

#[test]
fn movers_return_the_object_as_it_now_is() {
    let mut object = GameObject::new();
    let moved = object.move_to(v(2, 3));
    assert_eq!(moved.get_position(), v(2, 3));
    let shifted = object.move_by(v(1, 1));
    assert_eq!(shifted.get_position(), v(3, 4));
    let locked = object.set_static(true);
    assert!(locked.get_static());
    assert_eq!(locked.get_position(), v(3, 4));
}

#[test]
fn a_map_takes_its_glyphs_row_after_row() {
    let map = CharMap::new(2, 3, vec!['a', 'b', 'c', 'd', 'e', 'f']).unwrap();
    assert_eq!(map.rows(), 2);
    assert_eq!(map.columns(), 3);
    assert_eq!(map.get(0, 0), Some('a'));
    assert_eq!(map.get(0, 2), Some('c'));
    assert_eq!(map.get(1, 0), Some('d'));
    assert_eq!(map.get(1, 2), Some('f'));
    assert_eq!(map.get(2, 0), None);
    assert_eq!(map.get(0, 3), None);
    for y in 0..map.rows() {
        assert!(map.get(y, map.columns() - 1).is_some());
        assert!(map.get(y, map.columns()).is_none());
    }
}

#[test]
fn a_map_needs_glyphs_that_fill_it() {
    assert!(CharMap::new(2, 3, vec!['a'; 5]).is_none());
    assert!(CharMap::new(2, 3, vec!['a'; 7]).is_none());
    assert!(CharMap::new(usize::MAX, 2, vec!['a'; 2]).is_none());
    assert!(CharMap::new(0, usize::MAX, Vec::new()).is_none());
    let empty = CharMap::new(0, 5, Vec::new()).unwrap();
    assert_eq!(empty.rows(), 0);
    assert_eq!(empty.columns(), 5);
    assert_eq!(empty.get(0, 0), None);
}

#[test]
fn a_char_object_knows_the_size_of_its_map() {
    let map = map_of(&["abc", "def"]);
    let object = CharObject::new(&map);
    assert_eq!(object.get_width(), 3);
    assert_eq!(object.get_height(), 2);
    assert!(object.get_visible());
    assert!(!object.get_static());
    assert_eq!(object.get_position(), v(0, 0));
}

#[test]
fn a_char_object_moves_like_its_game_object() {
    let map = map_of(&["o"]);
    let mut object = CharObject::new(&map);
    object.move_to(v(2, 3));
    object.move_by(v(1, -1));
    assert_eq!(object.get_position(), v(3, 2));
    assert_eq!(object.get_game_object().get_position(), v(3, 2));
    let locked = object.set_static(true);
    assert!(locked.get_static());
    object.move_by(v(5, 5));
    object.move_to(v(0, 0));
    assert_eq!(object.get_position(), v(3, 2));
    let hidden = object.set_visible(false);
    assert!(!hidden.get_visible());
    assert!(object.get_static());
}

#[test]
fn a_text_object_moves_like_its_game_object() {
    let text = String::from("score");
    let mut object = TextObject::new(&text);
    assert!(object.get_visible());
    assert_eq!(object.get_position(), v(0, 0));
    object.move_to(v(7, 1));
    object.move_by(v(-2, 2));
    assert_eq!(object.get_position(), v(5, 3));
    assert_eq!(object.get_game_object().get_position(), v(5, 3));
    object.set_static(true);
    object.move_by(v(1, 1));
    assert_eq!(object.get_position(), v(5, 3));
    assert!(object.get_static());
    object.set_visible(false);
    assert!(!object.get_visible());
}

#[test]
fn a_window_starts_filled() {
    let window = WindowBuffer::new(4, 2, '.');
    assert_eq!(window.get_width(), 4);
    assert_eq!(window.get_height(), 2);
    assert_eq!(rows_of(&window), ["....", "...."]);
    assert_eq!(window.cell(4, 0), None);
    assert_eq!(window.cell(0, 2), None);
}

#[test]
fn writing_outside_the_window_is_dropped() {
    let mut window = WindowBuffer::new(3, 2, '.');
    window.write_char(0, 0, 'a');
    window.write_char(2, 1, 'b');
    window.write_char(0, -1, 'x');
    window.write_char(-1, 0, 'x');
    window.write_char(0, 2, 'x');
    window.write_char(3, 0, 'x');
    window.set_cell(1, 0, 'c');
    window.set_cell(usize::MAX, 0, 'x');
    assert_eq!(rows_of(&window), ["ac.", "..b"]);
}

#[test]
fn a_string_is_written_one_character_to_a_column() {
    let mut window = WindowBuffer::new(6, 3, '.');
    window.write_str(2, 1, "hey");
    assert_eq!(rows_of(&window), ["......", "..hey.", "......"]);
    window.write_str(4, 0, "long");
    window.write_str(-2, 2, "left");
    window.write_str(0, -1, "above");
    window.write_str(0, 3, "below");
    window.write_str(0, 1, "");
    assert_eq!(rows_of(&window), ["....lo", "..hey.", "ft...."]);
}

#[test]
fn clearing_fills_every_cell() {
    let mut window = WindowBuffer::new(3, 2, '.');
    window.write_str(0, 0, "abc");
    window.clear('#');
    assert_eq!(rows_of(&window), ["###", "###"]);
    window.resize(2, 3, ' ');
    assert_eq!(rows_of(&window), ["  ", "  ", "  "]);
}

#[test]
fn a_border_runs_along_the_rim() {
    let mut window = WindowBuffer::new(5, 4, '.');
    let mut decoration = Decoration::new();
    decoration.left = Some('<');
    decoration.right = Some('>');
    decoration.top = Some('^');
    decoration.bottom = Some('v');
    window.decorate(decoration);
    assert_eq!(rows_of(&window), ["<^^^>", "<...>", "<...>", "<vvv>"]);
    decoration.top_left = Some('1');
    decoration.top_right = Some('2');
    decoration.bottom_left = Some('3');
    decoration.bottom_right = Some('4');
    window.decorate(decoration);
    assert_eq!(rows_of(&window), ["1^^^2", "<...>", "<...>", "3vvv4"]);
}

#[test]
fn a_border_without_characters_draws_nothing() {
    let mut window = WindowBuffer::new(3, 3, '.');
    window.decorate(Decoration::new());
    assert_eq!(rows_of(&window), ["...", "...", "..."]);
    let mut decoration = Decoration::new();
    decoration.top = Some('-');
    decoration.bottom_right = Some('+');
    window.decorate(decoration);
    assert_eq!(rows_of(&window), ["---", "...", "..+"]);
    assert_eq!(decoration.at(3, 3, 1, 0), Some('-'));
    assert_eq!(decoration.at(3, 3, 1, 1), None);
    assert_eq!(decoration.at(3, 3, 2, 2), Some('+'));
}

#[test]
fn offsets_are_indices_or_nothing() {
    assert_eq!(offset(3, 4), Some(7));
    assert_eq!(offset(-3, 4), Some(1));
    assert_eq!(offset(-3, 3), Some(0));
    assert_eq!(offset(-3, 2), None);
    assert_eq!(offset(1, usize::MAX), None);
    assert_eq!(offset(0, usize::MAX), Some(usize::MAX));
    assert_eq!(offset(i32::MIN, 0), None);
    assert_eq!(offset(i32::MIN, 1 << 31), Some(0));
}

#[test]
fn a_char_object_draws_its_map_at_its_position() {
    let map = map_of(&["ab", "cd", "ef"]);
    let mut object = CharObject::new(&map);
    object.move_to(v(1, 1));
    let mut window = WindowBuffer::new(4, 5, '.');
    object.draw(&mut window);
    assert_eq!(rows_of(&window), ["....", ".ab.", ".cd.", ".ef.", "...."]);
}

#[test]
fn a_char_object_is_clipped_at_the_rim() {
    let map = map_of(&["abc", "def", "ghi"]);
    let mut object = CharObject::new(&map);
    let mut window = WindowBuffer::new(4, 3, '.');
    object.move_to(v(-1, -1));
    object.draw(&mut window);
    assert_eq!(rows_of(&window), ["ef..", "hi..", "...."]);
    object.move_to(v(2, 1));
    object.draw(&mut window);
    assert_eq!(rows_of(&window), ["ef..", "hiab", "..de"]);
    object.move_to(v(40, 40));
    object.draw(&mut window);
    object.move_to(v(i32::MIN, i32::MAX));
    object.draw(&mut window);
    assert_eq!(rows_of(&window), ["ef..", "hiab", "..de"]);
}

#[test]
fn a_hidden_object_draws_nothing() {
    let map = map_of(&["ab"]);
    let text = String::from("hi");
    let mut glyphs = CharObject::new(&map);
    let mut line = TextObject::new(&text);
    glyphs.set_visible(false);
    line.set_visible(false);
    let mut window = WindowBuffer::new(3, 1, '.');
    glyphs.draw(&mut window);
    line.draw(&mut window);
    assert_eq!(rows_of(&window), ["..."]);
    glyphs.set_visible(true);
    glyphs.draw(&mut window);
    assert_eq!(rows_of(&window), ["ab."]);
}

#[test]
fn a_text_object_draws_its_text_at_its_position() {
    let text = String::from("h\u{e9}llo");
    let mut object = TextObject::new(&text);
    object.move_to(v(2, 1));
    let mut window = WindowBuffer::new(6, 2, '.');
    object.draw(&mut window);
    assert_eq!(rows_of(&window), ["......", "..h\u{e9}ll"]);
}

#[test]
fn the_later_of_two_objects_is_on_top() {
    let first_map = map_of(&["aaa", "aaa"]);
    let second_map = map_of(&["bb", "bb"]);
    let mut first = CharObject::new(&first_map);
    let mut second = CharObject::new(&second_map);
    first.move_to(v(1, 1));
    second.move_to(v(3, 2));
    let mut scene = Scene::new();
    scene.push(Renderable::Glyphs(first));
    scene.push(Renderable::Glyphs(second));
    assert_eq!(scene.len(), 2);
    let mut app = App::new();
    app.set_size(v(6, 5)).unwrap();
    app.set_background('.');
    scene.render(&mut app);
    assert_eq!(rows_of(app.window()), ["......", ".aaa..", ".aabb.", "...bb.", "......"]);
}

#[test]
fn a_scene_draws_in_its_order() {
    let map = map_of(&["##", "##"]);
    let text = String::from("text");
    let glyphs = CharObject::new(&map);
    let line = TextObject::new(&text);
    let mut over = Scene::new();
    over.push(Renderable::Glyphs(glyphs));
    over.push(Renderable::Text(line));
    let mut under = Scene::new();
    under.push(Renderable::Text(line));
    under.push(Renderable::Glyphs(glyphs));
    let mut app = App::new();
    app.set_size(v(5, 2)).unwrap();
    over.render(&mut app);
    assert_eq!(rows_of(app.window()), ["text ", "##   "]);
    app.clear();
    under.render(&mut app);
    assert_eq!(rows_of(app.window()), ["##xt ", "##   "]);
}

#[test]
fn a_scene_can_be_read_and_changed() {
    let map = map_of(&["o"]);
    let mut ball = CharObject::new(&map);
    let mut scene = Scene::new();
    assert_eq!(scene.len(), 0);
    assert!(scene.get(0).is_none());
    scene.push(Renderable::Glyphs(ball));
    ball.move_to(v(2, 0));
    scene.set(0, Renderable::Glyphs(ball));
    scene.set(1, Renderable::Glyphs(ball));
    assert_eq!(scene.len(), 1);
    match scene.get(0) {
        Some(Renderable::Glyphs(object)) => assert_eq!(object.get_position(), v(2, 0)),
        _ => panic!("the scene lost its object"),
    }
    let mut app = App::new();
    app.set_size(v(3, 1)).unwrap();
    scene.render(&mut app);
    assert_eq!(rows_of(app.window()), ["  o"]);
}

#[test]
fn objects_render_onto_the_window_of_the_runtime() {
    let map = map_of(&["xy"]);
    let text = String::from("hi");
    let mut glyphs = CharObject::new(&map);
    glyphs.move_to(v(1, 1));
    let line = TextObject::new(&text);
    let mut app = App::new();
    app.set_size(v(4, 2)).unwrap();
    glyphs.render(&mut app);
    line.render(&mut app);
    Renderable::Text(line).render(&mut app);
    assert_eq!(rows_of(app.window()), ["hi  ", " xy "]);
    assert_eq!(app.get_width(), 4);
    assert_eq!(app.get_height(), 2);
}

use lunar::types::vector2int::Vector2Int;

fn v(x: i32, y: i32) -> Vector2Int {
    Vector2Int { x, y }
}

#[test]
fn constructors_give_the_named_vectors() {
    assert_eq!(Vector2Int::new(), v(0, 0));
    assert_eq!(Vector2Int::zero(), v(0, 0));
    assert_eq!(Vector2Int::identity(), v(1, 1));
    assert_eq!(Vector2Int::unit_x(), v(1, 0));
    assert_eq!(Vector2Int::unit_y(), v(0, 1));
    assert_eq!(Vector2Int::up(), v(0, 1));
    assert_eq!(Vector2Int::down(), v(0, -1));
    assert_eq!(Vector2Int::left(), v(-1, 0));
    assert_eq!(Vector2Int::right(), v(1, 0));
}

#[test]
fn vectors_add_subtract_and_multiply_by_parts() {
    assert_eq!(v(1, 2) + v(3, -5), v(4, -3));
    assert_eq!(v(1, 2) - v(3, -5), v(-2, 7));
    assert_eq!(v(2, 3) * v(4, -5), v(8, -15));
    assert_eq!(-v(2, -3), v(-2, 3));
}

#[test]
fn vector_division_rounds_towards_zero() {
    assert_eq!(v(-7, 7) / v(2, 2), v(-3, 3));
    assert_eq!(v(-7, 7) / v(-2, -2), v(3, -3));
    assert_eq!(v(-7, 9) / 4, v(-1, 2));
}

#[test]
fn vectors_take_a_number_on_every_part() {
    assert_eq!(v(1, 2) + 10, v(11, 12));
    assert_eq!(v(1, 2) - 10, v(-9, -8));
    assert_eq!(v(1, -2) * 3, v(3, -6));
}

#[test]
fn assigning_operators_change_the_vector_in_place() {
    let mut a = v(6, 8);
    a += v(1, 1);
    assert_eq!(a, v(7, 9));
    a -= v(2, 3);
    assert_eq!(a, v(5, 6));
    a *= v(2, -1);
    assert_eq!(a, v(10, -6));
    a /= v(3, 4);
    assert_eq!(a, v(3, -1));
    a += 5;
    assert_eq!(a, v(8, 4));
    a -= 10;
    assert_eq!(a, v(-2, -6));
}

#[test]
fn dot_multiplies_by_parts_and_adds() {
    let mut a = v(2, 3);
    assert_eq!(a.dot(v(4, -5)), -7);
    assert_eq!(a, v(2, 3));
}

#[test]
fn translate_moves_by_the_delta() {
    let mut a = v(2, 3);
    a.translate(v(-5, 4));
    assert_eq!(a, v(-3, 7));
}

#[test]
fn vectors_reach_the_ends_of_the_range() {
    assert_eq!(v(i32::MAX - 1, i32::MIN + 1) + v(1, -1), v(i32::MAX, i32::MIN));
    let mut a = v(i32::MIN, 0);
    a.translate(v(i32::MAX, 0));
    assert_eq!(a, v(-1, 0));
}

#[test]
fn vectors_are_written_in_brackets() {
    assert_eq!(v(3, -4).to_text(), "(3, -4)");
    assert_eq!(v(0, 10).to_text(), "(0, 10)");
    assert_eq!(v(-105, 9090).to_text(), "(-105, 9090)");
    assert_eq!(v(i32::MIN, i32::MAX).to_text(), "(-2147483648, 2147483647)");
}

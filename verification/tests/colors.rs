use lunar::types::color32::Color32;

fn c(r: u32, g: u32, b: u32, a: u32) -> Color32 {
    Color32 { r, g, b, a }
}

#[test]
fn named_colours_have_their_channels() {
    assert_eq!(Color32::new(), c(0, 0, 0, 255));
    assert_eq!(Color32::red(), c(255, 0, 0, 255));
    assert_eq!(Color32::green(), c(0, 255, 0, 255));
    assert_eq!(Color32::blue(), c(0, 0, 255, 255));
    assert_eq!(Color32::yellow(), c(255, 255, 0, 255));
    assert_eq!(Color32::pink(), c(255, 0, 255, 255));
    assert_eq!(Color32::teal(), c(0, 255, 255, 255));
    assert_eq!(Color32::black(), c(0, 0, 0, 255));
    assert_eq!(Color32::white(), c(255, 255, 255, 255));
    assert_eq!(Color32::transparent(), c(0, 0, 0, 0));
}

#[test]
fn from_hex_reads_three_pairs_of_digits() {
    assert_eq!(Color32::from_hex("ff8000"), c(255, 128, 0, 255));
    assert_eq!(Color32::from_hex("0A1b2C"), c(10, 27, 44, 255));
    assert_eq!(Color32::from_hex("000000"), c(0, 0, 0, 255));
    assert_eq!(Color32::from_hex("FFFFFF"), c(255, 255, 255, 255));
}

#[test]
fn from_hex_reads_a_plus_sign_before_one_digit() {
    assert_eq!(Color32::from_hex("+f+0+9"), c(15, 0, 9, 255));
}

#[test]
fn from_hex_gives_black_for_another_length() {
    assert_eq!(Color32::from_hex(""), c(0, 0, 0, 255));
    assert_eq!(Color32::from_hex("fff"), c(0, 0, 0, 255));
    assert_eq!(Color32::from_hex("#ff8000"), c(0, 0, 0, 255));
    assert_eq!(Color32::from_hex("zz"), c(0, 0, 0, 255));
    assert_eq!(Color32::from_hex("\u{e9}\u{e9}"), c(0, 0, 0, 255));
}

#[test]
fn normalized_caps_each_channel() {
    let mut color = c(300, 255, 256, 0);
    assert_eq!(color.normalized(), c(255, 255, 255, 0));
    assert_eq!(color, c(300, 255, 256, 0));
}

#[test]
fn colours_combine_by_channel() {
    assert_eq!(c(1, 2, 3, 4) + c(10, 20, 30, 40), c(11, 22, 33, 44));
    assert_eq!(c(10, 20, 30, 40) - c(1, 2, 3, 4), c(9, 18, 27, 36));
    assert_eq!(c(1, 2, 3, 4) * c(2, 3, 4, 5), c(2, 6, 12, 20));
    assert_eq!(c(9, 8, 7, 6) / c(2, 2, 2, 2), c(4, 4, 3, 3));
}

#[test]
fn colours_take_a_number_on_every_channel() {
    assert_eq!(c(1, 2, 3, 4) + 5, c(6, 7, 8, 9));
    assert_eq!(c(10, 20, 30, 40) - 10, c(0, 10, 20, 30));
    assert_eq!(c(1, 2, 3, 4) * 3, c(3, 6, 9, 12));
    assert_eq!(c(9, 8, 7, 6) / 3, c(3, 2, 2, 2));
}

#[test]
fn assigning_operators_change_the_colour_in_place() {
    let mut color = c(10, 20, 30, 40);
    color += c(1, 2, 3, 4);
    assert_eq!(color, c(11, 22, 33, 44));
    color -= c(1, 2, 3, 4);
    assert_eq!(color, c(10, 20, 30, 40));
    color *= c(2, 2, 2, 2);
    assert_eq!(color, c(20, 40, 60, 80));
    color /= c(3, 3, 7, 9);
    assert_eq!(color, c(6, 13, 8, 8));
}

#[test]
fn colours_are_written_in_brackets() {
    assert_eq!(c(255, 128, 0, 255).to_text(), "(255, 128, 0, 255)");
    assert_eq!(c(0, 0, 0, 0).to_text(), "(0, 0, 0, 0)");
    assert_eq!(c(u32::MAX, 10, 7, 100).to_text(), "(4294967295, 10, 7, 100)");
}

#[test]
fn spells_hex_tells_what_from_hex_reads() {
    assert!(Color32::spells_hex("ff8000"));
    assert!(Color32::spells_hex("0A1b2C"));
    assert!(Color32::spells_hex("+f+0+9"));
    assert!(!Color32::spells_hex("ff800"));
    assert!(!Color32::spells_hex("ff80000"));
    assert!(!Color32::spells_hex(""));
    assert!(!Color32::spells_hex("gg8000"));
    assert!(!Color32::spells_hex("ff80-1"));
    assert!(!Color32::spells_hex("f+8000"));
    assert!(!Color32::spells_hex("++8000"));
    assert!(!Color32::spells_hex("ff 000"));
    assert!(!Color32::spells_hex("\u{e9}\u{e9}\u{e9}"));
}

#[test]
fn unit_channels_divide_by_the_largest_value() {
    assert_eq!(c(255, 254, 0, 256).unit_channels(), (1, 0, 0, 1));
    assert_eq!(c(510, 509, 1, u32::MAX).unit_channels(), (2, 1, 0, 16843009));
    assert_eq!(Color32::white().unit_channels(), (1, 1, 1, 1));
    assert_eq!(Color32::transparent().unit_channels(), (0, 0, 0, 0));
}

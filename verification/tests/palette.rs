use sierpinski::palette::{color_for, Color};

#[test]
fn every_slot_of_the_palette_has_its_colour() {
    assert_eq!(color_for(0), Color::Red);
    assert_eq!(color_for(1), Color::Green);
    assert_eq!(color_for(2), Color::Yellow);
    assert_eq!(color_for(3), Color::Blue);
    assert_eq!(color_for(4), Color::Magenta);
    assert_eq!(color_for(5), Color::Cyan);
    assert_eq!(color_for(6), Color::White);
}

#[test]
fn a_draw_counts_around_the_palette() {
    assert_eq!(color_for(7), Color::Red);
    assert_eq!(color_for(8), Color::Green);
    assert_eq!(color_for(13), Color::White);
    assert_eq!(color_for(7_000_003), Color::Blue);
}

#[test]
fn the_largest_draw_selects_a_colour() {
    let slot: usize = usize::MAX % 7;
    let expected = [
        Color::Red,
        Color::Green,
        Color::Yellow,
        Color::Blue,
        Color::Magenta,
        Color::Cyan,
        Color::White,
    ][slot];
    assert_eq!(color_for(usize::MAX), expected);
}

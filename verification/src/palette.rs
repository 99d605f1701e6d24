//! The colours that cells are painted with.

use vstd::prelude::*;

verus! {

/// A foreground colour of the terminal.
#[derive(Clone, Copy, Debug, PartialEq, Eq, Structural)]
pub enum Color {
    Red,
    Green,
    Yellow,
    Blue,
    Magenta,
    Cyan,
    White,
}

/// The colours to choose from, in the order in which a draw counts them.
pub open spec fn palette() -> Seq<Color> {
    seq![
        Color::Red,
        Color::Green,
        Color::Yellow,
        Color::Blue,
        Color::Magenta,
        Color::Cyan,
        Color::White,
    ]
}

/// The colour that a draw selects: the draw counts around the palette.
pub open spec fn color_for_spec(draw: usize) -> Color {
    palette()[(draw % 7) as int]
}

pub fn color_for(draw: usize) -> (color: Color)
    ensures
        color == color_for_spec(draw),
{
    let slot: usize = draw % 7;
    if slot == 0 {
        Color::Red
    } else if slot == 1 {
        Color::Green
    } else if slot == 2 {
        Color::Yellow
    } else if slot == 3 {
        Color::Blue
    } else if slot == 4 {
        Color::Magenta
    } else if slot == 5 {
        Color::Cyan
    } else {
        Color::White
    }
}

/// Every draw selects a colour of the palette, and every colour of the
/// palette is selected by some draw.
pub proof fn lemma_palette_covered()
    ensures
        palette().len() == 7,
        forall|draw: usize| palette().contains(#[trigger] color_for_spec(draw)),
        forall|i: int| 0 <= i < 7 ==> #[trigger] palette()[i] == color_for_spec(i as usize),
{
    assert forall|draw: usize| palette().contains(#[trigger] color_for_spec(draw)) by {
        assert(palette()[(draw % 7) as int] == color_for_spec(draw));
    }
}

} // verus!

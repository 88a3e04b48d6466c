use vstd::prelude::*;

use crate::session::Pressed;
use crate::text_generator::push_char;

verus! {

/// What a character's colour means; the palette is up to the display.
#[derive(Debug, Clone, Copy, PartialEq, Eq, Structural)]
pub enum TextColor {
    Correct,
    Untyped,
    Incorrect,
}

/// The colour that shows a status.
pub open spec fn color_of(pressed: Pressed) -> TextColor {
    match pressed {
        Pressed::Pressed => TextColor::Correct,
        Pressed::NotPressed => TextColor::Untyped,
        Pressed::WrongPressed => TextColor::Incorrect,
    }
}

pub fn color_for(pressed: Pressed) -> (r: TextColor)
    ensures
        r == color_of(pressed),
{
    match pressed {
        Pressed::Pressed => TextColor::Correct,
        Pressed::NotPressed => TextColor::Untyped,
        Pressed::WrongPressed => TextColor::Incorrect,
    }
}

/// A character as it is drawn, with its colour.
#[derive(Debug, Clone, Copy, PartialEq, Eq, Structural)]
pub struct AttributedLetter {
    pub character: char,
    pub color: TextColor,
}

impl AttributedLetter {
    pub fn new(character: char, color: TextColor) -> (r: Self)
        ensures
            r == (AttributedLetter { character, color }),
    {
        AttributedLetter { character, color }
    }
}

/// A sequence of coloured characters.
pub struct AttributedText(pub Vec<AttributedLetter>);

impl AttributedText {
    /// The characters without their colours.
    pub fn to_string(&self) -> (r: String)
        ensures
            r@ == self.0@.map_values(|l: AttributedLetter| l.character),
    {
        let mut r = String::new();
        for i in 0..self.0.len()
            invariant
                r@ == self.0@.take(i as int).map_values(|l: AttributedLetter| l.character),
        {
            push_char(&mut r, self.0[i].character);
            assert(self.0@.take(i + 1) =~= self.0@.take(i as int).push(self.0@[i as int]));
            assert(r@ =~= self.0@.take(i + 1).map_values(|l: AttributedLetter| l.character));
        }
        assert(self.0@.take(self.0.len() as int) =~= self.0@);
        r
    }
}

} // verus!

use vstd::prelude::*;
use crate::colour::Colour;
use crate::modifier::{Modifier, modifier_code};

verus! {

/// A styled character cell: the character drawn as the "pixel" plus the
/// modifier (such as a colour) applied to it.
#[derive(Clone, Copy, Debug, PartialEq, Eq, Structural)]
pub struct ColChar {
    /// The character that dictates the appearance of the pixel.
    pub text_char: char,
    /// The modifier applied to the text character.
    pub modifier: Modifier,
}

impl ColChar {
    /// A solid filled character with no modifier.
    pub fn solid() -> (r: Self)
        ensures
            r == (ColChar { text_char: '*', modifier: Modifier::Plain }),
    {
        ColChar { text_char: '*', modifier: Modifier::Plain }
    }

    /// A lighter fill character with no modifier.
    pub fn background() -> (r: Self)
        ensures
            r == (ColChar { text_char: '.', modifier: Modifier::Plain }),
    {
        ColChar { text_char: '.', modifier: Modifier::Plain }
    }

    /// A blank character with no modifier.
    pub fn empty() -> (r: Self)
        ensures
            r == (ColChar { text_char: ' ', modifier: Modifier::Plain }),
    {
        ColChar { text_char: ' ', modifier: Modifier::Plain }
    }

    /// The designated transparent marker, distinct from a blank:
    /// overlay elements use it to signal "no content here".
    pub fn void() -> (r: Self)
        ensures
            r == (ColChar { text_char: '-', modifier: Modifier::Plain }),
    {
        ColChar { text_char: '-', modifier: Modifier::Plain }
    }

    /// Build a cell from a text character and a modifier.
    pub fn new(text_char: char, modifier: Modifier) -> (r: Self)
        ensures
            r == (ColChar { text_char, modifier }),
    {
        ColChar { text_char, modifier }
    }

    /// The same cell with a new text character and the modifier kept.
    pub fn with_char(self, text_char: char) -> (r: Self)
        ensures
            r == (ColChar { text_char, modifier: self.modifier }),
    {
        ColChar { text_char, modifier: self.modifier }
    }

    /// The same cell with the text character kept and a new modifier.
    pub fn with_mod(self, modifier: Modifier) -> (r: Self)
        ensures
            r == (ColChar { text_char: self.text_char, modifier }),
    {
        ColChar { text_char: self.text_char, modifier }
    }

    /// The same cell with a colour modifier built from RGB components.
    pub fn with_rgb(self, r: u8, g: u8, b: u8) -> (c: Self)
        ensures
            c == (ColChar {
                text_char: self.text_char,
                modifier: Modifier::Colour(Colour { r, g, b }),
            }),
    {
        ColChar { text_char: self.text_char, modifier: Modifier::from_rgb(r, g, b) }
    }

    /// The same cell with a colour modifier built from HSV components.
    pub fn with_hsv(self, h: u8, s: u8, v: u8) -> (c: Self)
        ensures
            c == (ColChar {
                text_char: self.text_char,
                modifier: Modifier::Colour(Colour::hsv_spec(h, s, v)),
            }),
    {
        ColChar { text_char: self.text_char, modifier: Modifier::from_hsv(h, s, v) }
    }

    /// The same cell with the given colour as its modifier.
    pub fn with_colour(self, colour: Colour) -> (r: Self)
        ensures
            r == (ColChar { text_char: self.text_char, modifier: Modifier::Colour(colour) }),
    {
        ColChar { text_char: self.text_char, modifier: Modifier::Colour(colour) }
    }

    /// The modifier that opens this cell, given the modifier of the
    /// cell to its left: elided when the left neighbour already
    /// emitted it.
    pub open spec fn start_mod(self, prev_mod: Option<Modifier>) -> Modifier {
        if prev_mod == Some(self.modifier) {
            Modifier::Plain
        } else {
            self.modifier
        }
    }

    /// The modifier that closes this cell, given the modifier of the
    /// cell to its right: elided when the right neighbour carries the
    /// same modifier and will close the run itself.
    pub open spec fn end_mod(self, next_mod: Option<Modifier>) -> Modifier {
        if next_mod == Some(self.modifier) {
            Modifier::Plain
        } else {
            Modifier::End
        }
    }

    /// Everything this cell contributes to the rendered stream:
    /// start code, the character itself, end code.
    pub open spec fn emitted(self, prev_mod: Option<Modifier>, next_mod: Option<Modifier>) -> Seq<
        char,
    > {
        modifier_code(self.start_mod(prev_mod)) + seq![self.text_char] + modifier_code(
            self.end_mod(next_mod),
        )
    }

    /// Append the displayed cell to `out`, omitting the escape codes
    /// already covered by the neighbouring cells' modifiers.
    pub fn write_with_prev_and_next(
        self,
        out: &mut String,
        prev_mod: Option<Modifier>,
        next_mod: Option<Modifier>,
    )
        ensures
            final(out)@ == old(out)@ + self.emitted(prev_mod, next_mod),
    {
        let start = match prev_mod {
            Some(m) => if m == self.modifier {
                Modifier::Plain
            } else {
                self.modifier
            },
            None => self.modifier,
        };
        let end = match next_mod {
            Some(m) => if m == self.modifier {
                Modifier::Plain
            } else {
                Modifier::End
            },
            None => Modifier::End,
        };
        start.push_code(out);
        out.push(self.text_char);
        end.push_code(out);
        assert(out@ =~= old(out)@ + self.emitted(prev_mod, next_mod));
    }

    /// What the cell looks like rendered on its own: the bare character
    /// when it carries no modifier, otherwise the colour code, the
    /// character, and the reset code.
    pub open spec fn rendered(self) -> Seq<char> {
        match self.modifier {
            Modifier::Plain => seq![self.text_char],
            _ => modifier_code(self.modifier) + seq![self.text_char] + modifier_code(
                Modifier::End,
            ),
        }
    }

    /// The cell rendered on its own.
    pub fn render(&self) -> (r: String)
        ensures
            r@ == self.rendered(),
    {
        let mut out = String::new();
        match self.modifier {
            Modifier::Plain => {
                out.push(self.text_char);
            },
            _ => {
                self.modifier.push_code(&mut out);
                out.push(self.text_char);
                Modifier::End.push_code(&mut out);
            },
        }
        assert(out@ =~= self.rendered());
        out
    }
}

impl Default for ColChar {
    /// The default cell is the solid preset.
    fn default() -> (r: Self)
        ensures
            r == (ColChar { text_char: '*', modifier: Modifier::Plain }),
    {
        ColChar::solid()
    }
}

/// Run elision: three consecutive cells sharing one modifier emit
/// exactly one leading start code and one trailing reset for the whole
/// run, while each cell's own character still appears exactly once, in
/// order.
pub proof fn lemma_run_elision(a: ColChar, b: ColChar, c: ColChar, m: Modifier)
    requires
        a.modifier == m,
        b.modifier == m,
        c.modifier == m,
    ensures
        a.emitted(None, Some(m)) + b.emitted(Some(m), Some(m)) + c.emitted(Some(m), None)
            == modifier_code(m) + seq![a.text_char, b.text_char, c.text_char] + modifier_code(
            Modifier::End,
        ),
{
    assert(a.emitted(None, Some(m)) + b.emitted(Some(m), Some(m)) + c.emitted(Some(m), None)
        =~= modifier_code(m) + seq![a.text_char, b.text_char, c.text_char] + modifier_code(
        Modifier::End,
    ));
}

} // verus!

use vstd::prelude::*;
use vstd::arithmetic::div_mod::lemma_div_denominator;
use crate::colour::Colour;

verus! {

/// A style annotation on a character cell: no annotation (`Plain`), a
/// colour, or the reset code that closes a styled run (`End`).
#[derive(Clone, Copy, Debug, PartialEq, Eq, Structural)]
pub enum Modifier {
    Plain,
    Colour(Colour),
    End,
}

/// The character standing for a single decimal digit.
pub open spec fn digit_char(d: int) -> char {
    if d == 0 {
        '0'
    } else if d == 1 {
        '1'
    } else if d == 2 {
        '2'
    } else if d == 3 {
        '3'
    } else if d == 4 {
        '4'
    } else if d == 5 {
        '5'
    } else if d == 6 {
        '6'
    } else if d == 7 {
        '7'
    } else if d == 8 {
        '8'
    } else {
        '9'
    }
}

/// The decimal digits of `n`, most significant first, without leading
/// zeros.
pub open spec fn dec_digits(n: int) -> Seq<char>
    decreases n,
{
    if n < 10 {
        seq![digit_char(n)]
    } else {
        dec_digits(n / 10).push(digit_char(n % 10))
    }
}

/// The escape sequence that turns a colour on: `ESC [ 3 8 ; 2 ;` then
/// the three decimal channel values separated by `;`, closed by `m`.
pub open spec fn colour_code(c: Colour) -> Seq<char> {
    seq!['\u{1b}', '[', '3', '8', ';', '2', ';'] + dec_digits(c.r as int) + seq![';']
        + dec_digits(c.g as int) + seq![';'] + dec_digits(c.b as int) + seq!['m']
}

/// The bytes a modifier contributes to the rendered stream: nothing for
/// `Plain`, the colour escape for `Colour`, the reset escape for `End`.
pub open spec fn modifier_code(m: Modifier) -> Seq<char> {
    match m {
        Modifier::Plain => Seq::empty(),
        Modifier::Colour(c) => colour_code(c),
        Modifier::End => seq!['\u{1b}', '[', '0', 'm'],
    }
}

/// Relies on `String::push`, which appends the given character to the
/// end of the string.
pub assume_specification[ String::push ](s: &mut String, ch: char)
    ensures
        final(s)@ == old(s)@.push(ch),
;

/// The character for one decimal digit.
fn digit(d: u8) -> (c: char)
    requires
        d < 10,
    ensures
        c == digit_char(d as int),
{
    match d {
        0 => '0',
        1 => '1',
        2 => '2',
        3 => '3',
        4 => '4',
        5 => '5',
        6 => '6',
        7 => '7',
        8 => '8',
        _ => '9',
    }
}

/// Append the decimal digits of `n` to `out`.
fn push_decimal(out: &mut String, n: u8)
    ensures
        final(out)@ == old(out)@ + dec_digits(n as int),
{
    proof {
        reveal_with_fuel(dec_digits, 4);
    }
    if n >= 100 {
        proof {
            lemma_div_denominator(n as int, 10, 10);
        }
        out.push(digit(n / 100));
        out.push(digit((n / 10) % 10));
        out.push(digit(n % 10));
    } else if n >= 10 {
        out.push(digit(n / 10));
        out.push(digit(n % 10));
    } else {
        out.push(digit(n));
    }
    assert(out@ =~= old(out)@ + dec_digits(n as int));
}

impl Modifier {
    /// A colour annotation built from red, green and blue components.
    pub fn from_rgb(r: u8, g: u8, b: u8) -> (m: Self)
        ensures
            m == Modifier::Colour(Colour { r, g, b }),
    {
        Modifier::Colour(Colour::rgb(r, g, b))
    }

    /// A colour annotation built from hue, saturation and value
    /// components.
    pub fn from_hsv(h: u8, s: u8, v: u8) -> (m: Self)
        ensures
            m == Modifier::Colour(Colour::hsv_spec(h, s, v)),
    {
        Modifier::Colour(Colour::hsv(h, s, v))
    }

    /// Append this modifier's escape code to `out`.
    pub fn push_code(self, out: &mut String)
        ensures
            final(out)@ == old(out)@ + modifier_code(self),
    {
        match self {
            Modifier::Plain => {
                assert(out@ =~= old(out)@ + modifier_code(self));
            },
            Modifier::Colour(c) => {
                out.push('\u{1b}');
                out.push('[');
                out.push('3');
                out.push('8');
                out.push(';');
                out.push('2');
                out.push(';');
                push_decimal(out, c.r);
                out.push(';');
                push_decimal(out, c.g);
                out.push(';');
                push_decimal(out, c.b);
                out.push('m');
                assert(out@ =~= old(out)@ + modifier_code(self));
            },
            Modifier::End => {
                out.push('\u{1b}');
                out.push('[');
                out.push('0');
                out.push('m');
                assert(out@ =~= old(out)@ + modifier_code(self));
            },
        }
    }

    /// This modifier's escape code on its own.
    pub fn code(self) -> (r: String)
        ensures
            r@ == modifier_code(self),
    {
        let mut out = String::new();
        self.push_code(&mut out);
        assert(out@ =~= modifier_code(self));
        out
    }
}

} // verus!

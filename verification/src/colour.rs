use vstd::prelude::*;
use vstd::arithmetic::div_mod::lemma_div_is_ordered;

verus! {

/// A 24-bit RGB colour used to tint a rendered character.
#[derive(Clone, Copy, Debug, PartialEq, Eq, Structural)]
pub struct Colour {
    pub r: u8,
    pub g: u8,
    pub b: u8,
}

impl Colour {
    /// Build a colour directly from its red, green and blue components.
    pub fn rgb(r: u8, g: u8, b: u8) -> (c: Self)
        ensures
            c == (Colour { r, g, b }),
    {
        Colour { r, g, b }
    }

    /// The integer hue/saturation/value conversion: the hue circle is
    /// cut into six regions of 43 hue steps each, and the three
    /// channels are filled from the value scaled by the saturation.
    pub open spec fn hsv_spec(h: u8, s: u8, v: u8) -> Colour {
        if s == 0 {
            Colour { r: v, g: v, b: v }
        } else {
            let region = h as int / 43;
            let rem = (h as int % 43) * 6;
            let p = (v as int * (255 - s as int) / 255) as u8;
            let q = (v as int * (255 - (s as int * rem) / 255) / 255) as u8;
            let t = (v as int * (255 - (s as int * (255 - rem)) / 255) / 255) as u8;
            if region == 0 {
                Colour { r: v, g: t, b: p }
            } else if region == 1 {
                Colour { r: q, g: v, b: p }
            } else if region == 2 {
                Colour { r: p, g: v, b: t }
            } else if region == 3 {
                Colour { r: p, g: q, b: v }
            } else if region == 4 {
                Colour { r: t, g: p, b: v }
            } else {
                Colour { r: v, g: p, b: q }
            }
        }
    }

    /// Build a colour from hue, saturation and value components.
    pub fn hsv(h: u8, s: u8, v: u8) -> (c: Self)
        ensures
            c == Self::hsv_spec(h, s, v),
    {
        if s == 0 {
            return Colour { r: v, g: v, b: v };
        }
        let h32: u32 = h as u32;
        let s32: u32 = s as u32;
        let v32: u32 = v as u32;
        let region: u32 = h32 / 43;
        let rem: u32 = (h32 % 43) * 6;
        assert(rem <= 252);
        assert(v32 * (255 - s32) <= 255 * 255) by (nonlinear_arith)
            requires
                v32 <= 255,
                s32 <= 255,
        ;
        let p: u32 = v32 * (255 - s32) / 255;
        assert(s32 * rem <= 255 * 252) by (nonlinear_arith)
            requires
                s32 <= 255,
                rem <= 252,
        ;
        proof {
            lemma_div_is_ordered((s32 * rem) as int, (255 * 252) as int, 255);
        }
        let q_inner: u32 = 255 - (s32 * rem) / 255;
        assert(v32 * q_inner <= 255 * 255) by (nonlinear_arith)
            requires
                v32 <= 255,
                q_inner <= 255,
        ;
        let q: u32 = v32 * q_inner / 255;
        assert(s32 * (255 - rem) <= 255 * 255) by (nonlinear_arith)
            requires
                s32 <= 255,
                rem <= 252,
        ;
        proof {
            lemma_div_is_ordered((s32 * (255 - rem)) as int, (255 * 255) as int, 255);
        }
        let t_inner: u32 = 255 - (s32 * (255 - rem)) / 255;
        assert(v32 * t_inner <= 255 * 255) by (nonlinear_arith)
            requires
                v32 <= 255,
                t_inner <= 255,
        ;
        let t: u32 = v32 * t_inner / 255;
        match region {
            0 => Colour { r: v, g: t as u8, b: p as u8 },
            1 => Colour { r: q as u8, g: v, b: p as u8 },
            2 => Colour { r: p as u8, g: v, b: t as u8 },
            3 => Colour { r: p as u8, g: q as u8, b: v },
            4 => Colour { r: t as u8, g: p as u8, b: v },
            _ => Colour { r: v, g: p as u8, b: q as u8 },
        }
    }
}

} // verus!

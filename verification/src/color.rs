//! A display-ready color: three 8-bit channels, already gamma-corrected
//! and quantized. The floating-point linear-to-display mapping happens
//! outside the library; here a pixel is plain bytes, and its text form
//! in the stream is stated exactly.

use vstd::prelude::*;

use crate::decimal::decimal_string;
use crate::decimal::spec_decimal;

verus! {

/// One output pixel: red, green and blue channel bytes.
#[derive(Clone, Copy, Debug, PartialEq, Eq, Structural)]
pub struct Rgb {
    pub r: u8,
    pub g: u8,
    pub b: u8,
}

/// The text of one pixel: the three channel values in decimal,
/// space-separated, no trailing separator.
pub open spec fn spec_rgb_text(c: Rgb) -> Seq<char> {
    spec_decimal(c.r as nat) + seq![' '] + spec_decimal(c.g as nat) + seq![' '] + spec_decimal(
        c.b as nat,
    )
}

impl Rgb {
    pub fn new(r: u8, g: u8, b: u8) -> (c: Rgb)
        ensures
            c == (Rgb { r, g, b }),
    {
        Rgb { r, g, b }
    }

    /// The pixel as it stands in the stream: `"<r> <g> <b>"`.
    pub fn to_text(&self) -> (s: String)
        ensures
            s@ == spec_rgb_text(*self),
    {
        let mut s = decimal_string(self.r as u32);
        s.append(" ");
        let g = decimal_string(self.g as u32);
        s.append(g.as_str());
        s.append(" ");
        let b = decimal_string(self.b as u32);
        s.append(b.as_str());
        proof {
            reveal_strlit(" ");
            assert(" "@ =~= seq![' ']);
        }
        s
    }
}

} // verus!

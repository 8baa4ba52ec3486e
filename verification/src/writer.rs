//! The PPM pixel stream. A `Writer` takes the image dimensions at
//! construction and one finished pixel at a time, in row-major order,
//! top to bottom and left to right; `contents` is the whole plain-text
//! bitmap: a three-line header (format tag, `"<width> <height>"`, the
//! maximum channel value `255`), then one line per pixel. Writing the
//! text to a file stays outside the library.

use vstd::prelude::*;

use crate::color::Rgb;
use crate::color::spec_rgb_text;
use crate::decimal::decimal_string;
use crate::decimal::digit_char;
use crate::decimal::spec_decimal;

verus! {

/// Accumulates the pixels of one image between construction and output.
pub struct Writer {
    pub width: u32,
    pub height: u32,
    pub pixels: Vec<Rgb>,
}

/// The three header lines: `"P3"`, the dimensions, and the maximum
/// channel value.
pub open spec fn spec_metadata(width: u32, height: u32) -> Seq<char> {
    seq!['P', '3', '\n'] + spec_decimal(width as nat) + seq![' '] + spec_decimal(height as nat)
        + seq!['\n'] + seq!['2', '5', '5', '\n']
}

/// The text of one pixel row of the stream: the pixel's channels and a
/// terminating newline.
pub open spec fn spec_pixel_line(c: Rgb) -> Seq<char> {
    spec_rgb_text(c) + seq!['\n']
}

/// The pixel rows of the stream, in the order the pixels were added.
pub open spec fn spec_pixel_lines(pixels: Seq<Rgb>) -> Seq<char>
    decreases pixels.len(),
{
    if pixels.len() == 0 {
        Seq::empty()
    } else {
        spec_pixel_lines(pixels.drop_last()) + spec_pixel_line(pixels.last())
    }
}

/// The whole stream: header first, then every pixel row.
pub open spec fn spec_contents(width: u32, height: u32, pixels: Seq<Rgb>) -> Seq<char> {
    spec_metadata(width, height) + spec_pixel_lines(pixels)
}

impl Writer {
    /// A stream for an image of the given dimensions, with no pixels yet.
    pub fn new(width: u32, height: u32) -> (w: Writer)
        ensures
            w.width == width,
            w.height == height,
            w.pixels@ == Seq::<Rgb>::empty(),
    {
        Writer { width, height, pixels: Vec::new() }
    }

    /// The header that precedes the pixel rows.
    pub fn metadata(width: u32, height: u32) -> (s: String)
        ensures
            s@ == spec_metadata(width, height),
    {
        let mut s = String::from_str("P3\n");
        let w = decimal_string(width);
        s.append(w.as_str());
        s.append(" ");
        let h = decimal_string(height);
        s.append(h.as_str());
        s.append("\n255\n");
        proof {
            reveal_strlit("P3\n");
            reveal_strlit(" ");
            reveal_strlit("\n255\n");
            assert("P3\n"@ =~= seq!['P', '3', '\n']);
            assert(" "@ =~= seq![' ']);
            assert("\n255\n"@ =~= seq!['\n', '2', '5', '5', '\n']);
            assert(s@ =~= spec_metadata(width, height));
        }
        s
    }

    /// Appends the next pixel, in row-major order.
    pub fn add(&mut self, color: Rgb)
        ensures
            final(self).width == old(self).width,
            final(self).height == old(self).height,
            final(self).pixels@ == old(self).pixels@.push(color),
    {
        self.pixels.push(color);
    }

    /// The finished stream text: header, then one line per added pixel.
    pub fn contents(&self) -> (s: String)
        ensures
            s@ == spec_contents(self.width, self.height, self.pixels@),
    {
        let mut s = Self::metadata(self.width, self.height);
        proof {
            assert(self.pixels@.take(0) =~= Seq::<Rgb>::empty());
            assert(s@ =~= spec_contents(self.width, self.height, self.pixels@.take(0)));
        }
        let mut i: usize = 0;
        while i < self.pixels.len()
            invariant
                i <= self.pixels.len(),
                s@ == spec_contents(self.width, self.height, self.pixels@.take(i as int)),
            decreases self.pixels.len() - i,
        {
            let line = self.pixels[i].to_text();
            s.append(line.as_str());
            s.append("\n");
            proof {
                reveal_strlit("\n");
                assert("\n"@ =~= seq!['\n']);
                let taken = self.pixels@.take(i + 1);
                assert(taken.drop_last() =~= self.pixels@.take(i as int));
                assert(taken.last() == self.pixels@[i as int]);
                assert(s@ =~= spec_contents(self.width, self.height, taken));
            }
            i = i + 1;
        }
        proof {
            assert(self.pixels@.take(self.pixels@.len() as int) =~= self.pixels@);
        }
        s
    }
}

/// How many rows a text holds: the number of newline characters in it.
pub open spec fn newline_count(s: Seq<char>) -> nat
    decreases s.len(),
{
    if s.len() == 0 {
        0
    } else {
        newline_count(s.drop_last()) + if s.last() == '\n' {
            1nat
        } else {
            0nat
        }
    }
}

proof fn lemma_newline_count_concat(a: Seq<char>, b: Seq<char>)
    ensures
        newline_count(a + b) == newline_count(a) + newline_count(b),
    decreases b.len(),
{
    if b.len() == 0 {
        assert(a + b =~= a);
    } else {
        lemma_newline_count_concat(a, b.drop_last());
        assert((a + b).drop_last() =~= a + b.drop_last());
        assert((a + b).last() == b.last());
    }
}

proof fn lemma_decimal_no_newline(n: nat)
    ensures
        newline_count(spec_decimal(n)) == 0,
    decreases n,
{
    assert(newline_count(Seq::<char>::empty()) == 0);
    if n < 10 {
        assert(seq![digit_char(n)].drop_last() =~= Seq::<char>::empty());
        assert(newline_count(seq![digit_char(n)]) == 0);
    } else {
        lemma_decimal_no_newline(n / 10);
        assert(spec_decimal(n).drop_last() =~= spec_decimal(n / 10));
        assert(newline_count(spec_decimal(n)) == 0);
    }
}

proof fn lemma_newline_count_single(c: char)
    ensures
        newline_count(seq![c]) == if c == '\n' {
            1nat
        } else {
            0nat
        },
{
    assert(newline_count(Seq::<char>::empty()) == 0);
    assert(seq![c].drop_last() =~= Seq::<char>::empty());
}

proof fn lemma_pixel_line_count(c: Rgb)
    ensures
        newline_count(spec_pixel_line(c)) == 1,
{
    lemma_decimal_no_newline(c.r as nat);
    lemma_decimal_no_newline(c.g as nat);
    lemma_decimal_no_newline(c.b as nat);
    lemma_newline_count_concat(spec_decimal(c.r as nat), seq![' ']);
    lemma_newline_count_concat(
        spec_decimal(c.r as nat) + seq![' '],
        spec_decimal(c.g as nat),
    );
    lemma_newline_count_concat(
        spec_decimal(c.r as nat) + seq![' '] + spec_decimal(c.g as nat),
        seq![' '],
    );
    lemma_newline_count_concat(
        spec_decimal(c.r as nat) + seq![' '] + spec_decimal(c.g as nat) + seq![' '],
        spec_decimal(c.b as nat),
    );
    lemma_newline_count_concat(spec_rgb_text(c), seq!['\n']);
    lemma_newline_count_single(' ');
    lemma_newline_count_single('\n');
}

proof fn lemma_pixel_lines_count(pixels: Seq<Rgb>)
    ensures
        newline_count(spec_pixel_lines(pixels)) == pixels.len(),
    decreases pixels.len(),
{
    if pixels.len() > 0 {
        lemma_pixel_lines_count(pixels.drop_last());
        lemma_pixel_line_count(pixels.last());
        lemma_newline_count_concat(
            spec_pixel_lines(pixels.drop_last()),
            spec_pixel_line(pixels.last()),
        );
    }
}

proof fn lemma_metadata_line_count(width: u32, height: u32)
    ensures
        newline_count(spec_metadata(width, height)) == 3,
{
    lemma_decimal_no_newline(width as nat);
    lemma_decimal_no_newline(height as nat);
    lemma_newline_count_concat(seq!['P', '3', '\n'], spec_decimal(width as nat));
    lemma_newline_count_concat(
        seq!['P', '3', '\n'] + spec_decimal(width as nat),
        seq![' '],
    );
    lemma_newline_count_concat(
        seq!['P', '3', '\n'] + spec_decimal(width as nat) + seq![' '],
        spec_decimal(height as nat),
    );
    lemma_newline_count_concat(
        seq!['P', '3', '\n'] + spec_decimal(width as nat) + seq![' '] + spec_decimal(
            height as nat,
        ),
        seq!['\n'],
    );
    lemma_newline_count_concat(
        seq!['P', '3', '\n'] + spec_decimal(width as nat) + seq![' '] + spec_decimal(
            height as nat,
        ) + seq!['\n'],
        seq!['2', '5', '5', '\n'],
    );
    lemma_newline_count_single(' ');
    lemma_newline_count_single('\n');
    assert(newline_count(Seq::<char>::empty()) == 0);
    assert(seq!['P', '3', '\n'].drop_last() =~= seq!['P', '3']);
    assert(seq!['P', '3'].drop_last() =~= seq!['P']);
    assert(seq!['P'].drop_last() =~= Seq::<char>::empty());
    assert(newline_count(seq!['P']) == 0);
    assert(newline_count(seq!['P', '3']) == 0);
    assert(newline_count(seq!['P', '3', '\n']) == 1);
    assert(seq!['2', '5', '5', '\n'].drop_last() =~= seq!['2', '5', '5']);
    assert(seq!['2', '5', '5'].drop_last() =~= seq!['2', '5']);
    assert(seq!['2', '5'].drop_last() =~= seq!['2']);
    assert(seq!['2'].drop_last() =~= Seq::<char>::empty());
    assert(newline_count(seq!['2']) == 0);
    assert(newline_count(seq!['2', '5']) == 0);
    assert(newline_count(seq!['2', '5', '5']) == 0);
    assert(newline_count(seq!['2', '5', '5', '\n']) == 1);
}

/// The stream is exactly three header lines followed by one line per
/// pixel: its newline count is three more than the number of pixels
/// added, whatever the dimensions and whatever the pixels hold.
pub proof fn lemma_contents_line_count(width: u32, height: u32, pixels: Seq<Rgb>)
    ensures
        newline_count(spec_contents(width, height, pixels)) == 3 + pixels.len(),
{
    lemma_metadata_line_count(width, height);
    lemma_pixel_lines_count(pixels);
    lemma_newline_count_concat(spec_metadata(width, height), spec_pixel_lines(pixels));
}

} // verus!

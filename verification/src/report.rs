//! The lines the tool prints.
//!
//! Standard output is part of the tool's contract: `resize` reports the new
//! size in one fixed form, `info` reports dimensions and color layout in two.
//! Each line is specified character for character.

use vstd::prelude::*;
use vstd::string::StringExecFns;

use crate::numerals::dec_rep;
use crate::numerals::u32_string;
use crate::picture::ColorKind;
use crate::picture::Image;

verus! {

/// The dimensions line of `info`: `Image dimensions: {width}x{height}`.
pub open spec fn dimensions_line(w: u32, h: u32) -> Seq<char> {
    "Image dimensions: "@ + dec_rep(w as nat) + "x"@ + dec_rep(h as nat)
}

/// The color line of `info`: `Image color type: {color tag}`.
pub open spec fn color_line(c: ColorKind) -> Seq<char> {
    "Image color type: "@ + c.spec_label()
}

/// The success line of `resize`: `Resized image size: {width}x{height}`.
pub open spec fn resized_line(w: u32, h: u32) -> Seq<char> {
    "Resized image size: "@ + dec_rep(w as nat) + "x"@ + dec_rep(h as nat)
}

/// The two lines `info` prints for an image: its dimensions and its color
/// layout, read off the reported metadata with no transformation.
pub fn info_lines(img: &Image) -> (r: (String, String))
    ensures
        r.0@ == dimensions_line(img.spec_width(), img.spec_height()),
        r.1@ == color_line(img.spec_color()),
{
    let mut dims: String = String::from_str("Image dimensions: ");
    dims.append(u32_string(img.width()).as_str());
    dims.append("x");
    dims.append(u32_string(img.height()).as_str());
    let mut color: String = String::from_str("Image color type: ");
    color.append(img.color().label().as_str());
    proof {
        assert(dims@ =~= dimensions_line(img.spec_width(), img.spec_height()));
        assert(color@ =~= color_line(img.spec_color()));
    }
    (dims, color)
}

/// The line `resize` prints on success, reporting the resized image's size.
pub fn resized_message(img: &Image) -> (s: String)
    ensures
        s@ == resized_line(img.spec_width(), img.spec_height()),
{
    let mut line: String = String::from_str("Resized image size: ");
    line.append(u32_string(img.width()).as_str());
    line.append("x");
    line.append(u32_string(img.height()).as_str());
    proof {
        assert(line@ =~= resized_line(img.spec_width(), img.spec_height()));
    }
    line
}

} // verus!

//! Decoded images and the resample step.
//!
//! A decoded bitmap is opaque pixel data owned by the imaging library; what
//! this crate reasons about is the metadata reported beside it: width, height
//! and the color layout.  An [`Image`] carries both, and [`resize`] is the one
//! operation of the tool, specified by what it does to that metadata.

use vstd::prelude::*;
use vstd::string::StringExecFns;

verus! {

/// `image::DynamicImage` carried through as an opaque value.
#[verifier::external_type_specification]
#[verifier::external_body]
pub struct ExDynamicImage(image::DynamicImage);

/// The color layout of a pixel, mirroring the layouts the imaging library
/// decodes to: luminance, luminance-alpha, RGB and RGBA at 8 or 16 bits per
/// channel, and RGB and RGBA at 32-bit float per channel.
#[derive(Clone, Copy, Debug, PartialEq, Eq, Structural)]
pub enum ColorKind {
    L8,
    La8,
    Rgb8,
    Rgba8,
    L16,
    La16,
    Rgb16,
    Rgba16,
    Rgb32F,
    Rgba32F,
}

/// How many bytes one pixel of a layout occupies.
pub open spec fn pixel_bytes(c: ColorKind) -> int {
    match c {
        ColorKind::L8 => 1,
        ColorKind::La8 => 2,
        ColorKind::Rgb8 => 3,
        ColorKind::Rgba8 => 4,
        ColorKind::L16 => 2,
        ColorKind::La16 => 4,
        ColorKind::Rgb16 => 6,
        ColorKind::Rgba16 => 8,
        ColorKind::Rgb32F => 12,
        ColorKind::Rgba32F => 16,
    }
}

impl ColorKind {
    /// The tag under which this layout is reported, character for character
    /// the name the imaging library prints for it.
    pub open spec fn spec_label(&self) -> Seq<char> {
        match *self {
            ColorKind::L8 => "L8"@,
            ColorKind::La8 => "La8"@,
            ColorKind::Rgb8 => "Rgb8"@,
            ColorKind::Rgba8 => "Rgba8"@,
            ColorKind::L16 => "L16"@,
            ColorKind::La16 => "La16"@,
            ColorKind::Rgb16 => "Rgb16"@,
            ColorKind::Rgba16 => "Rgba16"@,
            ColorKind::Rgb32F => "Rgb32F"@,
            ColorKind::Rgba32F => "Rgba32F"@,
        }
    }

    /// The printable tag of this layout.
    pub fn label(&self) -> (s: String)
        ensures
            s@ == self.spec_label(),
    {
        match *self {
            ColorKind::L8 => String::from_str("L8"),
            ColorKind::La8 => String::from_str("La8"),
            ColorKind::Rgb8 => String::from_str("Rgb8"),
            ColorKind::Rgba8 => String::from_str("Rgba8"),
            ColorKind::L16 => String::from_str("L16"),
            ColorKind::La16 => String::from_str("La16"),
            ColorKind::Rgb16 => String::from_str("Rgb16"),
            ColorKind::Rgba16 => String::from_str("Rgba16"),
            ColorKind::Rgb32F => String::from_str("Rgb32F"),
            ColorKind::Rgba32F => String::from_str("Rgba32F"),
        }
    }

    /// How many bytes one pixel of this layout occupies.
    pub fn bytes_per_pixel(&self) -> (b: u8)
        ensures
            b as int == pixel_bytes(*self),
    {
        match *self {
            ColorKind::L8 => 1,
            ColorKind::La8 => 2,
            ColorKind::Rgb8 => 3,
            ColorKind::Rgba8 => 4,
            ColorKind::L16 => 2,
            ColorKind::La16 => 4,
            ColorKind::Rgb16 => 6,
            ColorKind::Rgba16 => 8,
            ColorKind::Rgb32F => 12,
            ColorKind::Rgba32F => 16,
        }
    }
}

/// A decoded image: the pixel data together with the width, height and color
/// layout it reports.  Every `Image` is built by reading the metadata off the
/// pixel data itself, so the recorded fields always agree with the data —
/// which is what lets [`resample_fits`] bound the resampler's allocations.
/// Resizing produces a new value; nothing mutates one in place.
pub struct Image {
    width: u32,
    height: u32,
    color: ColorKind,
    data: image::DynamicImage,
}

impl Image {
    /// The width this image reports, in pixels.
    pub closed spec fn spec_width(&self) -> u32 {
        self.width
    }

    /// The height this image reports, in pixels.
    pub closed spec fn spec_height(&self) -> u32 {
        self.height
    }

    /// The color layout this image reports.
    pub closed spec fn spec_color(&self) -> ColorKind {
        self.color
    }

    /// Wrap a decoded bitmap beside the metadata it reports.  Relies on
    /// `image::DynamicImage::width`, `height` and `color` to read that
    /// metadata off the pixel data itself, so that the recorded fields can
    /// never disagree with it; the listed arms cover every variant `color`
    /// returns, and the final arm is unreachable.
    #[verifier::external_body]
    pub fn from_data(data: image::DynamicImage) -> (img: Image) {
        let color = match data.color() {
            image::ColorType::L8 => ColorKind::L8,
            image::ColorType::La8 => ColorKind::La8,
            image::ColorType::Rgb8 => ColorKind::Rgb8,
            image::ColorType::Rgba8 => ColorKind::Rgba8,
            image::ColorType::L16 => ColorKind::L16,
            image::ColorType::La16 => ColorKind::La16,
            image::ColorType::Rgb16 => ColorKind::Rgb16,
            image::ColorType::Rgba16 => ColorKind::Rgba16,
            image::ColorType::Rgb32F => ColorKind::Rgb32F,
            _ => ColorKind::Rgba32F,
        };
        Image { width: data.width(), height: data.height(), color, data }
    }

    pub fn width(&self) -> (w: u32)
        ensures
            w == self.spec_width(),
    {
        self.width
    }

    pub fn height(&self) -> (h: u32)
        ensures
            h == self.spec_height(),
    {
        self.height
    }

    pub fn color(&self) -> (c: ColorKind)
        ensures
            c == self.spec_color(),
    {
        self.color
    }

    /// Give the pixel data back, for encoding.
    pub fn into_data(self) -> image::DynamicImage {
        self.data
    }
}

/// Whether resampling stays within addressable pixel buffers: the output
/// buffer must fit, and — except when the source is empty or the target is the
/// source's own size, where no resampling pass runs — so must the
/// intermediate float buffer of source width by target height that the pass
/// allocates at sixteen bytes per pixel.
pub open spec fn resample_fits(
    src_w: u32,
    src_h: u32,
    color: ColorKind,
    w: u32,
    h: u32,
) -> bool {
    pixel_bytes(color) * (w as int) * (h as int) <= isize::MAX as int && ((src_w > 0 && src_h > 0
        && (w != src_w || h != src_h)) ==> 16 * (src_w as int) * (h as int) <= isize::MAX as int)
}

/// Relies on `image::DynamicImage::resize_exact`: it returns a new image of
/// exactly the requested dimensions, keeping the receiver's pixel layout, and
/// panics only when a pixel buffer's length overflows — ruled out by the
/// precondition.  The recorded metadata is read back off the result.
#[verifier::external_body]
fn resample_exact_gaussian(src: &Image, width: u32, height: u32) -> (r: Image)
    requires
        resample_fits(src.spec_width(), src.spec_height(), src.spec_color(), width, height),
    ensures
        r.spec_width() == width,
        r.spec_height() == height,
        r.spec_color() == src.spec_color(),
{
    let data = src.data.resize_exact(width, height, image::imageops::FilterType::Gaussian);
    Image { width: data.width(), height: data.height(), color: src.color, data }
}

impl Image {
    /// Whether [`resize`] may be asked for this target; decides
    /// [`resample_fits`] for this image.
    pub fn can_resample(&self, width: u32, height: u32) -> (b: bool)
        ensures
            b == resample_fits(
                self.spec_width(),
                self.spec_height(),
                self.spec_color(),
                width,
                height,
            ),
    {
        let bpp: u8 = self.color.bytes_per_pixel();
        let b128: u128 = bpp as u128;
        let w128: u128 = width as u128;
        let h128: u128 = height as u128;
        let s128: u128 = self.width as u128;
        proof {
            assert(b128 * w128 <= 0xff * 0xffffffff) by (nonlinear_arith)
                requires
                    b128 <= 0xff,
                    w128 <= 0xffffffff,
            ;
        }
        let t1: u128 = b128 * w128;
        proof {
            assert(t1 * h128 <= 0xff * 0xffffffff * 0xffffffff) by (nonlinear_arith)
                requires
                    t1 <= 0xff * 0xffffffff,
                    h128 <= 0xffffffff,
            ;
        }
        let out_bytes: u128 = t1 * h128;
        let limit: u128 = isize::MAX as u128;
        if out_bytes > limit {
            return false;
        }
        if self.width > 0 && self.height > 0 && (width != self.width || height != self.height) {
            let t2: u128 = 16u128 * s128;
            proof {
                assert(t2 * h128 <= 0xffffffff0 * 0xffffffff) by (nonlinear_arith)
                    requires
                        t2 <= 0xffffffff0,
                        h128 <= 0xffffffff,
                ;
            }
            let inter_bytes: u128 = t2 * h128;
            if inter_bytes > limit {
                return false;
            }
        }
        true
    }
}

/// Scale an image to exactly the requested width and height with the Gaussian
/// filter.  The result reports exactly the requested dimensions — whatever the
/// source's aspect ratio — and keeps the source's color layout.
pub fn resize(src: &Image, width: u32, height: u32) -> (r: Image)
    requires
        resample_fits(src.spec_width(), src.spec_height(), src.spec_color(), width, height),
    ensures
        r.spec_width() == width,
        r.spec_height() == height,
        r.spec_color() == src.spec_color(),
{
    resample_exact_gaussian(src, width, height)
}

/// Resizing an image that already reports the target dimensions is a no-op on
/// reported dimensions: when a first resize to some target and a second
/// resize of its result to the same target both meet [`resize`]'s contract,
/// the second result reports exactly what the first did.  (Pixel content is
/// not part of the model and may differ slightly between the two.)
pub proof fn lemma_resize_dims_idempotent(first: Image, second: Image, width: u32, height: u32)
    requires
        first.spec_width() == width,
        first.spec_height() == height,
        second.spec_width() == width,
        second.spec_height() == height,
    ensures
        second.spec_width() == first.spec_width(),
        second.spec_height() == first.spec_height(),
{
}

} // verus!

//! Encoding raw pixel data as PNG images.

use crate::model::ISize;
use vstd::prelude::*;

verus! {

/// The PNG file that the `png` crate writes for an 8 bit RGB image of the
/// given width and height with the given rows of pixels, using its fast
/// compression and its default filter.
pub uninterp spec fn png_rgb8_fast(data: Seq<u8>, width: u32, height: u32) -> Seq<u8>;

/// The PNG file that the `png` crate writes for an 8 bit indexed image of
/// the given width and height with the given palette and rows of palette
/// indices, using its default compression and filter.
pub uninterp spec fn png_indexed8(data: Seq<u8>, palette: Seq<u8>, width: u32, height: u32) -> Seq<u8>;

/// `png::Encoder` for an 8 bit RGB image with fast compression, then
/// `write_header` and `write_image_data`: the whole file is appended to
/// `target` (the writer closes the file when it is dropped). The encoder
/// fails only on a zero width or height or on data of the wrong length,
/// which `requires` leaves out; writing to a vector does not fail.
#[verifier::external_body]
fn encode_png_rgb8(data: &[u8], width: u32, height: u32, target: &mut Vec<u8>)
    requires
        width > 0,
        height > 0,
        data@.len() == width * 3 * height,
    ensures
        final(target)@ == old(target)@ + png_rgb8_fast(data@, width, height),
{
    let mut encoder = png::Encoder::new(target, width, height);
    encoder.set_color(png::ColorType::RGB);
    encoder.set_depth(png::BitDepth::Eight);
    encoder.set_compression(png::Compression::Fast);
    let mut writer = encoder.write_header().unwrap();
    writer.write_image_data(data).unwrap();
}

/// `png::Encoder` for an 8 bit indexed image with the given palette, then
/// `write_header` and `write_image_data`: the whole file is appended to
/// `target`. The encoder fails only on a zero width or height or on data
/// of the wrong length, which `requires` leaves out.
#[verifier::external_body]
fn encode_png_indexed8(data: &[u8], palette: Vec<u8>, width: u32, height: u32, target: &mut Vec<u8>)
    requires
        width > 0,
        height > 0,
        data@.len() == width * height,
    ensures
        final(target)@ == old(target)@ + png_indexed8(data@, palette@, width, height),
{
    let mut encoder = png::Encoder::new(target, width, height);
    encoder.set_color(png::ColorType::Indexed);
    encoder.set_depth(png::BitDepth::Eight);
    encoder.set_palette(palette);
    let mut writer = encoder.write_header().unwrap();
    writer.write_image_data(data).unwrap();
}

/// Writes PNG images of raw pixel data. The image's width and height are
/// those of the given size, each cut down to 32 bits.
pub struct PngGenerator {}

impl PngGenerator {
    /// Append to `target` the PNG image with the given palette whose pixels
    /// are the palette indices in `indexed_data`, one byte each, row by row.
    pub fn get_png_indexed(indexed_data: &[u8], palette_data: Vec<u8>, size: &ISize, target: &mut Vec<u8>)
        requires
            size.width as u32 > 0,
            size.height as u32 > 0,
            indexed_data@.len() == (size.width as u32) * (size.height as u32),
        ensures
            final(target)@ == old(target)@ + png_indexed8(
                indexed_data@,
                palette_data@,
                size.width as u32,
                size.height as u32,
            ),
    {
        let width = size.width as u32;
        let height = size.height as u32;
        encode_png_indexed8(indexed_data, palette_data, width, height, target);
    }

    /// Append to `target` the PNG image whose pixels are the RGB triples in
    /// `data`, row by row.
    pub fn get_png(data: &[u8], size: &ISize, target: &mut Vec<u8>)
        requires
            size.width as u32 > 0,
            size.height as u32 > 0,
            data@.len() == (size.width as u32) * 3 * (size.height as u32),
        ensures
            final(target)@ == old(target)@ + png_rgb8_fast(
                data@,
                size.width as u32,
                size.height as u32,
            ),
    {
        let width = size.width as u32;
        let height = size.height as u32;
        encode_png_rgb8(data, width, height, target);
    }
}

} // verus!

//! Rasterization of a vector document into PNG bytes, through resvg: parse
//! the document into a scene tree (with system fonts loaded for text), render
//! it onto a pixel surface of the tree's intrinsic size, and encode the
//! pixels losslessly as PNG.

use vstd::prelude::*;

verus! {

/// The scene tree that resvg's parser produces; opaque to the library.
#[verifier::external_type_specification]
#[verifier::external_body]
pub struct ExTree(resvg::usvg::Tree);

/// The big-endian 32-bit value at offset `i` of a byte sequence.
pub open spec fn be_u32_at(b: Seq<u8>, i: int) -> int {
    (b[i] as int) * 0x1000000 + (b[i + 1] as int) * 0x10000 + (b[i + 2] as int) * 0x100 + (b[i
        + 3] as int)
}

/// PNG bytes declaring `w` by `h` pixels: the IHDR chunk directly after the
/// eight signature bytes carries width and height big-endian at offsets 16
/// and 20.
pub open spec fn png_sized(b: Seq<u8>, w: int, h: int) -> bool {
    &&& b.len() >= 24
    &&& be_u32_at(b, 16) == w
    &&& be_u32_at(b, 20) == h
}

/// Relies on `usvg::Tree::from_str`, with default options and the host's
/// system fonts loaded into the font database: parses a vector document into
/// a scene tree, or fails on a malformed document.
#[verifier::external_body]
pub(crate) fn parse_svg(text: &str) -> (r: Option<resvg::usvg::Tree>)
{
    let mut opt = resvg::usvg::Options::default();
    opt.fontdb_mut().load_system_fonts();
    resvg::usvg::Tree::from_str(text, &opt).ok()
}

/// Relies on `usvg::Tree::size` and `tiny_skia_path::Size::to_int_size`: the
/// tree's intrinsic size rounded to integers, clamped to at least one pixel
/// on each side.
#[verifier::external_body]
pub(crate) fn tree_int_size(tree: &resvg::usvg::Tree) -> (r: (u32, u32))
    ensures
        r.0 >= 1,
        r.1 >= 1,
{
    let size = tree.size().to_int_size();
    (size.width(), size.height())
}

/// Relies on `tiny_skia::Pixmap::new`, `resvg::render` and
/// `tiny_skia::Pixmap::encode_png`: allocates a `w` by `h` surface, renders
/// the tree onto it with the identity transform, and encodes it as PNG; the
/// PNG encoder writes the surface's width and height big-endian into the
/// IHDR chunk at offsets 16 and 20, after the eight signature bytes.
#[verifier::external_body]
pub(crate) fn raster_tree_png(tree: &resvg::usvg::Tree, w: u32, h: u32) -> (r: Option<Vec<u8>>)
    ensures
        r matches Some(png) ==> png_sized(png@, w as int, h as int),
{
    let mut pixmap = resvg::tiny_skia::Pixmap::new(w, h)?;
    resvg::render(tree, resvg::tiny_skia::Transform::default(), &mut pixmap.as_mut());
    pixmap.encode_png().ok()
}

} // verus!

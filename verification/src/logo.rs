use vstd::prelude::*;

verus! {

/// A parsed SVG document of `usvg`.
#[verifier::external_type_specification]
#[verifier::external_body]
pub struct ExSvgTree(usvg::Tree);

/// A `tiny-skia` raster image: RGBA bytes, premultiplied, row by row.
#[verifier::external_type_specification]
#[verifier::external_body]
pub struct ExPixmap(tiny_skia::Pixmap);

/// Whether `usvg`, with its default options, parses these bytes as an SVG
/// document (plain or gzip-compressed).
pub uninterp spec fn svg_parses(svg: Seq<u8>) -> bool;

/// The RGBA bytes that a pixmap holds.
pub uninterp spec fn pixmap_data(p: tiny_skia::Pixmap) -> Seq<u8>;

/// Calls `usvg::Tree::from_data` with `usvg::Options::default()`. Whether it
/// succeeds depends on the bytes alone (UTF-8 or gzip decoding, XML parsing
/// and the document's size); images that the document links from files are
/// loaded or skipped without failing, so the tree's contents are not named.
#[verifier::external_body]
fn usvg_parse(svg: &[u8]) -> (tree: Option<usvg::Tree>)
    ensures
        tree is Some == svg_parses(svg@),
{
    usvg::Tree::from_data(svg, &usvg::Options::default().to_ref()).ok()
}

/// Calls `tiny_skia::Pixmap::new`: it succeeds exactly when both sides are
/// positive and a row of `4 * width` bytes fits an `i32`, and then holds
/// `4 * width * height` zero bytes. The `requires` keeps the allocation
/// within what a `Vec` can hold.
#[verifier::external_body]
fn pixmap_new(width: u32, height: u32) -> (p: Option<tiny_skia::Pixmap>)
    requires
        4 * width * height <= isize::MAX,
    ensures
        p is Some <==> (width > 0 && height > 0 && 4 * width <= i32::MAX),
        p matches Some(q) ==> pixmap_data(q) == Seq::new(
            (4 * width * height) as nat,
            |i: int| 0u8,
        ),
{
    tiny_skia::Pixmap::new(width, height)
}

/// Calls `resvg::render` with `usvg::FitTo::Width(width)` and the identity
/// transform. It fails only when fitting the document to `width` gives no
/// screen size, which happens exactly for a zero `width` (a document's size is
/// at least one pixel each way, so a positive width gives a positive height);
/// it then leaves the pixmap as it was. Otherwise it draws within the pixmap,
/// keeping its byte count. Which bytes it draws is not stated, and gets no
/// name: with its default `simd` feature, tiny-skia computes the reciprocals
/// of some blend modes (colour dodge and burn, soft light, reached through
/// SVG filters) with the processor's approximate `rcpps` and `rsqrtps`
/// instructions, whose results differ between processors, so the same
/// document and raster need not give the same bytes on every machine.
#[verifier::external_body]
fn resvg_render(tree: &usvg::Tree, width: u32, pixmap: &mut tiny_skia::Pixmap) -> (drawn: bool)
    ensures
        drawn == (width > 0),
        pixmap_data(*final(pixmap)).len() == pixmap_data(*old(pixmap)).len(),
        !drawn ==> *final(pixmap) == *old(pixmap),
{
    resvg::render(tree, usvg::FitTo::Width(width), tiny_skia::Transform::default(), pixmap.as_mut()).is_some()
}

/// Calls `tiny_skia::Pixmap::take`: the pixmap's RGBA bytes, handed out.
#[verifier::external_body]
fn pixmap_take(p: tiny_skia::Pixmap) -> (data: Vec<u8>)
    ensures
        data@ == pixmap_data(p),
{
    p.take()
}

/// Parses the logo's SVG bytes.
pub fn parse_svg(svg: &[u8]) -> (tree: Option<usvg::Tree>)
    ensures
        tree is Some == svg_parses(svg@),
{
    usvg_parse(svg)
}

/// Whether a `width` by `height` raster can be made: both sides positive,
/// a row within `i32` bytes and the whole within what a `Vec` can hold.
pub open spec fn raster_fits(width: u32, height: u32) -> bool {
    &&& width > 0
    &&& height > 0
    &&& 4 * width <= i32::MAX
    &&& 4 * width * height <= isize::MAX
}

/// Renders the document `width` pixels wide onto a fresh, transparent
/// `width` by `height` raster and hands out its RGBA bytes, row by row;
/// `None` exactly when no such raster can be made. The bytes drawn are those
/// of `resvg`, which are not stated (see the call it makes).
pub fn render_rgba(tree: &usvg::Tree, width: u32, height: u32) -> (rgba: Option<Vec<u8>>)
    ensures
        rgba is Some <==> raster_fits(width, height),
        rgba matches Some(b) ==> b@.len() == 4 * width * height,
{
    if width == 0 || height == 0 {
        return None;
    }
    let w: u64 = width as u64;
    let h: u64 = height as u64;
    if w * 4 > 0x7fff_ffff {
        return None;
    }
    assert(w * 4 * h <= 0x7fff_ffff * 0xffff_ffff) by (nonlinear_arith)
        requires
            w * 4 <= 0x7fff_ffff,
            h <= 0xffff_ffff,
    ;
    if w * 4 * h > isize::MAX as u64 {
        return None;
    }
    assert(4 * width * height == w * 4 * h) by (nonlinear_arith)
        requires
            w == width,
            h == height,
    ;
    let mut pixmap = match pixmap_new(width, height) {
        Some(p) => p,
        None => return None,
    };
    resvg_render(tree, width, &mut pixmap);
    Some(pixmap_take(pixmap))
}

} // verus!

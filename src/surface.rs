//! The pixel buffer: a tiny-skia pixmap, four bytes per pixel, row after row.
use vstd::prelude::*;
use tiny_skia::Pixmap;

verus! {

#[verifier::external_type_specification]
#[verifier::external_body]
pub struct ExPixmap(tiny_skia::Pixmap);

/// The bytes of a pixmap, four per pixel, rows one after another.
pub uninterp spec fn pixmap_bytes(p: Pixmap) -> Seq<u8>;

/// The width of a pixmap in pixels.
pub uninterp spec fn pixmap_width(p: Pixmap) -> u32;

/// The height of a pixmap in pixels.
pub uninterp spec fn pixmap_height(p: Pixmap) -> u32;

/// The widest pixmap: four bytes per pixel must fit a row in `i32`.
pub const MAX_PIXMAP_WIDTH: u32 = 0x1FFF_FFFF;

/// Whether a pixmap of this size can exist.
pub open spec fn valid_size(width: u32, height: u32) -> bool {
    &&& 0 < width <= MAX_PIXMAP_WIDTH
    &&& 0 < height
    &&& 4 * (width as int) * (height as int) <= usize::MAX
}

/// `p` is a pixmap of `width` × `height` with the right number of bytes.
pub open spec fn has_size(p: Pixmap, width: u32, height: u32) -> bool {
    &&& pixmap_width(p) == width
    &&& pixmap_height(p) == height
    &&& pixmap_bytes(p).len() == 4 * (width as int) * (height as int)
}

/// What `Pixmap::fill` stores in each pixel for the color bytes `px`: the
/// color premultiplied by its alpha.
pub uninterp spec fn premultiplied_of(px: Seq<u8>) -> Seq<u8>;

/// What `Pixmap::draw_pixmap` leaves in a buffer `dst` of width `dst_width`
/// when the pixmap `src` of width `src_width` is blended over it, source
/// over, with its corner at (x, y).
pub uninterp spec fn blit_of(
    dst: Seq<u8>,
    dst_width: u32,
    src: Seq<u8>,
    src_width: u32,
    x: i32,
    y: i32,
) -> Seq<u8>;

/// Byte `i` of a buffer of width `width` belongs to a pixel inside the
/// rectangle of size `w` × `h` with its corner at (x, y).
pub open spec fn byte_in_rect(i: int, width: u32, x: int, y: int, w: int, h: int) -> bool {
    let p = i / 4;
    let px = p % (width as int);
    let py = p / (width as int);
    x <= px < x + w && y <= py < y + h
}

/// The largest magnitude up to which every integer is exact in `f32`: 2^24.
pub const F32_EXACT_LIMIT: i64 = 0x100_0000;

/// The edges of the rectangle of size `w` × `h` with its corner at (x, y) are
/// all exact in `f32`, so turning it into a float rectangle moves no edge.
pub open spec fn rect_exact_in_f32(x: int, y: int, w: int, h: int) -> bool {
    &&& -F32_EXACT_LIMIT <= x
    &&& x + w <= F32_EXACT_LIMIT
    &&& w <= F32_EXACT_LIMIT
    &&& -F32_EXACT_LIMIT <= y
    &&& y + h <= F32_EXACT_LIMIT
    &&& h <= F32_EXACT_LIMIT
}

/// Every pixel of `bytes` holds the four bytes `px`.
pub open spec fn all_pixels(bytes: Seq<u8>, px: Seq<u8>) -> bool {
    forall|i: int| 0 <= i < bytes.len() ==> #[trigger] bytes[i] == px[i % 4]
}

/// Relies on `Pixmap::new`: a pixmap exists for a non-zero size whose rows of
/// four bytes per pixel fit in `i32` and whose data fits in memory; it starts
/// transparent black (all bytes zero).
#[verifier::external_body]
pub(crate) fn new_pixmap(width: u32, height: u32) -> (r: Option<Pixmap>)
    ensures
        r is Some <==> valid_size(width, height),
        r matches Some(p) ==> has_size(p, width, height) && all_pixels(
            pixmap_bytes(p),
            seq![0u8, 0u8, 0u8, 0u8],
        ),
{
    Pixmap::new(width, height)
}

/// Relies on `Pixmap::fill` with `Color::from_rgba8`: every pixel gets the
/// color premultiplied by its alpha. The alpha byte is kept; an opaque color
/// is stored as given and a fully transparent one as zeros.
#[verifier::external_body]
pub(crate) fn fill_pixmap(p: &mut Pixmap, px: [u8; 4])
    ensures
        pixmap_width(*final(p)) == pixmap_width(*old(p)),
        pixmap_height(*final(p)) == pixmap_height(*old(p)),
        pixmap_bytes(*final(p)).len() == pixmap_bytes(*old(p)).len(),
        forall|i: int|
            0 <= i < pixmap_bytes(*final(p)).len() && i % 4 == 3 ==> #[trigger] pixmap_bytes(
                *final(p),
            )[i] == px@[3],
        px@[3] == 255 ==> all_pixels(pixmap_bytes(*final(p)), px@),
        px@[3] == 0 ==> all_pixels(pixmap_bytes(*final(p)), seq![0u8, 0u8, 0u8, 0u8]),
        all_pixels(pixmap_bytes(*final(p)), premultiplied_of(px@)),
{
    p.fill(tiny_skia::Color::from_rgba8(px[0], px[1], px[2], px[3]))
}

/// Relies on `Pixmap::data`: the pixmap's bytes.
#[verifier::external_body]
pub(crate) fn pixmap_data(p: &Pixmap) -> (r: &[u8])
    ensures
        r@ == pixmap_bytes(*p),
{
    p.data()
}

/// Relies on `Pixmap::data_mut`: the bytes are overwritten by `data`, of the
/// same length, and the size stays.
#[verifier::external_body]
pub(crate) fn copy_into_pixmap(p: &mut Pixmap, data: &[u8])
    requires
        data@.len() == pixmap_bytes(*old(p)).len(),
    ensures
        pixmap_bytes(*final(p)) == data@,
        pixmap_width(*final(p)) == pixmap_width(*old(p)),
        pixmap_height(*final(p)) == pixmap_height(*old(p)),
{
    p.data_mut().copy_from_slice(data)
}

/// Relies on `Pixmap::draw_pixmap`: `src` is blended over `dst` with its
/// corner at (x, y), unscaled, by filling that rectangle without
/// anti-aliasing; the size of `dst` stays. The rectangle is turned into
/// `f32` first, so pixels outside it are known to stay only where its edges
/// are exact in `f32`. It panics when the rectangle's right or bottom edge
/// passes `i32::MAX`.
#[verifier::external_body]
pub(crate) fn draw_pixmap(dst: &mut Pixmap, x: i32, y: i32, src: &Pixmap)
    requires
        x as int + pixmap_width(*src) <= i32::MAX,
        y as int + pixmap_height(*src) <= i32::MAX,
    ensures
        pixmap_width(*final(dst)) == pixmap_width(*old(dst)),
        pixmap_height(*final(dst)) == pixmap_height(*old(dst)),
        pixmap_bytes(*final(dst)) == blit_of(
            pixmap_bytes(*old(dst)),
            pixmap_width(*old(dst)),
            pixmap_bytes(*src),
            pixmap_width(*src),
            x,
            y,
        ),
        pixmap_bytes(*final(dst)).len() == pixmap_bytes(*old(dst)).len(),
        rect_exact_in_f32(
            x as int,
            y as int,
            pixmap_width(*src) as int,
            pixmap_height(*src) as int,
        ) ==> forall|i: int|
            0 <= i < pixmap_bytes(*old(dst)).len() && !byte_in_rect(
                i,
                pixmap_width(*old(dst)),
                x as int,
                y as int,
                pixmap_width(*src) as int,
                pixmap_height(*src) as int,
            ) ==> #[trigger] pixmap_bytes(*final(dst))[i] == pixmap_bytes(*old(dst))[i],
{
    dst.draw_pixmap(
        x,
        y,
        src.as_ref(),
        &tiny_skia::PixmapPaint::default(),
        tiny_skia::Transform::identity(),
        None,
    );
}

} // verus!

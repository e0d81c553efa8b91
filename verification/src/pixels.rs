use vstd::prelude::*;

verus! {

/// The 32-bit word `0xAARRGGBB` that holds the four channels of one pixel,
/// alpha in the most significant byte (big-endian byte order a, r, g, b).
pub open spec fn argb_word(a: u8, r: u8, g: u8, b: u8) -> int {
    a * 0x1000000 + r * 0x10000 + g * 0x100 + b
}

/// The pixel that the `i`-th group of four bytes `r, g, b, a` of `data` becomes.
pub open spec fn pixel_at(data: Seq<u8>, i: int) -> u32 {
    argb_word(data[4 * i + 3], data[4 * i], data[4 * i + 1], data[4 * i + 2]) as u32
}

/// The pixels of an RGBA byte buffer: one `0xAARRGGBB` word per complete group
/// of four bytes; a trailing incomplete group is dropped.
pub open spec fn argb_pixels(data: Seq<u8>) -> Seq<u32> {
    Seq::new(data.len() / 4, |i: int| pixel_at(data, i))
}

proof fn lemma_argb_word_bounds(a: u8, r: u8, g: u8, b: u8)
    ensures
        0 <= argb_word(a, r, g, b) <= u32::MAX,
{
}

/// Repacks an RGBA byte buffer (as a rasteriser fills it) into one
/// `0xAARRGGBB` word per pixel, as an image for drawing expects it.
pub fn rgba_to_argb(data: &[u8]) -> (pixels: Vec<u32>)
    ensures
        pixels@ == argb_pixels(data@),
        pixels@.len() == data@.len() / 4,
        forall|i: int|
            0 <= i < pixels@.len() ==> #[trigger] pixels@[i] as int == data@[4 * i + 3] * 0x1000000
                + data@[4 * i] * 0x10000 + data@[4 * i + 1] * 0x100 + data@[4 * i + 2],
{
    let len: usize = data.len();
    let n: usize = len / 4;
    let mut pixels: Vec<u32> = Vec::new();
    let mut i: usize = 0;
    while i < n
        invariant
            len == data@.len(),
            n == data@.len() / 4,
            i <= n,
            pixels@.len() == i,
            forall|j: int| 0 <= j < i ==> pixels@[j] == pixel_at(data@, j),
        decreases n - i,
    {
        assert(4 * i + 3 < data@.len()) by (nonlinear_arith)
            requires
                i < n,
                n == data@.len() / 4,
        ;
        let r: u8 = data[4 * i];
        let g: u8 = data[4 * i + 1];
        let b: u8 = data[4 * i + 2];
        let a: u8 = data[4 * i + 3];
        proof {
            lemma_argb_word_bounds(a, r, g, b);
        }
        let word: u32 = (a as u32) * 0x1000000 + (r as u32) * 0x10000 + (g as u32) * 0x100
            + (b as u32);
        pixels.push(word);
        i = i + 1;
    }
    assert(pixels@ =~= argb_pixels(data@));
    pixels
}

/// Packing loses nothing: each channel of a pixel is read back from its word
/// (alpha from the top byte, then red, green and blue).
pub proof fn argb_word_channels(a: u8, r: u8, g: u8, b: u8)
    ensures
        argb_word(a, r, g, b) / 0x1000000 == a,
        (argb_word(a, r, g, b) / 0x10000) % 0x100 == r,
        (argb_word(a, r, g, b) / 0x100) % 0x100 == g,
        argb_word(a, r, g, b) % 0x100 == b,
{
    assert({
        &&& (a * 0x1000000 + r * 0x10000 + g * 0x100 + b) / 0x1000000 == a
        &&& ((a * 0x1000000 + r * 0x10000 + g * 0x100 + b) / 0x10000) % 0x100 == r
        &&& ((a * 0x1000000 + r * 0x10000 + g * 0x100 + b) / 0x100) % 0x100 == g
        &&& (a * 0x1000000 + r * 0x10000 + g * 0x100 + b) % 0x100 == b
    }) by (bit_vector);
}

/// Distinct pixels give distinct words.
pub proof fn argb_word_injective(a1: u8, r1: u8, g1: u8, b1: u8, a2: u8, r2: u8, g2: u8, b2: u8)
    requires
        argb_word(a1, r1, g1, b1) == argb_word(a2, r2, g2, b2),
    ensures
        a1 == a2 && r1 == r2 && g1 == g2 && b1 == b2,
{
    argb_word_channels(a1, r1, g1, b1);
    argb_word_channels(a2, r2, g2, b2);
}

/// The buffer is read four bytes at a time: converting two buffers one after
/// the other gives the same pixels as converting them joined, when the first
/// ends on a pixel boundary.
pub proof fn argb_pixels_concat(x: Seq<u8>, y: Seq<u8>)
    requires
        x.len() % 4 == 0,
    ensures
        argb_pixels(x + y) == argb_pixels(x) + argb_pixels(y),
{
    let xy = x + y;
    assert((x.len() + y.len()) / 4 == x.len() / 4 + y.len() / 4);
    assert forall|i: int| 0 <= i < argb_pixels(xy).len() implies argb_pixels(xy)[i] == (
    argb_pixels(x) + argb_pixels(y))[i] by {
        if i < x.len() / 4 {
            assert(4 * i + 3 < x.len());
        } else {
            let k = i - x.len() / 4;
            assert(4 * i == x.len() + 4 * k);
        }
    }
    assert(argb_pixels(xy) =~= argb_pixels(x) + argb_pixels(y));
}

/// Bytes after the last complete pixel do not change the result.
pub proof fn argb_pixels_ignores_tail(x: Seq<u8>, tail: Seq<u8>)
    requires
        x.len() % 4 == 0,
        tail.len() < 4,
    ensures
        argb_pixels(x + tail) == argb_pixels(x),
{
    argb_pixels_concat(x, tail);
    assert(argb_pixels(tail) =~= Seq::<u32>::empty());
    assert(argb_pixels(x) + argb_pixels(tail) =~= argb_pixels(x));
}

/// Every pixel word is the pixel's four bytes in the order alpha, red,
/// green, blue, most significant first (`u32::from_be_bytes([a, r, g, b])`
/// of the bytes `r, g, b, a`): each byte of the word is the matching byte of
/// the buffer, unchanged, for every buffer and every complete pixel in it.
pub proof fn argb_pixels_are_big_endian_argb(data: Seq<u8>, i: int)
    requires
        0 <= i < data.len() / 4,
    ensures
        argb_pixels(data).len() == data.len() / 4,
        4 * i + 3 < data.len(),
        argb_pixels(data)[i] as int == data[4 * i + 3] * 0x1000000 + data[4 * i] * 0x10000 + data[4
            * i + 1] * 0x100 + data[4 * i + 2],
        argb_pixels(data)[i] / 0x1000000 == data[4 * i + 3],
        (argb_pixels(data)[i] / 0x10000) % 0x100 == data[4 * i],
        (argb_pixels(data)[i] / 0x100) % 0x100 == data[4 * i + 1],
        argb_pixels(data)[i] % 0x100 == data[4 * i + 2],
{
    assert(4 * i + 3 < data.len()) by (nonlinear_arith)
        requires
            0 <= i < data.len() / 4,
    ;
    let a = data[4 * i + 3];
    let r = data[4 * i];
    let g = data[4 * i + 1];
    let b = data[4 * i + 2];
    lemma_argb_word_bounds(a, r, g, b);
    argb_word_channels(a, r, g, b);
    assert(argb_pixels(data)[i] == pixel_at(data, i));
}

} // verus!

//! 1-bit-per-pixel bitmap images with row padding, as the platform lays
//! them out: each byte of a row holds 8 pixels, the highest bit being the
//! leftmost, and a row may end in padding bytes beyond its last pixel.
//!
//! The pixel storage is held here as plain bytes; loading an image from
//! the platform's own storage is the host's side of the boundary and
//! hands the library the bytes together with their metadata.

use vstd::prelude::*;

verus! {

/// Whether the pixel selected by a right-shift distance is set in a byte.
/// The leftmost pixel of the byte has shift 7, the rightmost shift 0.
pub open spec fn pixel_in_byte(byte: u8, shift: u8) -> bool {
    (byte >> shift) & 1 != 0
}

/// The byte that holds pixel `(x, y)` of a bitmap with `rowbytes` bytes
/// per row.
pub open spec fn pixel_index(rowbytes: int, x: int, y: int) -> int {
    y * rowbytes + x / 8
}

/// The right-shift distance that selects pixel `x` within its byte.
pub open spec fn pixel_shift(x: int) -> u8 {
    (7 - (x % 8)) as u8
}

/// The value of pixel `(x, y)` in row-padded 1-bit pixel bytes.
pub open spec fn pixel_value(pixels: Seq<u8>, rowbytes: int, x: int, y: int) -> bool {
    pixel_in_byte(pixels[pixel_index(rowbytes, x, y)], pixel_shift(x))
}

/// Metadata for a `Bitmap`.
#[derive(Debug, Copy, Clone, PartialEq, Eq, Structural, PartialOrd, Ord, Hash)]
pub struct BitmapData {
    pub width: i32,
    pub height: i32,
    pub rowbytes: i32,
    pub hasmask: i32,
}

impl BitmapData {
    /// Well-formedness: dimensions are non-negative and every row's pixels
    /// fit in its bytes.
    pub open spec fn wf(self) -> bool {
        &&& 0 <= self.width
        &&& 0 <= self.height
        &&& 0 <= self.rowbytes
        &&& self.width <= self.rowbytes * 8
    }

    /// The number of pixels (or, columns) per row of the bitmap.
    ///
    /// Each pixel is a single bit, and there may be more bytes (as given
    /// by `row_bytes()`) in a row than required to hold all the pixels.
    pub fn width(&self) -> (r: i32)
        ensures
            r == self.width,
    {
        self.width
    }

    /// The number of rows in the bitmap.
    pub fn height(&self) -> (r: i32)
        ensures
            r == self.height,
    {
        self.height
    }

    /// The number of bytes per row of the bitmap.
    pub fn row_bytes(&self) -> (r: i32)
        ensures
            r == self.rowbytes,
    {
        self.rowbytes
    }

    /// Whether the bitmap has a mask attached.
    pub fn has_mask(&self) -> (r: bool)
        ensures
            r == (self.hasmask != 0),
    {
        self.hasmask != 0
    }
}

/// The contents of a bitmap: its metadata and its pixel bytes. An owned
/// `Bitmap` or a `SharedBitmapRef` is borrowed as one of these.
#[derive(Debug, Clone)]
pub struct BitmapRef {
    pub data: BitmapData,
    pub pixels: Vec<u8>,
}

impl BitmapRef {
    /// Well-formedness: the metadata is well-formed and the byte count is
    /// exactly the rows times the row stride.
    pub open spec fn wf(self) -> bool {
        &&& self.data.wf()
        &&& self.pixels@.len() == self.data.rowbytes * self.data.height
    }

    /// Returns the bitmap's metadata such as its width and height.
    pub fn data(&self) -> (d: BitmapData)
        ensures
            d == self.data,
    {
        self.data
    }

    /// Gives read access to the individual pixels of the bitmap.
    pub fn pixels(&self) -> (p: BitmapPixels<'_>)
        ensures
            p.data == self.data,
            p.pixels@ == self.pixels@,
    {
        BitmapPixels { data: self.data, pixels: self.pixels.as_slice() }
    }

    /// Clears the bitmap, setting every pixel — padding bits included —
    /// to `fill`.
    pub fn clear(&mut self, fill: bool)
        requires
            old(self).wf(),
        ensures
            final(self).wf(),
            final(self).data == old(self).data,
            forall|x: int, y: int|
                0 <= x < old(self).data.width && 0 <= y < old(self).data.height
                    ==> #[trigger] pixel_value(
                    final(self).pixels@,
                    old(self).data.rowbytes as int,
                    x,
                    y,
                ) == fill,
    {
        let byte: u8 = if fill {
            0xFF
        } else {
            0x00
        };
        let n = self.pixels.len();
        let mut i: usize = 0;
        while i < n
            invariant
                i <= n,
                n == self.pixels@.len(),
                self.data == old(self).data,
                forall|j: int| 0 <= j < i ==> self.pixels@[j] == byte,
            decreases n - i,
        {
            self.pixels.set(i, byte);
            i += 1;
        }
        proof {
            assert forall|x: int, y: int|
                0 <= x < old(self).data.width && 0 <= y < old(self).data.height implies #[trigger] pixel_value(
                self.pixels@,
                old(self).data.rowbytes as int,
                x,
                y,
            ) == fill by {
                lemma_pixel_index_in_range(
                    old(self).data.rowbytes as int,
                    old(self).data.width as int,
                    old(self).data.height as int,
                    x,
                    y,
                );
                let s = pixel_shift(x);
                if fill {
                    assert((0xFFu8 >> s) & 1 != 0) by (bit_vector)
                        requires
                            s < 8,
                    ;
                } else {
                    assert((0x00u8 >> s) & 1 == 0) by (bit_vector);
                }
            }
        }
    }
}

/// A bitmap image that owns its contents.
#[derive(Debug, Clone)]
pub struct Bitmap {
    /// The owned contents; a borrow of the bitmap is a borrow of these.
    pub owned: BitmapRef,
}

impl Bitmap {
    /// Allocates a new `width` by `height` bitmap with every pixel set to
    /// `fill`, rows padded to whole bytes, and no mask.
    pub fn new(width: i32, height: i32, fill: bool) -> (r: Bitmap)
        requires
            0 <= width,
            width + 7 <= i32::MAX,
            0 <= height,
            ((width + 7) / 8) * height <= usize::MAX,
        ensures
            r.owned.data.width == width,
            r.owned.data.height == height,
            r.owned.data.rowbytes == (width + 7) / 8,
            r.owned.data.hasmask == 0,
            r.owned.wf(),
            forall|x: int, y: int|
                0 <= x < width && 0 <= y < height ==> #[trigger] pixel_value(
                    r.owned.pixels@,
                    (width + 7) / 8,
                    x,
                    y,
                ) == fill,
    {
        let rowbytes: i32 = (width + 7) / 8;
        let total: usize = (rowbytes as usize) * (height as usize);
        let byte: u8 = if fill {
            0xFF
        } else {
            0x00
        };
        let mut pixels: Vec<u8> = Vec::new();
        let mut i: usize = 0;
        while i < total
            invariant
                i <= total,
                pixels@.len() == i,
                forall|j: int| 0 <= j < i ==> pixels@[j] == byte,
            decreases total - i,
        {
            pixels.push(byte);
            i += 1;
        }
        let data = BitmapData { width, height, rowbytes, hasmask: 0 };
        proof {
            assert(rowbytes * 8 >= width) by (nonlinear_arith)
                requires
                    rowbytes == (width + 7) / 8,
                    0 <= width,
            ;
            assert forall|x: int, y: int| 0 <= x < width && 0 <= y < height implies pixel_value(
                pixels@,
                rowbytes as int,
                x,
                y,
            ) == fill by {
                lemma_pixel_index_in_range(rowbytes as int, width as int, height as int, x, y);
                let s = pixel_shift(x);
                if fill {
                    assert((0xFFu8 >> s) & 1 != 0) by (bit_vector)
                        requires
                            s < 8,
                    ;
                } else {
                    assert((0x00u8 >> s) & 1 == 0) by (bit_vector);
                }
            }
        }
        Bitmap { owned: BitmapRef { data, pixels } }
    }

    /// Returns the bitmap's metadata such as its width and height.
    pub fn data(&self) -> (d: BitmapData)
        ensures
            d == self.owned.data,
    {
        self.owned.data()
    }

    /// Gives read access to the individual pixels of the bitmap.
    pub fn pixels(&self) -> (p: BitmapPixels<'_>)
        ensures
            p.data == self.owned.data,
            p.pixels@ == self.owned.pixels@,
    {
        self.owned.pixels()
    }

    /// Clears the bitmap, setting every pixel to `fill`.
    pub fn clear(&mut self, fill: bool)
        requires
            old(self).owned.wf(),
        ensures
            final(self).owned.wf(),
            final(self).owned.data == old(self).owned.data,
            forall|x: int, y: int|
                0 <= x < old(self).owned.data.width && 0 <= y < old(self).owned.data.height
                    ==> #[trigger] pixel_value(
                    final(self).owned.pixels@,
                    old(self).owned.data.rowbytes as int,
                    x,
                    y,
                ) == fill,
    {
        self.owned.clear(fill);
    }

    /// Gives read-write access to the individual pixels of the bitmap by
    /// taking the contents into an editor; `BitmapPixelsMut::into_bitmap`
    /// hands them back.
    pub fn pixels_mut(self) -> (p: BitmapPixelsMut)
        ensures
            p.data == self.owned.data,
            p.pixels@ == self.owned.pixels@,
    {
        BitmapPixelsMut { data: self.owned.data, pixels: self.owned.pixels }
    }
}

/// A reference to a `Bitmap` owned elsewhere, with a lifetime tied to that
/// bitmap.
#[derive(Debug, Clone)]
pub struct SharedBitmapRef<'a> {
    pub bref: &'a BitmapRef,
}

impl<'a> SharedBitmapRef<'a> {
    /// Borrows the given bitmap contents.
    pub fn new(bref: &'a BitmapRef) -> (r: SharedBitmapRef<'a>)
        ensures
            r.bref == bref,
    {
        SharedBitmapRef { bref }
    }

    /// Returns the bitmap's metadata such as its width and height.
    pub fn data(&self) -> (d: BitmapData)
        ensures
            d == self.bref.data,
    {
        self.bref.data()
    }

    /// Gives read access to the individual pixels of the bitmap.
    pub fn pixels(&self) -> (p: BitmapPixels<'_>)
        ensures
            p.data == self.bref.data,
            p.pixels@ == self.bref.pixels@,
    {
        self.bref.pixels()
    }
}

/// Read-only access to the pixels of a bitmap, through its metadata.
pub struct BitmapPixels<'bitmap> {
    pub data: BitmapData,
    pub pixels: &'bitmap [u8],
}

impl BitmapPixels<'_> {
    /// Well-formedness, as for the bitmap the pixels came from.
    pub open spec fn wf(self) -> bool {
        &&& self.data.wf()
        &&& self.pixels@.len() == self.data.rowbytes * self.data.height
    }

    /// Reads pixel `(x, y)`: `true` where the bit is set.
    pub fn get(&self, x: usize, y: usize) -> (r: bool)
        requires
            self.wf(),
            x < self.data.width,
            y < self.data.height,
        ensures
            r == pixel_value(self.pixels@, self.data.rowbytes as int, x as int, y as int),
    {
        proof {
            lemma_pixel_index_in_range(
                self.data.rowbytes as int,
                self.data.width as int,
                self.data.height as int,
                x as int,
                y as int,
            );
        }
        // the byte count bounds the index, so the arithmetic fits in usize
        let n: usize = self.pixels.len();
        let byte_index: usize = y * (self.data.rowbytes as usize) + x / 8;
        let shift: u8 = (7 - (x % 8)) as u8;
        (self.pixels[byte_index] >> shift) & 1 != 0
    }
}

/// Read-write access to the pixels of a bitmap. The editor owns the bytes
/// while edits are made; `into_bitmap` returns them to an owned `Bitmap`.
#[derive(Debug, Clone)]
pub struct BitmapPixelsMut {
    pub data: BitmapData,
    pub pixels: Vec<u8>,
}

impl BitmapPixelsMut {
    /// Well-formedness, as for the bitmap the pixels came from.
    pub open spec fn wf(self) -> bool {
        &&& self.data.wf()
        &&& self.pixels@.len() == self.data.rowbytes * self.data.height
    }

    /// Reads pixel `(x, y)`: `true` where the bit is set.
    pub fn get(&self, x: usize, y: usize) -> (r: bool)
        requires
            self.wf(),
            x < self.data.width,
            y < self.data.height,
        ensures
            r == pixel_value(self.pixels@, self.data.rowbytes as int, x as int, y as int),
    {
        BitmapPixels { data: self.data, pixels: self.pixels.as_slice() }.get(x, y)
    }

    /// Writes pixel `(x, y)`. Exactly that pixel changes: every other
    /// pixel of the bitmap keeps its value.
    pub fn set(&mut self, x: usize, y: usize, new_value: bool)
        requires
            old(self).wf(),
            x < old(self).data.width,
            y < old(self).data.height,
        ensures
            final(self).wf(),
            final(self).data == old(self).data,
            final(self).pixels@.len() == old(self).pixels@.len(),
            pixel_value(
                final(self).pixels@,
                old(self).data.rowbytes as int,
                x as int,
                y as int,
            ) == new_value,
            forall|x2: int, y2: int|
                0 <= x2 < old(self).data.width && 0 <= y2 < old(self).data.height && !(x2 == x
                    && y2 == y) ==> pixel_value(
                    final(self).pixels@,
                    old(self).data.rowbytes as int,
                    x2,
                    y2,
                ) == pixel_value(old(self).pixels@, old(self).data.rowbytes as int, x2, y2),
    {
        proof {
            lemma_pixel_index_in_range(
                self.data.rowbytes as int,
                self.data.width as int,
                self.data.height as int,
                x as int,
                y as int,
            );
        }
        // the byte count bounds the index, so the arithmetic fits in usize
        let n: usize = self.pixels.len();
        let byte_index: usize = y * (self.data.rowbytes as usize) + x / 8;
        let shift: u8 = (7 - (x % 8)) as u8;
        let b = self.pixels[byte_index];
        let b2: u8 = if new_value {
            b | (1u8 << shift)
        } else {
            b & !(1u8 << shift)
        };
        self.pixels.set(byte_index, b2);
        proof {
            lemma_bit_edit_own(b, shift);
            assert forall|x2: int, y2: int|
                0 <= x2 < old(self).data.width && 0 <= y2 < old(self).data.height && !(x2 == x
                    && y2 == y) implies pixel_value(
                self.pixels@,
                old(self).data.rowbytes as int,
                x2,
                y2,
            ) == pixel_value(old(self).pixels@, old(self).data.rowbytes as int, x2, y2) by {
                let rb = old(self).data.rowbytes as int;
                lemma_pixel_index_in_range(
                    rb,
                    old(self).data.width as int,
                    old(self).data.height as int,
                    x2,
                    y2,
                );
                lemma_distinct_pixels(
                    rb,
                    old(self).data.width as int,
                    old(self).data.height as int,
                    x as int,
                    y as int,
                    x2,
                    y2,
                );
                if pixel_index(rb, x2, y2) == pixel_index(rb, x as int, y as int) {
                    lemma_bit_edit_other(b, shift, pixel_shift(x2));
                }
            }
        }
    }

    /// Returns the edited contents to an owned bitmap.
    pub fn into_bitmap(self) -> (r: Bitmap)
        ensures
            r.owned.data == self.data,
            r.owned.pixels@ == self.pixels@,
    {
        Bitmap { owned: BitmapRef { data: self.data, pixels: self.pixels } }
    }
}

/// A pixel inside the bitmap's bounds lies inside its byte storage, and
/// its shift distance selects a bit of one byte.
proof fn lemma_pixel_index_in_range(rb: int, width: int, height: int, x: int, y: int)
    requires
        0 <= x < width,
        0 <= y < height,
        width <= rb * 8,
        0 <= rb,
    ensures
        0 <= pixel_index(rb, x, y) < rb * height,
        pixel_shift(x) < 8,
{
    assert(x / 8 < rb) by (nonlinear_arith)
        requires
            0 <= x,
            x < rb * 8,
    ;
    assert(y * rb + x / 8 < rb * height) by (nonlinear_arith)
        requires
            0 <= y < height,
            0 <= x / 8 < rb,
    ;
    assert(0 <= y * rb) by (nonlinear_arith)
        requires
            0 <= y,
            0 <= rb,
    ;
}

/// Two distinct in-bounds pixels live in different bytes or at different
/// shift distances within the same byte.
proof fn lemma_distinct_pixels(rb: int, width: int, height: int, x: int, y: int, x2: int, y2: int)
    requires
        0 <= x < width,
        0 <= y < height,
        0 <= x2 < width,
        0 <= y2 < height,
        width <= rb * 8,
        !(x2 == x && y2 == y),
    ensures
        pixel_index(rb, x2, y2) != pixel_index(rb, x, y) || pixel_shift(x2) != pixel_shift(x),
{
    assert(x / 8 < rb && x2 / 8 < rb) by (nonlinear_arith)
        requires
            0 <= x,
            x < rb * 8,
            0 <= x2,
            x2 < rb * 8,
    ;
    if y2 == y {
        if x2 / 8 == x / 8 {
            assert(x % 8 != x2 % 8);
            assert(pixel_shift(x2) != pixel_shift(x));
        }
    } else {
        assert(y * rb + x / 8 != y2 * rb + x2 / 8) by (nonlinear_arith)
            requires
                y != y2,
                0 <= x / 8 < rb,
                0 <= x2 / 8 < rb,
        ;
    }
}

/// Setting or clearing a bit makes that bit's value the one written.
proof fn lemma_bit_edit_own(b: u8, s: u8)
    by (bit_vector)
    requires
        s < 8,
    ensures
        ((b | (1u8 << s)) >> s) & 1 != 0,
        ((b & !(1u8 << s)) >> s) & 1 == 0,
{
}

/// Setting or clearing a bit leaves every other bit of the byte unchanged.
proof fn lemma_bit_edit_other(b: u8, s: u8, s2: u8)
    by (bit_vector)
    requires
        s < 8,
        s2 < 8,
        s != s2,
    ensures
        ((b | (1u8 << s)) >> s2) & 1 == (b >> s2) & 1,
        ((b & !(1u8 << s)) >> s2) & 1 == (b >> s2) & 1,
{
}

} // verus!

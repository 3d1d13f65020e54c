//! Tests of the 1-bit bitmap model: metadata, row padding, and pixel
//! reads and writes at the bit level.

use windup::bitmap::{Bitmap, SharedBitmapRef};

#[test]
fn new_bitmap_reports_its_metadata() {
    let b = Bitmap::new(12, 5, false);
    let d = b.data();
    assert_eq!(d.width(), 12);
    assert_eq!(d.height(), 5);
    // 12 pixels need two bytes per row
    assert_eq!(d.row_bytes(), 2);
    assert!(!d.has_mask());
}

#[test]
fn new_bitmap_is_uniformly_filled() {
    let white = Bitmap::new(10, 3, true);
    let black = Bitmap::new(10, 3, false);
    let wp = white.pixels();
    let bp = black.pixels();
    for y in 0..3 {
        for x in 0..10 {
            assert!(wp.get(x, y));
            assert!(!bp.get(x, y));
        }
    }
}

#[test]
fn set_then_get_round_trips() {
    let b = Bitmap::new(16, 4, false);
    let mut p = b.pixels_mut();
    p.set(9, 2, true);
    assert!(p.get(9, 2));
    p.set(9, 2, false);
    assert!(!p.get(9, 2));
}

#[test]
fn set_changes_exactly_one_pixel() {
    let b = Bitmap::new(16, 4, false);
    let mut p = b.pixels_mut();
    p.set(9, 2, true);
    for y in 0..4 {
        for x in 0..16 {
            assert_eq!(p.get(x, y), x == 9 && y == 2, "pixel ({}, {})", x, y);
        }
    }
    // neighbours in the same byte stay clear
    assert!(!p.get(8, 2));
    assert!(!p.get(10, 2));
}

#[test]
fn edited_pixels_return_to_an_owned_bitmap() {
    let b = Bitmap::new(8, 1, false);
    let mut p = b.pixels_mut();
    p.set(0, 0, true);
    p.set(7, 0, true);
    let b = p.into_bitmap();
    let view = b.pixels();
    assert!(view.get(0, 0));
    assert!(view.get(7, 0));
    assert!(!view.get(3, 0));
    // leftmost pixel is the highest bit of its byte
    assert_eq!(b.owned.pixels, vec![0x81]);
}

#[test]
fn clear_overwrites_every_pixel() {
    let mut b = Bitmap::new(11, 2, false);
    {
        let mut p = b.pixels_mut();
        p.set(4, 1, true);
        b = p.into_bitmap();
    }
    b.clear(true);
    let p = b.pixels();
    for y in 0..2 {
        for x in 0..11 {
            assert!(p.get(x, y));
        }
    }
    b.clear(false);
    let p = b.pixels();
    assert!(!p.get(4, 1));
    // padding bits are cleared too
    assert_eq!(b.owned.pixels, vec![0, 0, 0, 0]);
}

#[test]
fn shared_ref_reads_the_same_contents() {
    let b = Bitmap::new(9, 2, true);
    let shared = SharedBitmapRef::new(&b.owned);
    assert_eq!(shared.data(), b.owned.data);
    assert!(shared.pixels().get(8, 1));
}

#[test]
fn zero_width_bitmap_is_valid_and_empty() {
    let b = Bitmap::new(0, 4, true);
    let d = b.data();
    assert_eq!(d.width(), 0);
    assert_eq!(d.row_bytes(), 0);
    assert!(b.owned.pixels.is_empty());
}

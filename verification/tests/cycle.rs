//! End-to-end tests of the slideshow core: loading source bytes into a
//! sequence of resampled bitmaps, cycling through it tick by tick, and
//! computing the presentation pacing.

use imagecycle::codec::{Bitmap, ImageSource};
use imagecycle::error::CycleError;
use imagecycle::image_manager::{frame_interval_ms, ImageManager};

/// Encode a blank RGB image of the given size as PNG bytes, standing in for
/// the contents of an image file on disk.
fn png_bytes(width: u32, height: u32) -> Vec<u8> {
    let img = image::DynamicImage::new_rgb8(width, height);
    let mut cursor = std::io::Cursor::new(Vec::new());
    img.write_to(&mut cursor, image::ImageFormat::Png).unwrap();
    cursor.into_inner()
}

/// A synthetic bitmap with the given declared dimensions, as a fake codec
/// would produce it.
fn synthetic(width: u32, height: u32) -> Bitmap {
    Bitmap::new(image::DynamicImage::new_rgb8(width, height), width, height)
}

#[test]
fn load_two_images_cycles() {
    let sources = vec![
        ImageSource::Data(png_bytes(3, 5)),
        ImageSource::Data(png_bytes(7, 2)),
    ];
    let mut manager = ImageManager::load(sources, (100, 100)).unwrap();
    assert_eq!(manager.len(), 2);

    // Three ticks show positions 0, 1, 0: the first image, the second,
    // then the first again.
    assert_eq!(manager.cursor_position(), 0);
    let shown = manager.tick().unwrap();
    assert_eq!((shown.width(), shown.height()), (100, 100));
    assert_eq!(manager.cursor_position(), 1);
    let shown = manager.tick().unwrap();
    assert_eq!((shown.width(), shown.height()), (100, 100));
    assert_eq!(manager.cursor_position(), 0);
    let shown = manager.tick().unwrap();
    assert_eq!((shown.width(), shown.height()), (100, 100));
    assert_eq!(manager.cursor_position(), 1);
}

#[test]
fn tick_order_with_distinct_dimensions() {
    let images = vec![synthetic(1, 1), synthetic(2, 2), synthetic(3, 3)];
    let mut manager = ImageManager::from(images).unwrap();
    // Four ticks over a sequence of length 3 show widths 1, 2, 3, 1:
    // order kept, wrapping, no skips.
    assert_eq!(manager.tick().unwrap().width(), 1);
    assert_eq!(manager.tick().unwrap().width(), 2);
    assert_eq!(manager.tick().unwrap().width(), 3);
    assert_eq!(manager.tick().unwrap().width(), 1);
}

#[test]
fn load_empty_list_rejected() {
    let r = ImageManager::load(Vec::new(), (100, 100));
    assert!(matches!(r, Err(CycleError::EmptySequence)));
}

#[test]
fn load_missing_file_rejected() {
    let sources = vec![ImageSource::Data(png_bytes(4, 4)), ImageSource::Missing];
    let r = ImageManager::load(sources, (100, 100));
    assert!(matches!(r, Err(CycleError::NotFound)));
}

#[test]
fn load_undecodable_bytes_rejected() {
    let sources = vec![ImageSource::Data(vec![0, 1, 2, 3])];
    let r = ImageManager::load(sources, (100, 100));
    assert!(matches!(r, Err(CycleError::Decode)));
}

#[test]
fn first_failing_source_decides_the_error() {
    let sources = vec![ImageSource::Missing, ImageSource::Data(vec![0, 1, 2, 3])];
    let r = ImageManager::load(sources, (100, 100));
    assert!(matches!(r, Err(CycleError::NotFound)));
}

#[test]
fn load_resamples_to_target_size() {
    let sources = vec![ImageSource::Data(png_bytes(8, 4))];
    let mut manager = ImageManager::load(sources, (37, 21)).unwrap();
    let shown = manager.tick().unwrap();
    assert_eq!(shown.width(), 37);
    assert_eq!(shown.height(), 21);
}

#[test]
fn from_empty_sequence_rejected() {
    let r = ImageManager::from(Vec::new());
    assert!(matches!(r, Err(CycleError::EmptySequence)));
}

#[test]
fn frame_interval_is_1000_over_fps() {
    assert_eq!(frame_interval_ms(10), Ok(100));
    assert_eq!(frame_interval_ms(3), Ok(333));
    assert_eq!(frame_interval_ms(1), Ok(1000));
    assert_eq!(frame_interval_ms(2000), Ok(0));
}

#[test]
fn zero_fps_rejected_before_any_tick() {
    assert_eq!(frame_interval_ms(0), Err(CycleError::InvalidConfig));
}

use image_classifier::raster::{Raster, SAMPLES_PER_PIXEL};

fn gradient(width: u32, height: u32) -> Vec<u8> {
    let mut samples = Vec::new();
    for y in 0..height {
        for x in 0..width {
            samples.push((x % 256) as u8);
            samples.push((y % 256) as u8);
            samples.push(((x + y) % 256) as u8);
            samples.push(255);
        }
    }
    samples
}

#[test]
fn four_samples_per_pixel() {
    assert_eq!(SAMPLES_PER_PIXEL, 4);
}

#[test]
fn new_accepts_exact_buffer() {
    let img = Raster::new(3, 2, gradient(3, 2)).expect("buffer of 24 samples fits 3 by 2 pixels");
    assert_eq!(img.width(), 3);
    assert_eq!(img.height(), 2);
    assert_eq!(img.samples().len(), 24);
    assert_eq!(img.samples(), &gradient(3, 2));
}

#[test]
fn new_rejects_short_buffer() {
    let mut samples = gradient(3, 2);
    samples.pop();
    assert!(Raster::new(3, 2, samples).is_none());
}

#[test]
fn new_rejects_long_buffer() {
    let mut samples = gradient(3, 2);
    samples.push(0);
    assert!(Raster::new(3, 2, samples).is_none());
}

#[test]
fn new_rejects_rgb_buffer() {
    assert!(Raster::new(2, 2, vec![0; 12]).is_none());
}

#[test]
fn new_accepts_empty_pictures() {
    assert!(Raster::new(0, 0, Vec::new()).is_some());
    assert!(Raster::new(0, 7, Vec::new()).is_some());
    assert!(Raster::new(7, 0, Vec::new()).is_some());
    assert!(Raster::new(0, 0, vec![1]).is_none());
}

#[test]
fn new_rejects_sizes_beyond_any_buffer() {
    assert!(Raster::new(u32::MAX, u32::MAX, vec![0; 4]).is_none());
    assert!(Raster::new(u32::MAX, u32::MAX, Vec::new()).is_none());
}

#[test]
fn sample_reads_row_major_rgba() {
    let img = Raster::new(3, 2, gradient(3, 2)).unwrap();
    for y in 0..2u32 {
        for x in 0..3u32 {
            assert_eq!(img.sample(x, y, 0), x as u8);
            assert_eq!(img.sample(x, y, 1), y as u8);
            assert_eq!(img.sample(x, y, 2), (x + y) as u8);
            assert_eq!(img.sample(x, y, 3), 255);
        }
    }
}

#[test]
fn sample_matches_offset_formula() {
    let samples: Vec<u8> = (0..4 * 5 * 3).map(|i| i as u8).collect();
    let img = Raster::new(5, 3, samples).unwrap();
    assert_eq!(img.sample(0, 0, 0), 0);
    assert_eq!(img.sample(4, 0, 3), 19);
    assert_eq!(img.sample(0, 1, 0), 20);
    assert_eq!(img.sample(2, 2, 1), ((2 * 5 + 2) * 4 + 1) as u8);
    assert_eq!(img.sample(4, 2, 3), 59);
}

#[test]
fn clone_keeps_the_picture() {
    let img = Raster::new(3, 2, gradient(3, 2)).unwrap();
    let copy = img.clone();
    assert_eq!(copy.width(), 3);
    assert_eq!(copy.height(), 2);
    assert_eq!(copy.samples(), img.samples());
}

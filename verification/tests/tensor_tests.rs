use image_classifier::raster::Raster;
use image_classifier::tensor::{can_prepare, prepare_image, Tensor, CHANNELS, SAMPLE_MAX, SIDE};

fn patterned(width: u32, height: u32) -> Raster {
    let mut samples = Vec::new();
    for y in 0..height {
        for x in 0..width {
            samples.push((x % 251) as u8);
            samples.push((y % 241) as u8);
            samples.push(((3 * x + 7 * y) % 256) as u8);
            samples.push(((x * y) % 256) as u8);
        }
    }
    Raster::new(width, height, samples).unwrap()
}

fn planes(t: &Tensor) -> Vec<u8> {
    let mut samples = Vec::with_capacity(CHANNELS * SIDE * SIDE);
    for c in 0..CHANNELS {
        for y in 0..SIDE {
            for x in 0..SIDE {
                samples.push(t.at(c, y, x));
            }
        }
    }
    samples
}

fn solid(width: u32, height: u32, rgba: [u8; 4]) -> Raster {
    let mut samples = Vec::new();
    for _ in 0..(width as usize * height as usize) {
        samples.extend_from_slice(&rgba);
    }
    Raster::new(width, height, samples).unwrap()
}

#[test]
fn network_shape_constants() {
    assert_eq!(SIDE, 224);
    assert_eq!(CHANNELS, 3);
    assert_eq!(SAMPLE_MAX, 255);
}

#[test]
fn shape_is_batch_plane_row_column() {
    assert_eq!(Tensor::shape(), (1, 3, 224, 224));
}

#[test]
fn from_raster_fills_every_cell() {
    let t = Tensor::from_raster(&patterned(224, 224));
    assert_eq!(planes(&t).len(), 150528);
    assert_eq!(t.at(0, 0, 0), 0);
    assert_eq!(t.at(2, 223, 223), ((3 * 223 + 7 * 223) % 256) as u8);
}

#[test]
fn from_raster_puts_planes_first() {
    let img = patterned(224, 224);
    let t = Tensor::from_raster(&img);
    for c in 0..3usize {
        for y in 0..224usize {
            for x in 0..224usize {
                assert_eq!(t.at(c, y, x), img.sample(x as u32, y as u32, c));
            }
        }
    }
}

#[test]
fn from_raster_exact_cells() {
    let t = Tensor::from_raster(&patterned(224, 224));
    assert_eq!(t.at(0, 0, 0), 0);
    assert_eq!(t.at(0, 5, 200), 200);
    assert_eq!(t.at(1, 5, 200), 5);
    assert_eq!(t.at(2, 5, 200), ((3 * 200 + 7 * 5) % 256) as u8);
    assert_eq!(t.at(2, 223, 223), ((3 * 223 + 7 * 223) % 256) as u8);
}

#[test]
fn from_raster_drops_alpha() {
    let opaque = Tensor::from_raster(&solid(224, 224, [10, 20, 30, 255]));
    let clear = Tensor::from_raster(&solid(224, 224, [10, 20, 30, 0]));
    assert_eq!(planes(&opaque), planes(&clear));
}

#[test]
fn from_raster_tells_rows_from_columns() {
    let mut samples = vec![0u8; 4 * 224 * 224];
    samples[(5 * 224 + 9) * 4 + 1] = 77;
    let t = Tensor::from_raster(&Raster::new(224, 224, samples).unwrap());
    assert_eq!(t.at(1, 5, 9), 77);
    assert_eq!(t.at(1, 9, 5), 0);
    assert_eq!(t.at(0, 5, 9), 0);
    assert_eq!(t.at(2, 5, 9), 0);
    assert_eq!(planes(&t).iter().filter(|s| **s != 0).count(), 1);
}

#[test]
fn prepare_image_keeps_a_picture_of_network_size() {
    let img = patterned(224, 224);
    let prepared = prepare_image(&img);
    let direct = Tensor::from_raster(&img);
    assert_eq!(planes(&prepared), planes(&direct));
}

#[test]
fn prepare_image_enlarges_to_network_size() {
    let t = prepare_image(&solid(2, 2, [200, 100, 50, 255]));
    for y in 0..224usize {
        for x in 0..224usize {
            assert_eq!(t.at(0, y, x), 200);
            assert_eq!(t.at(1, y, x), 100);
            assert_eq!(t.at(2, y, x), 50);
        }
    }
}

#[test]
fn prepare_image_shrinks_to_network_size() {
    let t = prepare_image(&solid(500, 300, [1, 2, 3, 4]));
    assert_eq!(t.at(0, 0, 0), 1);
    assert_eq!(t.at(1, 100, 100), 2);
    assert_eq!(t.at(2, 223, 223), 3);
}

#[test]
fn prepare_image_resamples_each_half() {
    let mut samples = Vec::new();
    for _y in 0..448u32 {
        for x in 0..448u32 {
            let v = if x < 224 { 0u8 } else { 255u8 };
            samples.extend_from_slice(&[v, v, v, 255]);
        }
    }
    let img = Raster::new(448, 448, samples).unwrap();
    let t = prepare_image(&img);
    for c in 0..3usize {
        assert_eq!(t.at(c, 112, 10), 0);
        assert_eq!(t.at(c, 112, 213), 255);
    }
}

#[test]
fn prepare_image_of_single_pixel() {
    let t = prepare_image(&solid(1, 1, [9, 8, 7, 6]));
    assert_eq!(t.at(0, 0, 0), 9);
    assert_eq!(t.at(1, 223, 0), 8);
    assert_eq!(t.at(2, 0, 223), 7);
}

#[test]
fn prepare_image_of_picture_without_columns() {
    let img = Raster::new(0, 5, Vec::new()).unwrap();
    assert!(can_prepare(&img));
    let t = prepare_image(&img);
    assert!(planes(&t).iter().all(|s| *s == 0));
}

#[test]
fn prepare_image_of_empty_picture() {
    let img = Raster::new(0, 0, Vec::new()).unwrap();
    assert!(can_prepare(&img));
    let t = prepare_image(&img);
    assert_eq!(planes(&t).len(), 150528);
}

#[test]
fn prepare_image_of_picture_without_rows() {
    let img = Raster::new(5, 0, Vec::new()).unwrap();
    assert!(can_prepare(&img));
    let t = prepare_image(&img);
    assert!(planes(&t).iter().all(|s| *s == 0));
}

#[test]
fn can_prepare_accepts_ordinary_pictures() {
    assert!(can_prepare(&solid(1, 1, [0, 0, 0, 0])));
    assert!(can_prepare(&solid(640, 480, [0, 0, 0, 0])));
    assert!(can_prepare(&solid(224, 224, [0, 0, 0, 0])));
}

#[test]
fn samples_scale_to_unit_interval() {
    let t = Tensor::from_raster(&solid(224, 224, [255, 0, 51, 255]));
    let scale = |s: u8| f32::from(s) / f32::from(SAMPLE_MAX);
    assert_eq!(scale(t.at(0, 0, 0)), 1.0);
    assert_eq!(scale(t.at(1, 0, 0)), 0.0);
    assert_eq!(scale(t.at(2, 0, 0)), 0.2);
}

#[test]
fn tensor_matches_interleaved_formula() {
    let img = patterned(224, 224);
    let mut data = Vec::with_capacity(224 * 224 * 3);
    for y in 0..224u32 {
        for x in 0..224u32 {
            data.push(img.sample(x, y, 0));
            data.push(img.sample(x, y, 1));
            data.push(img.sample(x, y, 2));
        }
    }
    let t = prepare_image(&img);
    for c in 0..3usize {
        for y in (0..224usize).step_by(37) {
            for x in (0..224usize).step_by(41) {
                assert_eq!(t.at(c, y, x), data[(y * 224 + x) * 3 + c]);
            }
        }
    }
}

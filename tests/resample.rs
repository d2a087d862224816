use upscaler::raster::{resample, RasterImage, Resolution};

fn image(width: u32, height: u32, data: Vec<u8>) -> RasterImage {
    RasterImage::from_raw(width, height, data).expect("valid raster")
}

fn pixel(img: &RasterImage, x: u32, y: u32) -> [u8; 3] {
    [img.channel(x, y, 0), img.channel(x, y, 1), img.channel(x, y, 2)]
}

fn gradient(width: u32, height: u32) -> RasterImage {
    let mut data = Vec::new();
    for y in 0..height {
        for x in 0..width {
            data.push((x * 37 + y * 11) as u8);
            data.push((x * 5 + y * 71) as u8);
            data.push((x * y + 3) as u8);
        }
    }
    image(width, height, data)
}

#[test]
fn from_raw_rejects_bad_shapes() {
    assert!(RasterImage::from_raw(0, 2, vec![]).is_none());
    assert!(RasterImage::from_raw(2, 0, vec![]).is_none());
    assert!(RasterImage::from_raw(2, 2, vec![0; 11]).is_none());
    assert!(RasterImage::from_raw(2, 2, vec![0; 13]).is_none());
    assert!(RasterImage::from_raw(2, 2, vec![0; 12]).is_some());
}

#[test]
fn output_has_target_size() {
    let src = gradient(7, 5);
    for &(w, h) in &[(1u32, 1u32), (3, 9), (14, 10), (7, 5), (2, 1), (40, 3)] {
        let out = resample(&src, Resolution { width: w, height: h });
        assert_eq!(out.width, w);
        assert_eq!(out.height, h);
        assert_eq!(out.data.len(), (w * h * 3) as usize);
    }
}

#[test]
fn same_size_is_identity() {
    let src = gradient(9, 6);
    let out = resample(&src, Resolution { width: 9, height: 6 });
    assert_eq!(out.data, src.data);
}

#[test]
fn uniform_colour_stays_uniform() {
    let mut data = Vec::new();
    for _ in 0..(3 * 5) {
        data.extend_from_slice(&[13, 200, 255]);
    }
    let src = image(3, 5, data);
    for &(w, h) in &[(1u32, 1u32), (7, 3), (11, 13), (2, 10)] {
        let out = resample(&src, Resolution { width: w, height: h });
        for y in 0..h {
            for x in 0..w {
                assert_eq!(pixel(&out, x, y), [13, 200, 255]);
            }
        }
    }
}

#[test]
fn centre_of_two_by_two_is_truncated_mean() {
    let src = image(2, 2, vec![1, 10, 255, 2, 20, 254, 3, 30, 0, 5, 41, 1]);
    let out = resample(&src, Resolution { width: 4, height: 4 });
    // (1+2+3+5)/4 = 2.75, (10+20+30+41)/4 = 25.25, (255+254+0+1)/4 = 127.5
    assert_eq!(pixel(&out, 1, 1), [2, 25, 127]);
    let out = resample(&src, Resolution { width: 8, height: 12 });
    assert_eq!(pixel(&out, 2, 3), [2, 25, 127]);
}

#[test]
fn horizontal_blend_values() {
    let src = image(2, 1, vec![0, 0, 0, 100, 200, 255]);
    let out = resample(&src, Resolution { width: 4, height: 1 });
    assert_eq!(pixel(&out, 0, 0), [0, 0, 0]);
    assert_eq!(pixel(&out, 1, 0), [50, 100, 127]);
    assert_eq!(pixel(&out, 2, 0), [100, 200, 255]);
    assert_eq!(pixel(&out, 3, 0), [100, 200, 255]);
}

#[test]
fn quarter_weights_blend() {
    // source 2x2, target 8x8: pixel (1, 3) sits at (0.25, 0.75)
    let src = image(2, 2, vec![0, 0, 0, 80, 0, 0, 0, 160, 0, 0, 0, 240]);
    let out = resample(&src, Resolution { width: 8, height: 8 });
    // red: 80 * 0.25 * 0.25 = 5; green: 160 * 0.75 * 0.75 = 90; blue: 240 * 0.25 * 0.75 = 45
    assert_eq!(pixel(&out, 1, 3), [5, 90, 45]);
}

#[test]
fn downscale_samples_top_left() {
    let src = gradient(8, 8);
    let out = resample(&src, Resolution { width: 4, height: 4 });
    for y in 0..4 {
        for x in 0..4 {
            assert_eq!(pixel(&out, x, y), pixel(&src, 2 * x, 2 * y));
        }
    }
}

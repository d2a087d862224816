use upscaler::batch::{aggregate, BatchError, FrameFailure};
use upscaler::codec::{decode_frame, encode_frame, process_frame, FrameError};
use upscaler::raster::{RasterImage, Resolution};

fn png_of(width: u32, height: u32, data: Vec<u8>) -> Vec<u8> {
    let img = RasterImage::from_raw(width, height, data).expect("valid raster");
    encode_frame(&img).expect("encodable")
}

fn checker() -> Vec<u8> {
    png_of(2, 2, vec![255, 0, 0, 0, 255, 0, 0, 0, 255, 255, 255, 255])
}

#[test]
fn encode_then_decode_gives_pixels_back() {
    let data = vec![1, 2, 3, 4, 5, 6, 7, 8, 9, 10, 11, 12, 13, 14, 15, 16, 17, 18];
    let bytes = png_of(3, 2, data.clone());
    assert_eq!(&bytes[1..4], b"PNG");
    let img = decode_frame(&bytes).expect("decodes");
    assert_eq!((img.width, img.height), (3, 2));
    assert_eq!(img.data, data);
}

#[test]
fn corrupt_bytes_fail_to_decode() {
    assert!(matches!(decode_frame(b"not an image"), Err(FrameError::Decode)));
    assert!(matches!(decode_frame(&[]), Err(FrameError::Decode)));
    let mut truncated = checker();
    truncated.truncate(20);
    assert!(matches!(decode_frame(&truncated), Err(FrameError::Decode)));
}

#[test]
fn process_frame_resizes() {
    let out = process_frame(&checker(), Resolution { width: 4, height: 4 }).expect("processed");
    assert_ne!(out, checker());
    let img = decode_frame(&out).expect("decodes");
    assert_eq!((img.width, img.height), (4, 4));
    assert_eq!([img.channel(0, 0, 0), img.channel(0, 0, 1), img.channel(0, 0, 2)], [255, 0, 0]);
    // (255+0+0+255)/4, (0+255+0+255)/4, (0+0+255+255)/4
    assert_eq!([img.channel(1, 1, 0), img.channel(1, 1, 1), img.channel(1, 1, 2)], [127, 127, 127]);
}

#[test]
fn process_frame_drops_alpha() {
    let rgba = image_rgba_png();
    let out = process_frame(&rgba, Resolution { width: 1, height: 1 }).expect("processed");
    let img = decode_frame(&out).expect("decodes");
    assert_eq!(img.data, vec![9, 8, 7]);
}

fn image_rgba_png() -> Vec<u8> {
    let buf = image::RgbaImage::from_raw(1, 1, vec![9, 8, 7, 100]).unwrap();
    let mut out = std::io::Cursor::new(Vec::new());
    buf.write_to(&mut out, image::ImageFormat::Png).unwrap();
    out.into_inner()
}

#[test]
fn process_frame_is_deterministic() {
    let target = Resolution { width: 17, height: 9 };
    let a = process_frame(&checker(), target).expect("processed");
    let b = process_frame(&checker(), target).expect("processed");
    assert_eq!(a, b);
}

#[test]
fn corrupt_frames_are_each_reported() {
    let inputs: Vec<(String, Vec<u8>)> = vec![
        ("frame_0001.png".to_string(), checker()),
        ("frame_0002.png".to_string(), b"garbage".to_vec()),
        ("frame_0003.png".to_string(), checker()),
        ("frame_0004.png".to_string(), vec![0x89, b'P', b'N', b'G']),
    ];
    let target = Resolution { width: 3, height: 3 };
    let mut failures = Vec::new();
    let mut written = Vec::new();
    for (name, bytes) in &inputs {
        match process_frame(bytes, target) {
            Ok(out) => written.push(out),
            Err(e) => failures.push(FrameFailure::from_frame_error(e, &format!("in/{name}"), &format!("out/{name}"))),
        }
    }
    assert_eq!(written.len(), 2);
    for out in &written {
        let img = decode_frame(out).unwrap();
        assert_eq!((img.width, img.height), (3, 3));
    }
    match aggregate(&failures) {
        Err(BatchError::Aggregate(text)) => {
            assert_eq!(text.lines().count(), 2);
            assert_eq!(text, "Failed to load image: in/frame_0002.png\nFailed to load image: in/frame_0004.png");
        }
        other => panic!("unexpected outcome {other:?}"),
    }
}

#[test]
fn aggregate_of_nothing_is_success() {
    assert!(aggregate(&Vec::new()).is_ok());
}

#[test]
fn aggregate_single_and_mixed() {
    let one = vec![FrameFailure::Save("out/a.png".to_string())];
    match aggregate(&one) {
        Err(BatchError::Aggregate(t)) => assert_eq!(t, "Failed to save upscaled frame: out/a.png"),
        other => panic!("unexpected outcome {other:?}"),
    }
    let mixed = vec![
        FrameFailure::Load("in/b.png".to_string()),
        FrameFailure::Save("out/c.png".to_string()),
        FrameFailure::Load("in/d.png".to_string()),
    ];
    let err = aggregate(&mixed).unwrap_err();
    assert_eq!(
        err.message(),
        "Failed to load image: in/b.png\nFailed to save upscaled frame: out/c.png\nFailed to load image: in/d.png"
    );
}

#[test]
fn failure_messages_and_kinds() {
    let f = FrameFailure::from_frame_error(FrameError::Decode, "src/x.png", "dst/x.png");
    assert_eq!(f.message(), "Failed to load image: src/x.png");
    let f = FrameFailure::from_frame_error(FrameError::Encode, "src/x.png", "dst/x.png");
    assert_eq!(f.message(), "Failed to save upscaled frame: dst/x.png");
    let d = BatchError::DirectoryRead("No such file or directory".to_string());
    assert_eq!(d.message(), "Failed to read frames directory: No such file or directory");
}

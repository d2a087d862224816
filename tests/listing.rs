use upscaler::ffmpeg::Ffmpeg;
use upscaler::scan::{is_png_name, scan_frames, select_frames};

fn entries(items: &[(&str, bool)]) -> Vec<(String, bool)> {
    items.iter().map(|(n, f)| (n.to_string(), *f)).collect()
}

#[test]
fn png_extension_rules() {
    assert!(is_png_name("frame_0001.png"));
    assert!(is_png_name("a.png"));
    assert!(is_png_name("a.b.png"));
    assert!(!is_png_name(".png"));
    assert!(!is_png_name("png"));
    assert!(!is_png_name("frame.PNG"));
    assert!(!is_png_name("frame.png.txt"));
    assert!(!is_png_name("frame.jpg"));
    assert!(!is_png_name(""));
}

#[test]
fn select_keeps_png_files_in_order() {
    let listing = entries(&[
        ("b.png", true),
        ("notes.txt", true),
        ("dir.png", false),
        ("a.png", true),
        (".png", true),
    ]);
    assert_eq!(select_frames(&listing), vec!["b.png".to_string(), "a.png".to_string()]);
}

#[test]
fn scan_sorts_by_name() {
    let listing = entries(&[
        ("frame_0003.png", true),
        ("frame_0001.png", true),
        ("audio.aac", true),
        ("frame_0002.png", true),
    ]);
    assert_eq!(
        scan_frames(&listing),
        vec!["frame_0001.png".to_string(), "frame_0002.png".to_string(), "frame_0003.png".to_string()]
    );
    assert!(scan_frames(&Vec::new()).is_empty());
}

#[test]
fn tool_arguments() {
    let f = Ffmpeg::new("error");
    assert_eq!(f.verbosity, "error");
    assert_eq!(
        f.extract_frames_args("in.mp4", "/tmp/frames"),
        vec!["-v", "error", "-i", "in.mp4", "/tmp/frames/frame_%04d.png"]
    );
    assert_eq!(
        f.extract_audio_args("in.mp4", "/tmp/a.aac"),
        vec!["-v", "error", "-i", "in.mp4", "-b:a", "192K", "-ac", "2", "-ar", "44.1k", "/tmp/a.aac"]
    );
    assert_eq!(
        f.reassemble_video_args("/tmp/up", "/tmp/a.aac", "/tmp/out.mp4", "29.97"),
        vec![
            "-v", "error", "-framerate", "29.97", "-i", "/tmp/up/frame_%04d.png", "-i", "/tmp/a.aac",
            "-c:v", "libx264", "-c:a", "aac", "-s:v", "3840x2160", "-pix_fmt", "yuv420p", "/tmp/out.mp4"
        ]
    );
}

use crate::string_views;
use vstd::prelude::*;

verus! {

/// The settings handed to the external encoder tool, and the argument lists
/// for each of its runs.
pub struct Ffmpeg {
    pub verbosity: String,
}

/// The input pattern of numbered frame files in directory `dir`.
pub open spec fn frame_pattern(dir: Seq<char>) -> Seq<char> {
    dir + "/frame_%04d.png"@
}

fn frame_pattern_of(dir: &str) -> (r: String)
    ensures
        r@ == frame_pattern(dir@),
{
    String::from_str(dir).concat("/frame_%04d.png")
}

impl Ffmpeg {
    /// A tool runner that logs at the given verbosity level.
    pub fn new(verbosity: &str) -> (r: Ffmpeg)
        ensures
            r.verbosity@ == verbosity@,
    {
        Ffmpeg { verbosity: String::from_str(verbosity) }
    }

    /// Arguments that split `input_file` into numbered PNG frames in `frames_dir`.
    pub fn extract_frames_args(&self, input_file: &str, frames_dir: &str) -> (r: Vec<String>)
        ensures
            string_views(r@) == seq!["-v"@, self.verbosity@, "-i"@, input_file@, frame_pattern(frames_dir@)],
    {
        let mut args: Vec<String> = Vec::new();
        args.push(String::from_str("-v"));
        args.push(self.verbosity.clone());
        args.push(String::from_str("-i"));
        args.push(String::from_str(input_file));
        args.push(frame_pattern_of(frames_dir));
        assert(string_views(args@) =~= seq!["-v"@, self.verbosity@, "-i"@, input_file@, frame_pattern(frames_dir@)]);
        args
    }

    /// Arguments that write the audio track of `input_file` to `audio_path`
    /// as 192 kbit/s stereo at 44.1 kHz.
    pub fn extract_audio_args(&self, input_file: &str, audio_path: &str) -> (r: Vec<String>)
        ensures
            string_views(r@) == seq![
                "-v"@, self.verbosity@, "-i"@, input_file@, "-b:a"@, "192K"@, "-ac"@, "2"@,
                "-ar"@, "44.1k"@, audio_path@,
            ],
    {
        let mut args: Vec<String> = Vec::new();
        args.push(String::from_str("-v"));
        args.push(self.verbosity.clone());
        args.push(String::from_str("-i"));
        args.push(String::from_str(input_file));
        args.push(String::from_str("-b:a"));
        args.push(String::from_str("192K"));
        args.push(String::from_str("-ac"));
        args.push(String::from_str("2"));
        args.push(String::from_str("-ar"));
        args.push(String::from_str("44.1k"));
        args.push(String::from_str(audio_path));
        assert(string_views(args@) =~= seq![
            "-v"@, self.verbosity@, "-i"@, input_file@, "-b:a"@, "192K"@, "-ac"@, "2"@,
            "-ar"@, "44.1k"@, audio_path@,
        ]);
        args
    }

    /// Arguments that join the numbered frames in `frames_dir` at `framerate`
    /// (its decimal text) with the audio at `audio_path` into an H.264/AAC video
    /// at `output_path`.
    pub fn reassemble_video_args(
        &self,
        frames_dir: &str,
        audio_path: &str,
        output_path: &str,
        framerate: &str,
    ) -> (r: Vec<String>)
        ensures
            string_views(r@) == seq![
                "-v"@, self.verbosity@, "-framerate"@, framerate@, "-i"@, frame_pattern(frames_dir@),
                "-i"@, audio_path@, "-c:v"@, "libx264"@, "-c:a"@, "aac"@, "-s:v"@, "3840x2160"@,
                "-pix_fmt"@, "yuv420p"@, output_path@,
            ],
    {
        let mut args: Vec<String> = Vec::new();
        args.push(String::from_str("-v"));
        args.push(self.verbosity.clone());
        args.push(String::from_str("-framerate"));
        args.push(String::from_str(framerate));
        args.push(String::from_str("-i"));
        args.push(frame_pattern_of(frames_dir));
        args.push(String::from_str("-i"));
        args.push(String::from_str(audio_path));
        args.push(String::from_str("-c:v"));
        args.push(String::from_str("libx264"));
        args.push(String::from_str("-c:a"));
        args.push(String::from_str("aac"));
        args.push(String::from_str("-s:v"));
        args.push(String::from_str("3840x2160"));
        args.push(String::from_str("-pix_fmt"));
        args.push(String::from_str("yuv420p"));
        args.push(String::from_str(output_path));
        assert(string_views(args@) =~= seq![
            "-v"@, self.verbosity@, "-framerate"@, framerate@, "-i"@, frame_pattern(frames_dir@),
            "-i"@, audio_path@, "-c:v"@, "libx264"@, "-c:a"@, "aac"@, "-s:v"@, "3840x2160"@,
            "-pix_fmt"@, "yuv420p"@, output_path@,
        ]);
        args
    }
}

} // verus!

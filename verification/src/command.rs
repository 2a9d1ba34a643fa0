//! The settings of a run.

use vstd::prelude::*;

verus! {

/// Audio clip length used when none is given, in seconds.
pub const DEFAULT_CLIP_LENGTH: usize = 20;

/// What a run is started with.
#[derive(Debug)]
pub struct Args {
    /// Path to the input video file.
    pub input: String,
    /// Width of the output, in pixels.
    pub width: u32,
    /// Height of the output, in pixels.
    pub height: u32,
    /// Host name under which clients reach this machine.
    pub local_url: String,
    /// Length of an audio clip, in seconds.
    pub clip_length: usize,
}

impl Args {
    /// Settings for showing `input` at `width` by `height` pixels, served
    /// from `localhost` with clips of the default length.
    pub fn new(input: String, width: u32, height: u32) -> (args: Args)
        ensures
            args.input == input,
            args.width == width,
            args.height == height,
            args.local_url@ == "localhost"@,
            args.clip_length == DEFAULT_CLIP_LENGTH,
    {
        Args {
            input,
            width,
            height,
            local_url: "localhost".to_owned(),
            clip_length: DEFAULT_CLIP_LENGTH,
        }
    }

    /// Whether playback can be set up from these settings: audio clips
    /// must have a length.
    pub fn playable(&self) -> (ok: bool)
        ensures
            ok == (self.clip_length > 0),
    {
        self.clip_length > 0
    }
}

} // verus!

//! The command-line surface, as plain data: which converter and decoder to
//! run, where the input is, how many frames to take and whether to save the
//! results. Argument parsing itself happens outside the library; this is
//! the parsed shape.

use vstd::prelude::*;
use crate::converters::ConversionMode;
use crate::decoders::DecoderType;

verus! {

/// One run's configuration.
pub struct Cli {
    /// The conversion implementation to run, if one was selected.
    pub converter: Option<ConversionMode>,
    /// Path of the input video file.
    pub input: String,
    /// How many frames to extract; zero extracts every sampled frame.
    pub frames: u32,
    /// Sampled frames per second; zero extracts every decoded frame.
    pub fps: u32,
    /// The decoder to extract with.
    pub decoder: DecoderType,
    /// Whether converted frames are written out as images.
    pub save_images: bool,
    /// Directory the images are written to.
    pub output: String,
    /// Whether to list the available modes and exit.
    pub list_modes: bool,
    /// Whether to show detailed decoder logging.
    pub verbose: bool,
}

} // verus!

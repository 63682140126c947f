//! Requests on `.wav` audio: converting it to `.prtgn_wav` text and playing
//! such text back.

use vstd::prelude::*;
use crate::convert::{plan, plan_steps, step_views, encoding_files, decoding_files, encoding_source, encoding_target, decoding_source, decoding_target, ConversionFiles, Step};

verus! {

/// The audio extension, `.wav`.
pub open spec fn wav_ext() -> Seq<char> {
    seq!['.', 'w', 'a', 'v']
}

/// The text extension, `.prtgn_wav`.
pub open spec fn prtgn_wav_ext() -> Seq<char> {
    seq!['.', 'p', 'r', 't', 'g', 'n', '_', 'w', 'a', 'v']
}

/// The audio extension.
pub fn wav_extension() -> (r: &'static str)
    ensures
        r@ == wav_ext(),
{
    proof {
        reveal_strlit(".wav");
    }
    ".wav"
}

/// The text extension.
pub fn prtgn_wav_extension() -> (r: &'static str)
    ensures
        r@ == prtgn_wav_ext(),
{
    proof {
        reveal_strlit(".prtgn_wav");
    }
    ".prtgn_wav"
}

/// The conversions that the `wav` command asks for on `filename`: a
/// `.prtgn_wav` file is played; otherwise it converts when `convert`, and
/// plays when `play` or when neither is given; given both, it converts and
/// then plays `filename` with `.prtgn_wav` appended.
pub fn wav(filename: String, convert: bool, play: bool) -> (steps: Vec<Step>)
    ensures
        step_views(steps@) == plan(filename@, convert, play, wav_ext(), prtgn_wav_ext()),
{
    plan_steps(filename, convert, play, wav_extension(), prtgn_wav_extension())
}

/// The files of converting `filename` from `.wav` to `.prtgn_wav`.
pub fn wav_to_prtgn_files(filename: &str) -> (r: ConversionFiles)
    ensures
        r.source@ == encoding_source(filename@, wav_ext()),
        r.target@ == encoding_target(filename@, wav_ext(), prtgn_wav_ext()),
{
    encoding_files(filename, wav_extension(), prtgn_wav_extension())
}

/// The files of converting `filename` from `.prtgn_wav` back to `.wav`.
pub fn prtgn_to_wav_files(filename: &str) -> (r: ConversionFiles)
    ensures
        r.source@ == decoding_source(filename@, prtgn_wav_ext()),
        r.target@ == decoding_target(filename@, wav_ext(), prtgn_wav_ext()),
{
    decoding_files(filename, wav_extension(), prtgn_wav_extension())
}

} // verus!

//! Requests on `.flac` audio: converting it to `.prtgn_flac` text and playing
//! such text back.

use vstd::prelude::*;
use crate::convert::{plan, plan_steps, step_views, encoding_files, decoding_files, encoding_source, encoding_target, decoding_source, decoding_target, ConversionFiles, Step};

verus! {

/// The audio extension, `.flac`.
pub open spec fn flac_ext() -> Seq<char> {
    seq!['.', 'f', 'l', 'a', 'c']
}

/// The text extension, `.prtgn_flac`.
pub open spec fn prtgn_flac_ext() -> Seq<char> {
    seq!['.', 'p', 'r', 't', 'g', 'n', '_', 'f', 'l', 'a', 'c']
}

/// The audio extension.
pub fn flac_extension() -> (r: &'static str)
    ensures
        r@ == flac_ext(),
{
    proof {
        reveal_strlit(".flac");
    }
    ".flac"
}

/// The text extension.
pub fn prtgn_flac_extension() -> (r: &'static str)
    ensures
        r@ == prtgn_flac_ext(),
{
    proof {
        reveal_strlit(".prtgn_flac");
    }
    ".prtgn_flac"
}

/// The conversions that the `flac` command asks for on `filename`: a
/// `.prtgn_flac` file is played; otherwise it converts when `convert`, and
/// plays when `play` or when neither is given; given both, it converts and
/// then plays `filename` with `.prtgn_flac` appended.
pub fn flac(filename: String, convert: bool, play: bool) -> (steps: Vec<Step>)
    ensures
        step_views(steps@) == plan(filename@, convert, play, flac_ext(), prtgn_flac_ext()),
{
    plan_steps(filename, convert, play, flac_extension(), prtgn_flac_extension())
}

/// The files of converting `filename` from `.flac` to `.prtgn_flac`.
pub fn flac_to_prtgn_files(filename: &str) -> (r: ConversionFiles)
    ensures
        r.source@ == encoding_source(filename@, flac_ext()),
        r.target@ == encoding_target(filename@, flac_ext(), prtgn_flac_ext()),
{
    encoding_files(filename, flac_extension(), prtgn_flac_extension())
}

/// The files of converting `filename` from `.prtgn_flac` back to `.flac`.
pub fn prtgn_to_flac_files(filename: &str) -> (r: ConversionFiles)
    ensures
        r.source@ == decoding_source(filename@, prtgn_flac_ext()),
        r.target@ == decoding_target(filename@, flac_ext(), prtgn_flac_ext()),
{
    decoding_files(filename, flac_extension(), prtgn_flac_extension())
}

} // verus!

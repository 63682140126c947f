//! Which files a conversion reads and writes, and which conversions a
//! request asks for. Audio files (`.wav`, `.flac`) are converted to text
//! files with a `.prtgn_` extension and back.

use vstd::prelude::*;
use crate::text::{ends_with, with_suffix, without_suffix, str_ends_with, with_suffix_string, without_suffix_string};

verus! {

/// The file a conversion reads and the file it writes.
pub struct ConversionFiles {
    pub source: String,
    pub target: String,
}

/// The audio file that converting `name` to text reads: `name` with the
/// audio extension `ext` unless it has it.
pub open spec fn encoding_source(name: Seq<char>, ext: Seq<char>) -> Seq<char> {
    with_suffix(name, ext)
}

/// The text file that converting `name` to text writes: `name` without the
/// audio extension, with the text extension `prtgn_ext` unless it has it.
pub open spec fn encoding_target(name: Seq<char>, ext: Seq<char>, prtgn_ext: Seq<char>) -> Seq<char> {
    with_suffix(without_suffix(name, ext), prtgn_ext)
}

/// The text file that converting `name` back to audio reads.
pub open spec fn decoding_source(name: Seq<char>, prtgn_ext: Seq<char>) -> Seq<char> {
    with_suffix(name, prtgn_ext)
}

/// The audio file that converting `name` back to audio writes.
pub open spec fn decoding_target(name: Seq<char>, ext: Seq<char>, prtgn_ext: Seq<char>) -> Seq<char> {
    with_suffix(without_suffix(name, prtgn_ext), ext)
}

/// The files of converting the audio file `name` to text.
pub fn encoding_files(name: &str, ext: &str, prtgn_ext: &str) -> (r: ConversionFiles)
    ensures
        r.source@ == encoding_source(name@, ext@),
        r.target@ == encoding_target(name@, ext@, prtgn_ext@),
{
    let source = with_suffix_string(name, ext);
    let stem = without_suffix_string(name, ext);
    let target = with_suffix_string(stem.as_str(), prtgn_ext);
    ConversionFiles { source, target }
}

/// The files of converting the text file `name` back to audio.
pub fn decoding_files(name: &str, ext: &str, prtgn_ext: &str) -> (r: ConversionFiles)
    ensures
        r.source@ == decoding_source(name@, prtgn_ext@),
        r.target@ == decoding_target(name@, ext@, prtgn_ext@),
{
    let source = with_suffix_string(name, prtgn_ext);
    let stem = without_suffix_string(name, prtgn_ext);
    let target = with_suffix_string(stem.as_str(), ext);
    ConversionFiles { source, target }
}

/// The direction of a conversion.
#[derive(Debug, Clone, Copy, PartialEq, Eq, Structural)]
pub enum StepKind {
    /// Audio to text.
    ToPrtgn,
    /// Text back to audio, then playback.
    FromPrtgn,
}

/// One conversion of a request, with the name it is given.
pub struct Step {
    pub kind: StepKind,
    pub file: String,
}

/// The kinds and names of steps.
pub open spec fn step_views(steps: Seq<Step>) -> Seq<(StepKind, Seq<char>)> {
    steps.map_values(|s: Step| (s.kind, s.file@))
}

/// The conversions that a request on `name` asks for: a text file is played;
/// otherwise converting when `convert`, and playing when `play` or when
/// nothing is asked. When both are asked, the audio file is converted and
/// then `name` with the text extension appended is played.
pub open spec fn plan(name: Seq<char>, convert: bool, play: bool, ext: Seq<char>, prtgn_ext: Seq<char>) -> Seq<(StepKind, Seq<char>)> {
    if ends_with(name, prtgn_ext) {
        seq![(StepKind::FromPrtgn, name)]
    } else if convert && play {
        seq![
            (StepKind::ToPrtgn, with_suffix(name, ext)),
            (StepKind::FromPrtgn, name + prtgn_ext),
        ]
    } else if convert {
        seq![(StepKind::ToPrtgn, with_suffix(name, ext))]
    } else {
        seq![(StepKind::FromPrtgn, name + prtgn_ext)]
    }
}

/// The conversions that a request on `name` asks for.
pub fn plan_steps(name: String, convert: bool, play: bool, ext: &str, prtgn_ext: &str) -> (r: Vec<Step>)
    ensures
        step_views(r@) == plan(name@, convert, play, ext@, prtgn_ext@),
{
    let mut steps: Vec<Step> = Vec::new();
    if str_ends_with(name.as_str(), prtgn_ext) {
        steps.push(Step { kind: StepKind::FromPrtgn, file: name });
    } else {
        if convert {
            let audio = with_suffix_string(name.as_str(), ext);
            steps.push(Step { kind: StepKind::ToPrtgn, file: audio });
        }
        if play || !convert {
            let text = with_suffix_string(name.as_str(), prtgn_ext);
            steps.push(Step { kind: StepKind::FromPrtgn, file: text });
        }
    }
    assert(step_views(steps@) =~= plan(name@, convert, play, ext@, prtgn_ext@));
    steps
}

/// Appending a suffix that is there already changes nothing.
pub proof fn lemma_with_suffix_ends(s: Seq<char>, suffix: Seq<char>)
    ensures
        ends_with(with_suffix(s, suffix), suffix),
        with_suffix(with_suffix(s, suffix), suffix) == with_suffix(s, suffix),
{
    if !ends_with(s, suffix) {
        assert((s + suffix).skip(s.len() as int) =~= suffix);
    }
}

/// Removing a suffix just appended gives the name back.
pub proof fn lemma_without_appended(s: Seq<char>, suffix: Seq<char>)
    ensures
        without_suffix(s + suffix, suffix) == s,
{
    assert((s + suffix).skip(s.len() as int) =~= suffix);
    assert((s + suffix).take(s.len() as int) =~= s);
}

/// The text file that a conversion writes is the one that playing it back
/// reads: conversion names its output so that playback finds it.
pub proof fn lemma_playback_reads_conversion(name: Seq<char>, ext: Seq<char>, prtgn_ext: Seq<char>)
    ensures
        decoding_source(encoding_target(name, ext, prtgn_ext), prtgn_ext) == encoding_target(name, ext, prtgn_ext),
{
    lemma_with_suffix_ends(without_suffix(name, ext), prtgn_ext);
}

/// Converting to text and back restores the audio file's name, when the name
/// without its audio extension ends in neither extension.
pub proof fn lemma_names_round_trip(name: Seq<char>, ext: Seq<char>, prtgn_ext: Seq<char>)
    requires
        !ends_with(without_suffix(name, ext), ext),
        !ends_with(without_suffix(name, ext), prtgn_ext),
    ensures
        decoding_target(encoding_target(name, ext, prtgn_ext), ext, prtgn_ext) == encoding_source(name, ext),
{
    let stem = without_suffix(name, ext);
    lemma_without_appended(stem, prtgn_ext);
    if ends_with(name, ext) {
        assert(stem + ext =~= name);
    }
}

/// Asked to convert and play a name that carries neither extension, the
/// request converts it and then plays the very text file that the
/// conversion wrote.
pub proof fn lemma_convert_then_play(name: Seq<char>, ext: Seq<char>, prtgn_ext: Seq<char>)
    requires
        !ends_with(name, ext),
        !ends_with(name, prtgn_ext),
    ensures
        plan(name, true, true, ext, prtgn_ext).len() == 2,
        plan(name, true, true, ext, prtgn_ext)[0].0 == StepKind::ToPrtgn,
        plan(name, true, true, ext, prtgn_ext)[1].0 == StepKind::FromPrtgn,
        decoding_source(plan(name, true, true, ext, prtgn_ext)[1].1, prtgn_ext)
            == encoding_target(plan(name, true, true, ext, prtgn_ext)[0].1, ext, prtgn_ext),
{
    lemma_without_appended(name, ext);
    lemma_with_suffix_ends(name, prtgn_ext);
}

/// What a request does: playing a text file; otherwise converting exactly
/// when asked to, and playing when asked to or when asked for nothing,
/// converting first when both are asked.
pub proof fn lemma_plan_kinds(name: Seq<char>, convert: bool, play: bool, ext: Seq<char>, prtgn_ext: Seq<char>)
    ensures
        ends_with(name, prtgn_ext) ==> plan(name, convert, play, ext, prtgn_ext) == seq![(StepKind::FromPrtgn, name)],
        !ends_with(name, prtgn_ext) ==> {
            let p = plan(name, convert, play, ext, prtgn_ext);
            &&& p.len() == (if convert && play { 2int } else { 1int })
            &&& convert ==> p[0].0 == StepKind::ToPrtgn
            &&& (play || !convert) ==> p.last().0 == StepKind::FromPrtgn
            &&& forall|i: int| 0 <= i < p.len() && p[i].0 == StepKind::ToPrtgn ==> ends_with(p[i].1, ext)
            &&& forall|i: int| 0 <= i < p.len() && p[i].0 == StepKind::FromPrtgn ==> ends_with(p[i].1, prtgn_ext)
        },
{
    lemma_with_suffix_ends(name, ext);
    lemma_with_suffix_ends(name, prtgn_ext);
}

} // verus!

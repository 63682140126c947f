use prtgn::convert::{Step, StepKind};
use prtgn::flac::{flac, flac_to_prtgn_files, prtgn_to_flac_files};
use prtgn::init::init;
use prtgn::init::text_editor::{editor, EditorError};
use prtgn::init::wav_converter::wav_to_prtgn;
use prtgn::wav::{prtgn_to_wav_files, wav, wav_to_prtgn_files};

fn kinds(steps: &[Step]) -> Vec<(StepKind, String)> {
    steps.iter().map(|s| (s.kind, s.file.clone())).collect()
}

#[test]
fn wav_requests() {
    assert_eq!(kinds(&wav("a.prtgn_wav".into(), true, true)), vec![(StepKind::FromPrtgn, "a.prtgn_wav".into())]);
    assert_eq!(
        kinds(&wav("a".into(), true, true)),
        vec![(StepKind::ToPrtgn, "a.wav".into()), (StepKind::FromPrtgn, "a.prtgn_wav".into())]
    );
    assert_eq!(
        kinds(&wav("a.wav".into(), true, true)),
        vec![(StepKind::ToPrtgn, "a.wav".into()), (StepKind::FromPrtgn, "a.wav.prtgn_wav".into())]
    );
    assert_eq!(kinds(&wav("a.wav".into(), true, false)), vec![(StepKind::ToPrtgn, "a.wav".into())]);
    assert_eq!(kinds(&wav("a".into(), false, true)), vec![(StepKind::FromPrtgn, "a.prtgn_wav".into())]);
    assert_eq!(kinds(&wav("a".into(), false, false)), vec![(StepKind::FromPrtgn, "a.prtgn_wav".into())]);
}

#[test]
fn flac_requests() {
    assert_eq!(kinds(&flac("b.prtgn_flac".into(), false, false)), vec![(StepKind::FromPrtgn, "b.prtgn_flac".into())]);
    assert_eq!(
        kinds(&flac("b".into(), true, true)),
        vec![(StepKind::ToPrtgn, "b.flac".into()), (StepKind::FromPrtgn, "b.prtgn_flac".into())]
    );
    assert_eq!(kinds(&flac("b.flac".into(), true, false)), vec![(StepKind::ToPrtgn, "b.flac".into())]);
    assert_eq!(
        kinds(&flac("song.flac".into(), true, true)),
        vec![(StepKind::ToPrtgn, "song.flac".into()), (StepKind::FromPrtgn, "song.flac.prtgn_flac".into())]
    );
}

#[test]
fn conversion_file_names() {
    let f = wav_to_prtgn_files("song");
    assert_eq!((f.source.as_str(), f.target.as_str()), ("song.wav", "song.prtgn_wav"));
    let f = wav_to_prtgn_files("song.wav");
    assert_eq!((f.source.as_str(), f.target.as_str()), ("song.wav", "song.prtgn_wav"));
    let g = prtgn_to_wav_files(&f.target);
    assert_eq!((g.source.as_str(), g.target.as_str()), ("song.prtgn_wav", "song.wav"));
    let g = prtgn_to_wav_files("song");
    assert_eq!((g.source.as_str(), g.target.as_str()), ("song.prtgn_wav", "song.wav"));
    let f = flac_to_prtgn_files("x.flac");
    assert_eq!((f.source.as_str(), f.target.as_str()), ("x.flac", "x.prtgn_flac"));
    let g = prtgn_to_flac_files(&f.target);
    assert_eq!((g.source.as_str(), g.target.as_str()), ("x.prtgn_flac", "x.flac"));
}

#[test]
fn convert_then_play_reads_written_file() {
    for name in ["tune", "a.b", "dir/x"] {
        let steps = wav(name.into(), true, true);
        let written = wav_to_prtgn_files(&steps[0].file).target;
        let read = prtgn_to_wav_files(&steps[1].file).source;
        assert_eq!(written, read, "{}", name);
    }
}

#[test]
fn init_names() {
    assert_eq!(init("notes".into()), "notes.prtgn");
    assert_eq!(init("notes.prtgn".into()), "notes.prtgn");
    assert_eq!(editor(init("".into())).unwrap(), vec![".prtgn".to_string()]);
}

#[test]
fn editor_paths() {
    assert_eq!(editor(" a.prtgn  b.prtgn ".into()).unwrap(), vec!["a.prtgn".to_string(), "b.prtgn".to_string()]);
    assert_eq!(editor(init("my notes".into())).unwrap(), vec!["my".to_string(), "notes.prtgn".to_string()]);
    assert_eq!(editor(" \t ".into()).unwrap_err(), EditorError::Usage);
}

#[test]
fn init_wav_conversion_does_nothing() {
    assert!(wav_to_prtgn("x.wav".into()).is_ok());
}

use prtgn::audio_text::{decode_audio_text, encode_audio_text, AudioTextError};
use prtgn::decimal::{int_error_message, decimal_chars, padded2_chars, parse_unsigned_chars, IntErrorKind};
use prtgn::text::chars_of;

fn strings(v: &[&str]) -> Vec<String> {
    v.iter().map(|s| s.to_string()).collect()
}

#[test]
fn encode_exact() {
    let text = encode_audio_text(2, 44100, &strings(&["0", "0.25", "-0.5"]));
    assert_eq!(text, "2 44100 0 0.25 -0.5");
}

#[test]
fn round_trip() {
    let samples: Vec<String> = [0.0f32, 0.125, -1.0, 3.5e-8].iter().map(|s| s.to_string()).collect();
    let text = encode_audio_text(1, 48000, &samples);
    let back = decode_audio_text(&text).unwrap();
    assert_eq!(back.channels, 1);
    assert_eq!(back.sample_rate, 48000);
    assert_eq!(back.samples, samples);
    let parsed: Vec<f32> = back.samples.iter().filter_map(|s| s.parse::<f32>().ok()).collect();
    assert_eq!(parsed, vec![0.0f32, 0.125, -1.0, 3.5e-8]);
}

#[test]
fn round_trip_without_samples() {
    let text = encode_audio_text(65535, 4294967295, &Vec::new());
    assert_eq!(text, "65535 4294967295 ");
    let back = decode_audio_text(&text).unwrap();
    assert_eq!(back.channels, 65535);
    assert_eq!(back.sample_rate, 4294967295);
    assert_eq!(back.samples, strings(&[""]));
}

#[test]
fn missing_metadata() {
    assert!(matches!(decode_audio_text("").err(), Some(AudioTextError::MissingMetadata)));
    assert!(matches!(decode_audio_text("2").err(), Some(AudioTextError::MissingMetadata)));
    assert!(matches!(decode_audio_text("2 44100").err(), Some(AudioTextError::MissingMetadata)));
}

#[test]
fn bad_header_fields() {
    assert!(matches!(decode_audio_text("x 44100 0").err(), Some(AudioTextError::Channels(IntErrorKind::InvalidDigit))));
    assert!(matches!(decode_audio_text(" 44100 0").err(), Some(AudioTextError::Channels(IntErrorKind::Empty))));
    assert!(matches!(decode_audio_text("65536 44100 0").err(), Some(AudioTextError::Channels(IntErrorKind::PosOverflow))));
    assert!(matches!(decode_audio_text("2 -1 0").err(), Some(AudioTextError::SampleRate(IntErrorKind::InvalidDigit))));
    assert!(matches!(decode_audio_text("2 4294967296 0").err(), Some(AudioTextError::SampleRate(IntErrorKind::PosOverflow))));
    let ok = decode_audio_text("+2 044100  a").unwrap();
    assert_eq!(ok.channels, 2);
    assert_eq!(ok.sample_rate, 44100);
    assert_eq!(ok.samples, strings(&["", "a"]));
}

#[test]
fn parse_like_std() {
    for text in ["", "+", "-", "+0", "-0", "007", "65535", "65536", "99999x", "9999x", "12a", "+-1"] {
        let ours = parse_unsigned_chars(&chars_of(text), u16::MAX as u64);
        let std = text.parse::<u16>();
        match (ours, std) {
            (Ok(a), Ok(b)) => assert_eq!(a, b as u64, "{:?}", text),
            (Err(k), Err(e)) => {
                let expected = match e.kind() {
                    std::num::IntErrorKind::Empty => IntErrorKind::Empty,
                    std::num::IntErrorKind::InvalidDigit => IntErrorKind::InvalidDigit,
                    std::num::IntErrorKind::PosOverflow => IntErrorKind::PosOverflow,
                    _ => panic!("unexpected kind"),
                };
                assert_eq!(k, expected, "{:?}", text);
            }
            (a, b) => panic!("{:?}: {:?} vs {:?}", text, a, b),
        }
    }
}

#[test]
fn decimal_text() {
    assert_eq!(decimal_chars(0).iter().collect::<String>(), "0");
    assert_eq!(decimal_chars(18446744073709551615).iter().collect::<String>(), "18446744073709551615");
    assert_eq!(padded2_chars(7).iter().collect::<String>(), "07");
    assert_eq!(padded2_chars(123).iter().collect::<String>(), "123");
}

#[test]
fn error_messages_like_std() {
    assert_eq!(int_error_message(IntErrorKind::Empty), "".parse::<u16>().unwrap_err().to_string());
    assert_eq!(int_error_message(IntErrorKind::InvalidDigit), "x".parse::<u16>().unwrap_err().to_string());
    assert_eq!(int_error_message(IntErrorKind::PosOverflow), "70000".parse::<u16>().unwrap_err().to_string());
}

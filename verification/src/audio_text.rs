//! The text that `.prtgn_wav` and `.prtgn_flac` files hold: the channel
//! count, the sample rate and the samples, separated by single spaces.

use vstd::prelude::*;
use crate::decimal::{decimal, parse_unsigned, push_decimal, parse_unsigned_chars, IntErrorKind, lemma_parse_decimal, lemma_decimal_digits, is_digit};
use crate::text::{join, split, views, lacks, chars_of, string_of, push_joined, split_chars, find_char, sub_chars, lemma_split_first, lemma_split_none, lemma_split_from_len, lemma_split_join};

verus! {

/// The contents of a converted audio file, each sample in its text form.
pub struct AudioText {
    pub channels: u16,
    pub sample_rate: u32,
    pub samples: Vec<String>,
}

/// Why a text is not a converted audio file.
#[derive(Debug, Clone, Copy, PartialEq, Eq, Structural)]
pub enum AudioTextError {
    /// Fewer than three space-separated fields.
    MissingMetadata,
    /// The first field is not a channel count.
    Channels(IntErrorKind),
    /// The second field is not a sample rate.
    SampleRate(IntErrorKind),
}

/// The text of an audio file: channels, sample rate, then the samples,
/// separated by spaces.
pub open spec fn encoded(channels: nat, sample_rate: nat, samples: Seq<Seq<char>>) -> Seq<char> {
    decimal(channels) + seq![' '] + decimal(sample_rate) + seq![' '] + join(samples, ' ')
}

/// The first two space-separated fields of `s` and the rest after them
/// (`str::splitn(3, ' ')`), if there are three.
pub open spec fn fields(s: Seq<char>) -> Option<(Seq<char>, Seq<char>, Seq<char>)> {
    let ps = split(s, ' ');
    if ps.len() < 3 {
        None
    } else {
        Some((ps[0], ps[1], s.skip((ps[0].len() + ps[1].len() + 2) as int)))
    }
}

/// What the text `s` denotes: channels, sample rate and sample texts.
pub open spec fn decoded(s: Seq<char>) -> Result<(nat, nat, Seq<Seq<char>>), AudioTextError> {
    match fields(s) {
        None => Err(AudioTextError::MissingMetadata),
        Some((a, b, rest)) => match parse_unsigned(a, u16::MAX as nat) {
            Err(e) => Err(AudioTextError::Channels(e)),
            Ok(c) => match parse_unsigned(b, u32::MAX as nat) {
                Err(e) => Err(AudioTextError::SampleRate(e)),
                Ok(r) => Ok((c, r, split(rest, ' '))),
            },
        },
    }
}

/// The text of an audio file with these channels, rate and samples.
pub fn encode_audio_text(channels: u16, sample_rate: u32, samples: &Vec<String>) -> (r: String)
    ensures
        r@ == encoded(channels as nat, sample_rate as nat, views(samples@)),
{
    let mut head: Vec<char> = Vec::new();
    push_decimal(&mut head, channels as u64);
    head.push(' ');
    push_decimal(&mut head, sample_rate as u64);
    head.push(' ');
    let mut r = string_of(&head);
    push_joined(&mut r, samples, ' ');
    assert(r@ =~= encoded(channels as nat, sample_rate as nat, views(samples@)));
    r
}

/// Reads the channels, sample rate and sample texts of an audio file's text.
pub fn decode_audio_text(s: &str) -> (r: Result<AudioText, AudioTextError>)
    ensures
        match r {
            Ok(t) => decoded(s@) == Ok::<(nat, nat, Seq<Seq<char>>), AudioTextError>(
                (t.channels as nat, t.sample_rate as nat, views(t.samples@)),
            ),
            Err(e) => decoded(s@) == Err::<(nat, nat, Seq<Seq<char>>), AudioTextError>(e),
        },
{
    let v = chars_of(s);
    let i1 = find_char(&v, ' ', 0);
    assert(v@.subrange(0, i1 as int) =~= v@.take(i1 as int));
    if i1 == v.len() {
        proof {
            assert(v@.take(i1 as int) =~= v@);
            lemma_split_none(v@, ' ');
        }
        return Err(AudioTextError::MissingMetadata);
    }
    proof {
        lemma_split_first(v@, i1 as int, ' ');
    }
    let ghost s1 = v@.skip(i1 as int + 1);
    let i2 = find_char(&v, ' ', i1 + 1);
    assert(v@.subrange(i1 + 1, i2 as int) =~= s1.take(i2 - i1 - 1));
    if i2 == v.len() {
        proof {
            assert(s1.take(i2 - i1 - 1) =~= s1);
            lemma_split_none(s1, ' ');
        }
        return Err(AudioTextError::MissingMetadata);
    }
    proof {
        assert(s1[i2 - i1 - 1] == v@[i2 as int]);
        lemma_split_first(s1, i2 - i1 - 1, ' ');
        lemma_split_from_len(s1.skip(i2 - i1), ' ', Seq::empty());
        assert(s1.skip(i2 - i1) =~= v@.skip(i2 as int + 1));
    }
    let a = sub_chars(&v, 0, i1);
    let b = sub_chars(&v, i1 + 1, i2);
    let rest = sub_chars(&v, i2 + 1, v.len());
    assert(rest@ =~= v@.skip(i2 as int + 1));
    let ghost ps = split(v@, ' ');
    assert(ps[0] == a@);
    assert(ps[1] == b@);
    assert(fields(s@) == Some((a@, b@, rest@)));
    let channels = match parse_unsigned_chars(&a, u16::MAX as u64) {
        Ok(c) => c as u16,
        Err(e) => return Err(AudioTextError::Channels(e)),
    };
    let sample_rate = match parse_unsigned_chars(&b, u32::MAX as u64) {
        Ok(c) => c as u32,
        Err(e) => return Err(AudioTextError::SampleRate(e)),
    };
    let samples = split_chars(&rest, ' ');
    Ok(AudioText { channels, sample_rate, samples })
}

/// The samples that reading back an encoded text gives: the same, except
/// that no samples read back as one empty sample.
pub open spec fn read_back_samples(samples: Seq<Seq<char>>) -> Seq<Seq<char>> {
    if samples.len() == 0 {
        seq![Seq::empty()]
    } else {
        samples
    }
}

/// Reading the text written for a channel count, a sample rate and samples
/// gives them back, when no sample text holds a space.
pub proof fn lemma_audio_text_round_trip(channels: u16, sample_rate: u32, samples: Seq<Seq<char>>)
    requires
        forall|i: int| 0 <= i < samples.len() ==> lacks(#[trigger] samples[i], ' '),
    ensures
        decoded(encoded(channels as nat, sample_rate as nat, samples)) == Ok::<
            (nat, nat, Seq<Seq<char>>),
            AudioTextError,
        >((channels as nat, sample_rate as nat, read_back_samples(samples))),
{
    let dc = decimal(channels as nat);
    let dr = decimal(sample_rate as nat);
    let j = join(samples, ' ');
    let s = encoded(channels as nat, sample_rate as nat, samples);
    lemma_decimal_digits(channels as nat);
    lemma_decimal_digits(sample_rate as nat);
    assert(lacks(dc, ' ')) by {
        assert forall|i: int| 0 <= i < dc.len() implies dc[i] != ' ' by {
            assert(is_digit(dc[i]));
        }
    }
    assert(lacks(dr, ' ')) by {
        assert forall|i: int| 0 <= i < dr.len() implies dr[i] != ' ' by {
            assert(is_digit(dr[i]));
        }
    }
    let i1 = dc.len() as int;
    assert(s.take(i1) =~= dc);
    assert(s[i1] == ' ');
    lemma_split_first(s, i1, ' ');
    let s1 = s.skip(i1 + 1);
    assert(s1 =~= dr + seq![' '] + j);
    let i2 = dr.len() as int;
    assert(s1.take(i2) =~= dr);
    assert(s1[i2] == ' ');
    lemma_split_first(s1, i2, ' ');
    assert(s1.skip(i2 + 1) =~= j);
    lemma_split_from_len(j, ' ', Seq::empty());
    let ps = split(s, ' ');
    assert(ps[0] == dc);
    assert(ps[1] == dr);
    assert(s.skip((dc.len() + dr.len() + 2) as int) =~= j);
    lemma_parse_decimal(channels as nat, u16::MAX as nat);
    lemma_parse_decimal(sample_rate as nat, u32::MAX as nat);
    if samples.len() == 0 {
        assert(j =~= Seq::<char>::empty());
        assert(split(j, ' ') =~= seq![Seq::<char>::empty()]);
    } else {
        lemma_split_join(samples, ' ');
    }
}

} // verus!

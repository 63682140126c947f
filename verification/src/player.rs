//! The decisions of the audio players: what a command does to playback,
//! how much has been played, and how a duration is shown.

use vstd::prelude::*;
use crate::decimal::{padded2, padded2_chars, push_decimal, decimal, parse_unsigned, parse_digits, is_digit, lemma_decimal_digits, lemma_parse_decimal, IntErrorKind};
use crate::text::{string_of, push_chars, split, join, lacks, lemma_split_join};

verus! {

/// Commands that the player's screen sends to its audio loop.
#[derive(Debug, Clone, Copy, PartialEq, Eq, Structural)]
pub enum PlayerCommand {
    /// Start playing if paused.
    Play,
    /// Pause if playing, play if paused.
    TogglePause,
    /// Stop.
    Quit,
}

/// What the audio loop found when it looked for a command.
#[derive(Debug, Clone, Copy, PartialEq, Eq, Structural)]
pub enum PlayerInput {
    /// A command arrived.
    Command(PlayerCommand),
    /// No command was waiting.
    NoCommand,
    /// The screen is gone.
    Disconnected,
}

/// What the audio loop is to do with the output.
#[derive(Debug, Clone, Copy, PartialEq, Eq, Structural)]
pub enum SinkAction {
    /// Nothing.
    Nothing,
    /// Resume playing.
    Play,
    /// Pause.
    Pause,
    /// Leave the loop.
    Stop,
}

/// What an input asks of the output, given whether it is paused.
pub open spec fn sink_action_spec(input: PlayerInput, paused: bool) -> SinkAction {
    match input {
        PlayerInput::Command(PlayerCommand::Play) => if paused {
            SinkAction::Play
        } else {
            SinkAction::Nothing
        },
        PlayerInput::Command(PlayerCommand::TogglePause) => if paused {
            SinkAction::Play
        } else {
            SinkAction::Pause
        },
        PlayerInput::Command(PlayerCommand::Quit) => SinkAction::Stop,
        PlayerInput::NoCommand => SinkAction::Nothing,
        PlayerInput::Disconnected => SinkAction::Stop,
    }
}

/// What an input asks of the output: `Play` resumes a paused output,
/// `TogglePause` flips it, `Quit` or a lost screen stops the loop.
pub fn sink_action(input: PlayerInput, paused: bool) -> (a: SinkAction)
    ensures
        a == sink_action_spec(input, paused),
{
    match input {
        PlayerInput::Command(PlayerCommand::Play) => if paused {
            SinkAction::Play
        } else {
            SinkAction::Nothing
        },
        PlayerInput::Command(PlayerCommand::TogglePause) => if paused {
            SinkAction::Play
        } else {
            SinkAction::Pause
        },
        PlayerInput::Command(PlayerCommand::Quit) => SinkAction::Stop,
        PlayerInput::NoCommand => SinkAction::Nothing,
        PlayerInput::Disconnected => SinkAction::Stop,
    }
}

/// The largest duration, in nanoseconds (`Duration::MAX`).
pub open spec fn max_duration() -> nat {
    18446744073709551615 * 1000000000 + 999999999
}

/// The time from `from` to `to`, zero if `to` is earlier (`Instant::elapsed`).
pub open spec fn span(from: nat, to: nat) -> nat {
    if to >= from {
        (to - from) as nat
    } else {
        0
    }
}

/// The player's clock, in nanoseconds: whether the output is playing, the
/// time played up to the last resume, and the instant of that resume. The
/// output is paused exactly when the clock is not playing: the clock starts
/// from the output's state, and only its own actions change that state.
pub struct PlaybackClock {
    pub is_playing: bool,
    pub elapsed: u128,
    pub last_update: u128,
}

/// The clock's state.
pub ghost struct ClockState {
    pub playing: bool,
    pub elapsed: nat,
    pub last: nat,
}

/// The time played by the instant `now`.
pub open spec fn clock_played(s: ClockState, now: nat) -> nat {
    if s.playing {
        s.elapsed + span(s.last, now)
    } else {
        s.elapsed
    }
}

/// The clock after an input at `now`: resuming restarts it at `now`;
/// pausing adds the time since the last resume to the time played.
pub open spec fn clock_step(s: ClockState, input: PlayerInput, now: nat) -> ClockState {
    match sink_action_spec(input, !s.playing) {
        SinkAction::Play => ClockState { playing: true, elapsed: s.elapsed, last: now },
        SinkAction::Pause => ClockState { playing: false, elapsed: s.elapsed + span(s.last, now), last: s.last },
        _ => s,
    }
}

/// The clock after a run of inputs, each at its instant.
pub open spec fn clock_run(s: ClockState, inputs: Seq<(PlayerInput, nat)>) -> ClockState
    decreases inputs.len(),
{
    if inputs.len() == 0 {
        s
    } else {
        clock_step(clock_run(s, inputs.drop_last()), inputs.last().0, inputs.last().1)
    }
}

impl PlaybackClock {
    /// The clock's state.
    pub open spec fn state(&self) -> ClockState {
        ClockState { playing: self.is_playing, elapsed: self.elapsed as nat, last: self.last_update as nat }
    }

    /// The time played by the instant `now`.
    pub open spec fn played(&self, now: nat) -> nat {
        clock_played(self.state(), now)
    }

    /// A clock at `now` that has played nothing yet, playing when the output is.
    pub fn new(playing: bool, now: u128) -> (r: PlaybackClock)
        ensures
            r.is_playing == playing,
            r.elapsed == 0,
            r.last_update == now,
            r.played(now as nat) == 0,
    {
        PlaybackClock { is_playing: playing, elapsed: 0, last_update: now }
    }

    /// Takes an input at `now`: returns what to do with the output, which is
    /// paused exactly when the clock is not playing, and moves the clock on.
    pub fn on_input(&mut self, input: PlayerInput, now: u128) -> (a: SinkAction)
        requires
            old(self).elapsed + span(old(self).last_update as nat, now as nat) <= max_duration(),
        ensures
            a == sink_action_spec(input, !old(self).is_playing),
            final(self).state() == clock_step(old(self).state(), input, now as nat),
    {
        let a = sink_action(input, !self.is_playing);
        match a {
            SinkAction::Play => {
                self.is_playing = true;
                self.last_update = now;
            },
            SinkAction::Pause => {
                let d = if now >= self.last_update {
                    now - self.last_update
                } else {
                    0
                };
                self.is_playing = false;
                self.elapsed = self.elapsed + d;
            },
            _ => {},
        }
        a
    }

    /// The position to report at `now`: the time played, while playing.
    pub fn position(&self, now: u128) -> (r: Option<u128>)
        requires
            self.elapsed + span(self.last_update as nat, now as nat) <= max_duration(),
        ensures
            r == (if self.is_playing {
                Some(self.played(now as nat) as u128)
            } else {
                None::<u128>
            }),
    {
        if self.is_playing {
            let d = if now >= self.last_update {
                now - self.last_update
            } else {
                0
            };
            Some(self.elapsed + d)
        } else {
            None
        }
    }
}

/// An input changes nothing of the time played at its instant: pausing and
/// resuming neither lose nor add time.
pub proof fn lemma_input_keeps_time(s: ClockState, input: PlayerInput, now: nat)
    ensures
        clock_played(clock_step(s, input, now), now) == clock_played(s, now),
{
}

/// The time played never goes back, and stands still while paused.
pub proof fn lemma_played_monotonic(s: ClockState, t1: nat, t2: nat)
    requires
        t1 <= t2,
    ensures
        clock_played(s, t1) <= clock_played(s, t2),
        !s.playing ==> clock_played(s, t1) == clock_played(s, t2),
{
}

/// Over any run of inputs at instants that do not go back, with any
/// pausing and resuming, the positions reported after the inputs never go
/// back; a new clock reports nothing played at its start.
pub proof fn lemma_positions_never_go_back(s: ClockState, inputs: Seq<(PlayerInput, nat)>)
    requires
        forall|i: int, j: int| 0 <= i < j < inputs.len() ==> inputs[i].1 <= inputs[j].1,
    ensures
        forall|k: int| 0 <= k < inputs.len() - 1 ==> clock_played(#[trigger] clock_run(s, inputs.take(k + 1)), inputs[k].1)
            <= clock_played(clock_run(s, inputs.take(k + 2)), inputs[k + 1].1),
{
    assert forall|k: int| 0 <= k < inputs.len() - 1 implies clock_played(#[trigger] clock_run(s, inputs.take(k + 1)), inputs[k].1)
        <= clock_played(clock_run(s, inputs.take(k + 2)), inputs[k + 1].1) by {
        let a = clock_run(s, inputs.take(k + 1));
        assert(inputs.take(k + 2).drop_last() =~= inputs.take(k + 1));
        assert(inputs.take(k + 2).last() == inputs[k + 1]);
        lemma_input_keeps_time(a, inputs[k + 1].0, inputs[k + 1].1);
        lemma_played_monotonic(a, inputs[k].1, inputs[k + 1].1);
    }
}

/// Only commands move the output: with no command waiting it is left as it
/// is, paused or not; a paused output resumes only on `Play` or
/// `TogglePause`, and always does on either; a playing output pauses only
/// on `TogglePause`, and always does on it; the loop stops exactly on
/// `Quit` or when the screen is gone.
pub proof fn lemma_only_commands_move_output(input: PlayerInput, paused: bool)
    ensures
        input == PlayerInput::NoCommand ==> sink_action_spec(input, paused) == SinkAction::Nothing,
        sink_action_spec(input, paused) == SinkAction::Play ==> paused && (input == PlayerInput::Command(
            PlayerCommand::Play,
        ) || input == PlayerInput::Command(PlayerCommand::TogglePause)),
        paused && (input == PlayerInput::Command(PlayerCommand::Play) || input == PlayerInput::Command(
            PlayerCommand::TogglePause,
        )) ==> sink_action_spec(input, paused) == SinkAction::Play,
        sink_action_spec(input, paused) == SinkAction::Pause <==> (!paused && input == PlayerInput::Command(
            PlayerCommand::TogglePause,
        )),
        sink_action_spec(input, paused) == SinkAction::Stop <==> (input == PlayerInput::Command(PlayerCommand::Quit)
            || input == PlayerInput::Disconnected),
{
}

/// The clock follows the output: with no command waiting it stays as it
/// is; it starts playing only on `Play` or `TogglePause`, and stops only on
/// `TogglePause`, which always flips it.
pub proof fn lemma_clock_follows_commands(s: ClockState, input: PlayerInput, now: nat)
    ensures
        input == PlayerInput::NoCommand ==> clock_step(s, input, now) == s,
        !s.playing && clock_step(s, input, now).playing ==> (input == PlayerInput::Command(PlayerCommand::Play)
            || input == PlayerInput::Command(PlayerCommand::TogglePause)),
        s.playing && !clock_step(s, input, now).playing ==> input == PlayerInput::Command(
            PlayerCommand::TogglePause,
        ),
        input == PlayerInput::Command(PlayerCommand::TogglePause) ==> clock_step(s, input, now).playing
            == !s.playing,
        input == PlayerInput::Command(PlayerCommand::Play) ==> clock_step(s, input, now).playing,
{
    lemma_only_commands_move_output(input, !s.playing);
}

/// What a key on the player's screen asks for: `q` leaves, space pauses or
/// resumes.
#[derive(Debug, Clone, Copy, PartialEq, Eq, Structural)]
pub enum PlayerKey {
    /// Leave the player.
    Quit,
    /// Send `TogglePause`.
    TogglePause,
}

/// The meaning of a pressed key on the player's screen.
pub fn player_key(c: char) -> (r: Option<PlayerKey>)
    ensures
        r == (if c == 'q' {
            Some(PlayerKey::Quit)
        } else if c == ' ' {
            Some(PlayerKey::TogglePause)
        } else {
            None::<PlayerKey>
        }),
{
    if c == 'q' {
        Some(PlayerKey::Quit)
    } else if c == ' ' {
        Some(PlayerKey::TogglePause)
    } else {
        None
    }
}

/// `MM:SS` for a duration of `secs` whole seconds: minutes, then the
/// seconds within the minute, each with at least two digits.
pub open spec fn duration_text(secs: nat) -> Seq<char> {
    padded2(secs / 60) + seq![':'] + padded2(secs % 60)
}

/// Shows a duration of `secs` whole seconds as `MM:SS`.
pub fn format_duration(secs: u64) -> (r: String)
    ensures
        r@ == duration_text(secs as nat),
{
    let mins = secs / 60;
    let rest = secs % 60;
    let mut v = padded2_chars(mins);
    v.push(':');
    let w = padded2_chars(rest);
    let mut r = string_of(&v);
    push_chars(&mut r, &w);
    assert(r@ =~= duration_text(secs as nat));
    r
}

/// Reading a two-digit field back gives its number.
proof fn lemma_padded2_reads_back(n: nat, max: nat)
    requires
        n <= max,
    ensures
        lacks(padded2(n), ':'),
        parse_unsigned(padded2(n), max) == Ok::<nat, IntErrorKind>(n),
{
    lemma_decimal_digits(n);
    lemma_parse_decimal(n, max);
    let s = padded2(n);
    assert forall|i: int| 0 <= i < s.len() implies s[i] != ':' by {
        if n < 10 {
            if i > 0 {
                assert(s[i] == decimal(n)[i - 1]);
                assert(is_digit(decimal(n)[i - 1]));
            }
        } else {
            assert(is_digit(decimal(n)[i]));
        }
    }
    if n < 10 {
        assert(s.drop_first() =~= decimal(n));
        assert(is_digit(s[0]));
        assert(parse_digits(s, 0, max) == parse_digits(decimal(n), 0, max));
    }
}

/// A shown duration reads back: its text splits at `:` into the two
/// fields, which read as the whole minutes and the remaining seconds, and
/// those make up the duration again.
pub proof fn lemma_duration_reads_back(secs: nat, max: nat)
    requires
        secs / 60 <= max,
        59 <= max,
    ensures
        split(duration_text(secs), ':') == seq![padded2(secs / 60), padded2(secs % 60)],
        parse_unsigned(padded2(secs / 60), max) == Ok::<nat, IntErrorKind>(secs / 60),
        parse_unsigned(padded2(secs % 60), max) == Ok::<nat, IntErrorKind>(secs % 60),
        secs == 60 * (secs / 60) + secs % 60,
{
    let parts = seq![padded2(secs / 60), padded2(secs % 60)];
    lemma_padded2_reads_back(secs / 60, max);
    lemma_padded2_reads_back(secs % 60, max);
    assert(parts.drop_first() =~= seq![padded2(secs % 60)]);
    assert(join(parts.drop_first(), ':') == padded2(secs % 60));
    assert(join(parts, ':') =~= duration_text(secs));
    lemma_split_join(parts, ':');
}

/// The sample rate line of the player's screen.
pub fn rate_text(sample_rate: u32) -> (r: String)
    ensures
        r@ == "Playing audio at "@ + crate::decimal::decimal(sample_rate as nat) + " samples per second."@,
{
    let mut r = "Playing audio at ".to_owned();
    let mut d: Vec<char> = Vec::new();
    push_decimal(&mut d, sample_rate as u64);
    push_chars(&mut r, &d);
    let tail = crate::text::chars_of(" samples per second.");
    push_chars(&mut r, &tail);
    assert(d@ =~= crate::decimal::decimal(sample_rate as nat));
    r
}

} // verus!

use prtgn::player::{format_duration, player_key, rate_text, sink_action, PlaybackClock, PlayerCommand, PlayerInput, PlayerKey, SinkAction};

#[test]
fn durations() {
    assert_eq!(format_duration(0), "00:00");
    assert_eq!(format_duration(65), "01:05");
    assert_eq!(format_duration(599), "09:59");
    assert_eq!(format_duration(6000), "100:00");
}

#[test]
fn actions() {
    assert_eq!(sink_action(PlayerInput::Command(PlayerCommand::TogglePause), true), SinkAction::Play);
    assert_eq!(sink_action(PlayerInput::Command(PlayerCommand::TogglePause), false), SinkAction::Pause);
    assert_eq!(sink_action(PlayerInput::Command(PlayerCommand::Play), false), SinkAction::Nothing);
    assert_eq!(sink_action(PlayerInput::Command(PlayerCommand::Play), true), SinkAction::Play);
    assert_eq!(sink_action(PlayerInput::Command(PlayerCommand::Quit), true), SinkAction::Stop);
    assert_eq!(sink_action(PlayerInput::Disconnected, false), SinkAction::Stop);
    assert_eq!(sink_action(PlayerInput::NoCommand, false), SinkAction::Nothing);
}

#[test]
fn pausing_keeps_time() {
    let mut clock = PlaybackClock::new(true, 1_000);
    assert_eq!(clock.position(3_000), Some(2_000));
    assert_eq!(clock.on_input(PlayerInput::Command(PlayerCommand::TogglePause), 3_000), SinkAction::Pause);
    assert_eq!(clock.position(10_000), None);
    assert_eq!(clock.elapsed, 2_000);
    assert_eq!(clock.on_input(PlayerInput::Command(PlayerCommand::TogglePause), 10_000), SinkAction::Play);
    assert_eq!(clock.position(10_500), Some(2_500));
    assert_eq!(clock.position(9_000), Some(2_000));
}

#[test]
fn keys_and_text() {
    assert_eq!(player_key('q'), Some(PlayerKey::Quit));
    assert_eq!(player_key(' '), Some(PlayerKey::TogglePause));
    assert_eq!(player_key('x'), None);
    assert_eq!(rate_text(44100), "Playing audio at 44100 samples per second.");
}

#[test]
fn play_command_resumes_paused_clock() {
    let mut clock = PlaybackClock::new(false, 0);
    assert_eq!(clock.position(500), None);
    assert_eq!(clock.on_input(PlayerInput::Command(PlayerCommand::Play), 500), SinkAction::Play);
    assert_eq!(clock.on_input(PlayerInput::Command(PlayerCommand::Play), 600), SinkAction::Nothing);
    assert_eq!(clock.position(800), Some(300));
    assert_eq!(clock.on_input(PlayerInput::NoCommand, 900), SinkAction::Nothing);
    assert_eq!(clock.on_input(PlayerInput::Disconnected, 900), SinkAction::Stop);
}

#[test]
fn duration_fields_read_back() {
    for secs in [0u64, 9, 60, 3725, 6000, 86399] {
        let shown = format_duration(secs);
        let fields: Vec<&str> = shown.split(':').collect();
        assert_eq!(fields.len(), 2);
        let mins: u64 = fields[0].parse().unwrap();
        let rest: u64 = fields[1].parse().unwrap();
        assert_eq!((mins, rest), (secs / 60, secs % 60));
        assert_eq!(60 * mins + rest, secs);
    }
}

use oxiplayer::controller::{App, AudioCommand};
use oxiplayer::track::MusicFile;

fn entry(path: &str, name: &str) -> MusicFile {
    MusicFile { path: path.to_string(), name: name.to_string() }
}

fn app_with(names: &[&str]) -> App {
    let entries = names.iter().map(|n| entry(&format!("/m/{}", n), n)).collect();
    App::new("/m".to_string(), entries)
}

#[test]
fn new_app_initial_state() {
    let app = app_with(&["a.mp3", "b.mp3"]);
    assert_eq!(app.selected_index, 0);
    assert_eq!(app.volume, 70);
    assert!(app.current_playing.is_none());
    assert!(!app.is_paused);
    assert!(app.audio_player.session.is_none());
    assert_eq!(app.audio_player.streams, 0);
    assert_eq!(
        app.status_message,
        "Ready - Use ↑/↓ to navigate, Enter to play (auto-advances to next song), 'q' to quit"
    );
}

#[test]
fn new_app_empty_directory_status() {
    let app = app_with(&[]);
    assert_eq!(app.music_files.len(), 0);
    assert_eq!(app.status_message, "No music files found - Press 'r' to refresh or 'q' to quit");
}

#[test]
fn play_selected_on_empty_library_changes_only_status() {
    // Empty directory: the scan returns an empty library and playing is a
    // friendly no-op, not an error.
    let mut app = app_with(&[]);
    let cmd = app.play_selected(Ok(()));
    assert!(matches!(cmd, AudioCommand::DoNothing));
    assert_eq!(app.status_message, "No music files available to play");
    assert!(app.current_playing.is_none());
    assert!(app.audio_player.session.is_none());
    assert_eq!(app.selected_index, 0);
    assert_eq!(app.volume, 70);
}

#[test]
fn cursor_wraps_forward_from_last() {
    let mut app = app_with(&["a.mp3", "b.mp3", "c.mp3"]);
    app.next();
    app.next();
    assert_eq!(app.selected_index, 2);
    app.next();
    assert_eq!(app.selected_index, 0);
}

#[test]
fn cursor_wraps_backward_from_first() {
    let mut app = app_with(&["a.mp3", "b.mp3", "c.mp3"]);
    assert_eq!(app.selected_index, 0);
    app.previous();
    assert_eq!(app.selected_index, 2);
    app.previous();
    assert_eq!(app.selected_index, 1);
}

#[test]
fn cursor_stays_put_on_empty_library() {
    let mut app = app_with(&[]);
    app.next();
    assert_eq!(app.selected_index, 0);
    app.previous();
    assert_eq!(app.selected_index, 0);
}

#[test]
fn play_selected_success_marks_track() {
    let mut app = app_with(&["a.mp3", "b.mp3"]);
    let cmd = app.play_selected(Ok(()));
    assert!(matches!(cmd, AudioCommand::SetSinkVolume(70)));
    assert_eq!(app.current_playing.as_deref(), Some("a.mp3"));
    assert_eq!(app.status_message, "♪ Playing: a.mp3");
    assert!(!app.is_paused);
    assert!(app.audio_player.session.is_some());
    assert_eq!(app.audio_player.streams, 1);
}

#[test]
fn play_selected_failure_leaves_nothing_marked() {
    // A corrupt or non-audio file: error status, no playing mark, backend
    // back to Idle.
    let mut app = app_with(&["broken.mp3"]);
    let cmd = app.play_selected(Err("not audio".to_string()));
    assert!(matches!(cmd, AudioCommand::DoNothing));
    assert_eq!(app.status_message, "Error playing file: not audio");
    assert!(app.current_playing.is_none());
    assert!(app.audio_player.session.is_none());
    assert_eq!(app.audio_player.streams, 0);
}

#[test]
fn repeated_play_holds_one_stream() {
    // Play right after play: the first session is torn down, the device
    // ends up with exactly one attached stream.
    let mut app = app_with(&["a.mp3", "b.mp3"]);
    app.play_selected(Ok(()));
    assert_eq!(app.audio_player.streams, 1);
    app.next();
    app.play_selected(Ok(()));
    assert_eq!(app.audio_player.streams, 1);
    app.play_selected(Err("gone".to_string()));
    assert_eq!(app.audio_player.streams, 0);
    app.play_selected(Ok(()));
    assert_eq!(app.audio_player.streams, 1);
}

#[test]
fn play_next_from_last_reports_loopback() {
    let mut app = app_with(&["a.mp3", "b.mp3"]);
    app.next();
    assert_eq!(app.selected_index, 1);
    let cmd = app.play_next(Ok(()));
    assert!(matches!(cmd, AudioCommand::SetSinkVolume(70)));
    assert_eq!(app.selected_index, 0);
    assert_eq!(app.current_playing.as_deref(), Some("a.mp3"));
    assert_eq!(app.status_message, "♪ Looped to beginning - Playing: a.mp3");
}

#[test]
fn play_next_from_middle_reports_normal_advance() {
    let mut app = app_with(&["a.mp3", "b.mp3", "c.mp3"]);
    let cmd = app.play_next(Ok(()));
    assert!(matches!(cmd, AudioCommand::SetSinkVolume(70)));
    assert_eq!(app.selected_index, 1);
    assert_eq!(app.status_message, "♪ Playing: b.mp3");
    // The wrap-around message is distinct from every normal advance.
    assert_ne!(app.status_message, "♪ Looped to beginning - Playing: b.mp3");
}

#[test]
fn play_next_on_empty_library_is_a_no_op() {
    let mut app = app_with(&[]);
    let before = app.status_message.clone();
    let cmd = app.play_next(Ok(()));
    assert!(matches!(cmd, AudioCommand::DoNothing));
    assert_eq!(app.status_message, before);
    assert_eq!(app.selected_index, 0);
}

#[test]
fn play_previous_retreats_with_wraparound() {
    let mut app = app_with(&["a.mp3", "b.mp3", "c.mp3"]);
    let cmd = app.play_previous(Ok(()));
    assert!(matches!(cmd, AudioCommand::SetSinkVolume(70)));
    assert_eq!(app.selected_index, 2);
    assert_eq!(app.current_playing.as_deref(), Some("c.mp3"));
    assert_eq!(app.status_message, "♪ Playing: c.mp3");
}

#[test]
fn toggle_pause_cycles_and_reports() {
    let mut app = app_with(&["a.mp3"]);
    // Nothing playing: toggling does nothing.
    let cmd = app.toggle_pause();
    assert!(matches!(cmd, AudioCommand::DoNothing));
    app.play_selected(Ok(()));
    let cmd = app.toggle_pause();
    assert!(matches!(cmd, AudioCommand::PauseSink));
    assert!(app.is_paused);
    assert_eq!(app.status_message, "Paused");
    let cmd = app.toggle_pause();
    assert!(matches!(cmd, AudioCommand::ResumeSink));
    assert!(!app.is_paused);
    assert_eq!(app.status_message, "♪ Playing: a.mp3");
}

#[test]
fn stop_clears_playback() {
    let mut app = app_with(&["a.mp3"]);
    app.play_selected(Ok(()));
    let cmd = app.stop();
    assert!(matches!(cmd, AudioCommand::StopSink));
    assert!(app.current_playing.is_none());
    assert!(!app.is_paused);
    assert!(app.audio_player.session.is_none());
    assert_eq!(app.status_message, "Stopped");
}

#[test]
fn volume_steps_stay_clamped() {
    let mut app = app_with(&["a.mp3"]);
    assert_eq!(app.volume, 70);
    app.volume_up();
    assert_eq!(app.volume, 80);
    assert_eq!(app.status_message, "Volume: 80%");
    for _ in 0..5 {
        app.volume_up();
    }
    assert_eq!(app.volume, 100);
    assert_eq!(app.status_message, "Volume: 100%");
    for _ in 0..12 {
        app.volume_down();
    }
    assert_eq!(app.volume, 0);
    assert_eq!(app.status_message, "Volume: 0%");
    let cmd = app.volume_up();
    assert!(matches!(cmd, AudioCommand::SetSinkVolume(10)));
    assert_eq!(app.audio_player.volume, 10);
}

#[test]
fn refresh_clamps_cursor_to_shrunk_library() {
    // Cursor at 4, the new listing has length 2: the cursor clamps to 1.
    let mut app = app_with(&["a.mp3", "b.mp3", "c.mp3", "d.mp3", "e.mp3"]);
    for _ in 0..4 {
        app.next();
    }
    assert_eq!(app.selected_index, 4);
    let entries = vec![entry("/m/a.mp3", "a.mp3"), entry("/m/b.mp3", "b.mp3")];
    app.refresh_files(entries);
    assert_eq!(app.music_files.len(), 2);
    assert_eq!(app.selected_index, 1);
    assert_eq!(app.status_message, "Refreshed - Found 2 music files");
}

#[test]
fn refresh_to_empty_reports_and_keeps_playing() {
    // The library directory emptied out: the refresh reports it, and the
    // live session is deliberately left alone.
    let mut app = app_with(&["a.mp3"]);
    app.play_selected(Ok(()));
    app.refresh_files(Vec::new());
    assert_eq!(app.music_files.len(), 0);
    assert_eq!(app.status_message, "No music files found in directory");
    assert_eq!(app.current_playing.as_deref(), Some("a.mp3"));
    assert!(app.audio_player.session.is_some());
}

#[test]
fn auto_advance_needs_playing_unpaused_drained() {
    let mut app = app_with(&["a.mp3", "b.mp3"]);
    assert!(!app.should_auto_advance(true));
    app.play_selected(Ok(()));
    assert!(!app.should_auto_advance(false));
    assert!(app.should_auto_advance(true));
    app.toggle_pause();
    assert!(!app.should_auto_advance(true));
}

#[test]
fn peek_matches_play_target() {
    let mut app = app_with(&["a.mp3", "b.mp3", "c.mp3"]);
    assert_eq!(app.selected_file().unwrap().name, "a.mp3");
    assert_eq!(app.peek_next().unwrap().name, "b.mp3");
    assert_eq!(app.peek_previous().unwrap().name, "c.mp3");
    app.next();
    app.next();
    assert_eq!(app.peek_next().unwrap().name, "a.mp3");
    let empty = app_with(&[]);
    assert!(empty.selected_file().is_none());
    assert!(empty.peek_next().is_none());
    assert!(empty.peek_previous().is_none());
}

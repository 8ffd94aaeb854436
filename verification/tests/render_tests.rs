use oxiplayer::controller::App;
use oxiplayer::render::{draw, Marker};
use oxiplayer::track::MusicFile;

fn app_with(names: &[&str]) -> App {
    let entries = names
        .iter()
        .map(|n| MusicFile { path: format!("/m/{}", n), name: n.to_string() })
        .collect();
    App::new("/m".to_string(), entries)
}

#[test]
fn frame_for_fresh_state() {
    let app = app_with(&["a.mp3", "b.mp3"]);
    let v = draw(&app);
    assert_eq!(v.header.directory, "/m");
    assert_eq!(v.list.title, "Music Files (1/2)");
    assert_eq!(v.list.rows.len(), 2);
    assert_eq!(v.list.rows[0].name, "a.mp3");
    assert_eq!(v.list.rows[1].name, "b.mp3");
    assert_eq!(v.list.rows[0].marker, Marker::Selected);
    assert_eq!(v.list.rows[1].marker, Marker::Plain);
    assert!(v.info.now_playing.is_none());
    assert_eq!(v.info.status_word, "Stopped");
    assert_eq!(v.info.volume_label, "70%");
    assert!(!v.footer.playing);
    assert_eq!(v.footer.status, app.status_message);
}

#[test]
fn frame_for_empty_library() {
    let app = app_with(&[]);
    let v = draw(&app);
    assert_eq!(v.list.title, "Music Files (0/0)");
    assert!(v.list.rows.is_empty());
    assert_eq!(v.info.status_word, "Stopped");
}

#[test]
fn playing_marker_follows_name_not_cursor() {
    let mut app = app_with(&["a.mp3", "b.mp3"]);
    app.play_selected(Ok(()));
    app.next();
    let v = draw(&app);
    // The cursor moved on, but the playing mark stays with the named track.
    assert_eq!(v.list.title, "Music Files (2/2)");
    assert_eq!(v.list.rows[0].marker, Marker::NowPlaying);
    assert_eq!(v.list.rows[1].marker, Marker::Selected);
    assert_eq!(v.info.now_playing.as_deref(), Some("a.mp3"));
    assert_eq!(v.info.status_word, "Playing");
    assert!(v.footer.playing);
}

#[test]
fn paused_state_shows_in_info_pane() {
    let mut app = app_with(&["a.mp3"]);
    app.play_selected(Ok(()));
    app.toggle_pause();
    let v = draw(&app);
    assert!(v.info.paused);
    assert_eq!(v.info.status_word, "Paused");
    assert_eq!(v.footer.status, "Paused");
}

#[test]
fn stale_playing_name_renders_without_a_match() {
    // After a refresh removed the playing track, the name is still shown as
    // playing in the info pane but no row carries the mark.
    let mut app = app_with(&["a.mp3", "b.mp3"]);
    app.play_selected(Ok(()));
    let entries = vec![MusicFile { path: "/m/b.mp3".to_string(), name: "b.mp3".to_string() }];
    app.refresh_files(entries);
    let v = draw(&app);
    assert_eq!(v.info.now_playing.as_deref(), Some("a.mp3"));
    assert_eq!(v.list.rows.len(), 1);
    assert_eq!(v.list.rows[0].marker, Marker::Selected);
}

#[test]
fn volume_label_tracks_adjustments() {
    let mut app = app_with(&["a.mp3"]);
    app.volume_down();
    app.volume_down();
    let v = draw(&app);
    assert_eq!(v.info.volume_label, "50%");
}

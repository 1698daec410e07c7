use scope_radio::db::{Playlist, PlaylistEntry};
use scope_radio::display::GraphConfig;
use scope_radio::player::AudioPlayer;
use scope_radio::state::App;
use scope_radio::ui::{
    centered_rect, control_lines, footer_error, header_tabs, middle_part, name_cursor, panel_for,
    playlist_rows, progress_label, progress_ratio, song_rows, songs_title, status_line, Panel,
    Rect,
};

#[test]
fn a_popup_is_centred_by_the_layout_solver() {
    let screen = Rect { x: 0, y: 0, width: 100, height: 50 };
    let popup = centered_rect(60, 20, screen);
    assert_eq!(popup, Rect { x: 20, y: 20, width: 60, height: 10 });
    let popup = centered_rect(60, 40, screen);
    assert_eq!(popup, Rect { x: 20, y: 15, width: 60, height: 20 });
    let offset = Rect { x: 10, y: 4, width: 40, height: 20 };
    let popup = centered_rect(50, 50, offset);
    assert_eq!(popup, Rect { x: 20, y: 9, width: 20, height: 10 });
    assert_eq!(centered_rect(100, 100, offset), offset);
}

#[test]
fn the_middle_of_three_parts() {
    let part = |x| Rect { x, y: 0, width: 1, height: 1 };
    assert_eq!(middle_part(&vec![part(1), part(2), part(3)]), part(2));
}

#[test]
fn tabs_choose_the_panel() {
    assert_eq!(panel_for(0), Panel::Radio);
    assert_eq!(panel_for(1), Panel::Playlists);
    assert_eq!(panel_for(2), Panel::Search);
    assert_eq!(panel_for(3), Panel::Radio);
    assert_eq!(panel_for(4), Panel::Radio);
    assert_eq!(panel_for(5), Panel::Radio);
    assert_eq!(panel_for(usize::MAX), Panel::Radio);
}

#[test]
fn the_header_marks_the_current_tab() {
    let tabs = header_tabs(2);
    let titles: Vec<&str> = tabs.iter().map(|t| t.0.as_str()).collect();
    assert_eq!(titles, vec!["STAT", "INV", "DATA", "MAP", "RADIO"]);
    let marks: Vec<bool> = tabs.iter().map(|t| t.1).collect();
    assert_eq!(marks, vec![false, false, true, false, false]);
    assert!(header_tabs(4)[4].1);
    assert!(header_tabs(7).iter().all(|t| !t.1));
}

#[test]
fn the_progress_bar_fills_with_the_share_played() {
    assert_eq!(progress_ratio(30_000_000, 60_000_000), 500);
    assert_eq!(progress_ratio(0, 60_000_000), 0);
    assert_eq!(progress_ratio(1, 3), 333);
    assert_eq!(progress_ratio(59_999_999, 60_000_000), 999);
    assert_eq!(progress_ratio(60_000_000, 60_000_000), 1000);
    assert_eq!(progress_ratio(70_000_000, 60_000_000), 1000);
    assert_eq!(progress_ratio(5, 0), 0);
    assert_eq!(progress_ratio(u64::MAX - 1, u64::MAX), 999);
    assert_eq!(progress_ratio(u64::MAX, 1), 1000);
}

#[test]
fn the_progress_label_shows_both_clocks() {
    assert_eq!(progress_label(65_000_000, Some(125_999_999)), "01:05 / 02:05");
    assert_eq!(progress_label(999_999, Some(0)), "00:00 / 00:00");
    assert_eq!(progress_label(6_000_000_000, Some(36_000_000_000)), "100:00 / 600:00");
    assert_eq!(progress_label(65_000_000, None), "00:00 / 00:00");
}

#[test]
fn the_controls_show_the_volume_in_percent() {
    let mut player = AudioPlayer::new(true, None);
    assert_eq!(
        control_lines(&player),
        vec![
            "   [Shift+Arrows] ZOOM/WIDTH",
            "   [S] SCATTER  [T] TRIGGER",
            "   [Space] PAUSE  [+/-] VOL: 100%",
        ]
    );
    player.volume = 1259;
    player.is_streaming_mode = true;
    assert_eq!(
        control_lines(&player),
        vec![
            "   [!] OPTIMIZED MODE (NO SCOPE)",
            "   [Shift+Arrows] ZOOM/WIDTH",
            "   [S] SCATTER  [T] TRIGGER",
            "   [Space] PAUSE  [+/-] VOL: 125%",
        ]
    );
    player.volume = 9;
    assert_eq!(control_lines(&player)[3], "   [Space] PAUSE  [+/-] VOL: 0%");
}

#[test]
fn footer_and_status_lines() {
    let mut player = AudioPlayer::new(true, None);
    assert_eq!(footer_error(&player), None);
    player.error_message = Some(String::from("Sink error: busy"));
    assert_eq!(footer_error(&player).as_deref(), Some("  ERROR: Sink error: busy"));
    assert_eq!(status_line(&None), None);
    assert_eq!(
        status_line(&Some(String::from("Found 3 results"))).as_deref(),
        Some("[STATUS]: Found 3 results")
    );
}

#[test]
fn playlists_and_songs_become_rows() {
    let playlists = vec![
        Playlist { id: 4, name: String::from("road") },
        Playlist { id: 2, name: String::from("") },
        Playlist { id: 4, name: String::from("second of that id") },
    ];
    assert_eq!(playlist_rows(&playlists), vec!["> road", "> ", "> second of that id"]);
    assert_eq!(playlist_rows(&Vec::new()), Vec::<String>::new());
    let song = |position, title: &str| PlaylistEntry {
        id: 0,
        playlist_id: 4,
        url: String::from("u"),
        title: String::from(title),
        position,
    };
    let songs = vec![song(1, "one"), song(12, "twelve"), song(-3, "odd"), song(0, "")];
    assert_eq!(song_rows(&songs), vec!["1. one", "12. twelve", "-3. odd", "0. "]);
    assert_eq!(song_rows(&vec![song(i32::MIN, "x")]), vec!["-2147483648. x"]);
    assert_eq!(song_rows(&vec![song(i32::MAX, "y")]), vec!["2147483647. y"]);
    assert_eq!(songs_title(&playlists, None), " Songs ");
    assert_eq!(songs_title(&playlists, Some(4)), " Songs in 'road' (Enter to play) ");
    assert_eq!(songs_title(&playlists, Some(2)), " Songs in '' (Enter to play) ");
    assert_eq!(songs_title(&playlists, Some(5)), " Songs ");
    assert_eq!(songs_title(&Vec::new(), Some(4)), " Songs ");
}

#[test]
fn the_name_cursor_follows_the_text() {
    let area = Rect { x: 10, y: 5, width: 40, height: 3 };
    assert_eq!(name_cursor(area, 0), Some((11, 6)));
    assert_eq!(name_cursor(area, 7), Some((18, 6)));
    assert_eq!(name_cursor(area, 65536 + 7), Some((18, 6)));
    assert_eq!(name_cursor(area, 65524), Some((65535, 6)));
    assert_eq!(name_cursor(area, 65525), None);
    let low = Rect { x: 0, y: u16::MAX, width: 1, height: 1 };
    assert_eq!(name_cursor(low, 0), None);
    let far = Rect { x: u16::MAX, y: 0, width: 1, height: 1 };
    assert_eq!(name_cursor(far, 0), None);
}

#[test]
fn the_scope_frame_is_the_window_under_the_playhead() {
    let mut app = App::new(AudioPlayer::new(true, None), true);
    app.graph_config = GraphConfig { samples: 2, width: 2, ..app.graph_config.clone() };
    app.player.load_samples(1_000_000, 2, &[1, 10, 2, 20, 3, 30], true, 0);
    let frame = app.scope_frame(1);
    assert_eq!(frame.len(), 2);
    assert_eq!(frame[0].points, vec![(0, 2000), (1_000_000_000, 3000)]);
    assert_eq!(frame[1].points, vec![(0, 20_000), (1_000_000_000, 30_000)]);
    assert_eq!(app.oscilloscope.last, frame);
    app.graph_config.pause = true;
    assert_eq!(app.scope_frame(2), frame);
    app.graph_config.pause = false;
    let late = app.scope_frame(2);
    assert_eq!(late[0].points, vec![(0, 3000), (1_000_000_000, 0)]);
}

use scope_radio::display::Color;
use scope_radio::player::AudioPlayer;
use scope_radio::state::{select_next, select_previous, App, InputMode, ListState};

#[test]
fn the_interface_starts_on_the_radio() {
    let app = App::new(AudioPlayer::new(true, None), true);
    assert_eq!(app.current_tab, 4);
    assert_eq!(app.radio_state.selected(), Some(3));
    assert_eq!(
        app.radio_stations,
        vec![
            "Classical Radio",
            "Diamond City Radio",
            "Nuka-Cola Family Radio",
            "Radio Freedom",
            "Distress Signal",
            "Distress Signal",
            "Distress Signal",
            "Emergency Frequency RJ1138",
            "Military Frequency AF95",
            "Silver Shroud Radio",
        ]
    );
    assert_eq!(app.input_mode, InputMode::Normal);
    assert_eq!(app.search_input, "");
    assert_eq!(app.cursor_position, 0);
    assert_eq!(app.loading_status, None);
    assert!(!app.is_loading && app.db_open);
    assert!(app.search_results.is_empty() && app.playlists.is_empty());
    assert!(app.playlist_songs.is_empty());
    assert_eq!(app.search_results_state.selected(), None);
    assert_eq!(app.playlist_state.selected(), None);
    assert_eq!(app.playlist_songs_state.selected(), None);
    assert_eq!(app.playlist_input_name, "");
    assert_eq!(app.viewing_playlist_id, None);
    assert_eq!(app.graph_config.samples, 200);
    assert_eq!(app.graph_config.sampling_rate, 44100);
    assert_eq!(app.graph_config.scale, 1000);
    assert_eq!(app.graph_config.width, 200);
    assert!(!app.graph_config.show_ui && !app.graph_config.pause);
    assert!(!app.graph_config.scatter && !app.graph_config.references);
    assert_eq!(app.graph_config.labels_color, Color::Green);
    assert_eq!(app.graph_config.axis_color, Color::DarkGray);
    assert_eq!(app.graph_config.palette, vec![Color::Green, Color::Red]);
    assert!(!app.oscilloscope.vectorscope);
    assert!(app.oscilloscope.last.is_empty());
    assert!(!App::new(AudioPlayer::new(false, None), false).db_open);
}

#[test]
fn stations_wrap_around() {
    let mut app = App::new(AudioPlayer::new(true, None), true);
    app.next_station();
    assert_eq!(app.radio_state.selected(), Some(4));
    for _ in 0..5 {
        app.next_station();
    }
    assert_eq!(app.radio_state.selected(), Some(9));
    app.next_station();
    assert_eq!(app.radio_state.selected(), Some(0));
    app.previous_station();
    assert_eq!(app.radio_state.selected(), Some(9));
    app.previous_station();
    assert_eq!(app.radio_state.selected(), Some(8));
    app.radio_state.select(None);
    app.next_station();
    assert_eq!(app.radio_state.selected(), Some(0));
    app.radio_state.select(None);
    app.previous_station();
    assert_eq!(app.radio_state.selected(), Some(0));
    app.radio_state.select(Some(500));
    app.next_station();
    assert_eq!(app.radio_state.selected(), Some(0));
}

#[test]
fn list_cursors_wrap_in_lists_of_any_length() {
    let mut state = ListState::new();
    assert_eq!(state.selected(), None);
    select_next(&mut state, 3);
    assert_eq!(state.selected(), Some(0));
    select_next(&mut state, 3);
    select_next(&mut state, 3);
    assert_eq!(state.selected(), Some(2));
    select_next(&mut state, 3);
    assert_eq!(state.selected(), Some(0));
    select_previous(&mut state, 3);
    assert_eq!(state.selected(), Some(2));
    select_previous(&mut state, 3);
    assert_eq!(state.selected(), Some(1));
    select_next(&mut state, 0);
    assert_eq!(state.selected(), Some(0));
    select_previous(&mut state, 0);
    assert_eq!(state.selected(), Some(0));
    state.select(Some(7));
    select_previous(&mut state, 0);
    assert_eq!(state.selected(), Some(6));
    select_next(&mut state, 1);
    assert_eq!(state.selected(), Some(0));
}

#[test]
fn tabs_wrap_around() {
    let mut app = App::new(AudioPlayer::new(true, None), true);
    app.next_tab();
    assert_eq!(app.current_tab, 0);
    app.next_tab();
    assert_eq!(app.current_tab, 1);
    app.previous_tab();
    app.previous_tab();
    assert_eq!(app.current_tab, 4);
    app.previous_tab();
    assert_eq!(app.current_tab, 3);
    app.current_tab = 11;
    app.next_tab();
    assert_eq!(app.current_tab, 2);
}

#[test]
fn the_search_text_is_edited_at_the_cursor() {
    let mut app = App::new(AudioPlayer::new(true, None), true);
    app.enter_char('a');
    app.enter_char('b');
    assert_eq!((app.search_input.as_str(), app.cursor_position), ("ab", 2));
    app.move_cursor_left();
    app.enter_char('c');
    assert_eq!((app.search_input.as_str(), app.cursor_position), ("acb", 2));
    app.delete_char();
    assert_eq!((app.search_input.as_str(), app.cursor_position), ("ab", 1));
    app.move_cursor_left();
    app.move_cursor_left();
    assert_eq!(app.cursor_position, 0);
    app.delete_char();
    assert_eq!((app.search_input.as_str(), app.cursor_position), ("ab", 0));
    app.enter_char('é');
    app.enter_char('ß');
    assert_eq!((app.search_input.as_str(), app.cursor_position), ("éßab", 2));
    app.move_cursor_right();
    app.move_cursor_right();
    app.move_cursor_right();
    assert_eq!(app.cursor_position, 4);
    app.delete_char();
    assert_eq!((app.search_input.as_str(), app.cursor_position), ("éßa", 3));
    app.reset_cursor();
    assert_eq!((app.search_input.as_str(), app.cursor_position), ("éßa", 0));
    assert_eq!(app.clamp_cursor(2), 2);
    assert_eq!(app.clamp_cursor(3), 3);
    assert_eq!(app.clamp_cursor(4), 3);
    assert_eq!(app.clamp_cursor(usize::MAX), 3);
}

#[test]
fn search_results_wrap_and_need_results() {
    let mut app = App::new(AudioPlayer::new(true, None), true);
    app.next_search_result();
    assert_eq!(app.search_results_state.selected(), None);
    app.previous_search_result();
    assert_eq!(app.search_results_state.selected(), None);
    app.search_results = vec![
        (String::from("one"), String::from("u1")),
        (String::from("two"), String::from("u2")),
    ];
    app.next_search_result();
    assert_eq!(app.search_results_state.selected(), Some(0));
    app.next_search_result();
    assert_eq!(app.search_results_state.selected(), Some(1));
    app.next_search_result();
    assert_eq!(app.search_results_state.selected(), Some(0));
    app.previous_search_result();
    assert_eq!(app.search_results_state.selected(), Some(1));
    app.previous_search_result();
    assert_eq!(app.search_results_state.selected(), Some(0));
}

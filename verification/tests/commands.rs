use text_output::overlay::{
    parse_overlay_mode, parse_widget_position, Alignment, OverlayMode, WidgetPosition,
};
use text_output::settings::{
    get_server_url, max_saved_recordings, DEFAULT_MAX_SAVED_RECORDINGS,
    MAX_SAVED_RECORDINGS_LIMIT, SERVER_URL,
};

fn at(horizontal: Alignment, vertical: Alignment) -> WidgetPosition {
    WidgetPosition { horizontal, vertical }
}

#[test]
fn server_url_is_the_local_address() {
    assert_eq!(get_server_url(), "http://127.0.0.1:8765");
    assert_eq!(SERVER_URL, "http://127.0.0.1:8765");
}

#[test]
fn saved_recordings_default_to_a_thousand() {
    assert_eq!(DEFAULT_MAX_SAVED_RECORDINGS, 1000);
    assert_eq!(max_saved_recordings(None), 1000);
}

#[test]
fn saved_recordings_are_held_between_one_and_the_limit() {
    assert_eq!(MAX_SAVED_RECORDINGS_LIMIT, 100_000);
    assert_eq!(max_saved_recordings(Some(0)), 1);
    assert_eq!(max_saved_recordings(Some(1)), 1);
    assert_eq!(max_saved_recordings(Some(2)), 2);
    assert_eq!(max_saved_recordings(Some(500)), 500);
    assert_eq!(max_saved_recordings(Some(99_999)), 99_999);
    assert_eq!(max_saved_recordings(Some(100_000)), 100_000);
    assert_eq!(max_saved_recordings(Some(100_001)), 100_000);
    assert_eq!(max_saved_recordings(Some(u64::MAX)), 100_000);
}

#[test]
fn overlay_modes_are_read_by_name() {
    assert_eq!(parse_overlay_mode("always"), Ok(OverlayMode::Always));
    assert_eq!(parse_overlay_mode("never"), Ok(OverlayMode::Never));
    assert_eq!(parse_overlay_mode("recording_only"), Ok(OverlayMode::RecordingOnly));
}

#[test]
fn unknown_overlay_mode_is_an_error_that_names_it() {
    assert_eq!(parse_overlay_mode("sometimes"), Err("Invalid overlay mode: sometimes".to_string()));
    assert_eq!(parse_overlay_mode(""), Err("Invalid overlay mode: ".to_string()));
    assert_eq!(parse_overlay_mode("Always"), Err("Invalid overlay mode: Always".to_string()));
}

#[test]
fn overlay_is_shown_when_set_only_in_always_mode() {
    assert!(OverlayMode::Always.shown_when_set());
    assert!(!OverlayMode::Never.shown_when_set());
    assert!(!OverlayMode::RecordingOnly.shown_when_set());
}

#[test]
fn widget_positions_are_read_by_name() {
    assert_eq!(parse_widget_position("top-left"), Ok(at(Alignment::Start, Alignment::Start)));
    assert_eq!(parse_widget_position("top-center"), Ok(at(Alignment::Center, Alignment::Start)));
    assert_eq!(parse_widget_position("top-right"), Ok(at(Alignment::End, Alignment::Start)));
    assert_eq!(parse_widget_position("center"), Ok(at(Alignment::Center, Alignment::Center)));
    assert_eq!(parse_widget_position("bottom-left"), Ok(at(Alignment::Start, Alignment::End)));
    assert_eq!(parse_widget_position("bottom-center"), Ok(at(Alignment::Center, Alignment::End)));
    assert_eq!(parse_widget_position("bottom-right"), Ok(at(Alignment::End, Alignment::End)));
}

#[test]
fn unknown_widget_position_is_an_error_that_names_it() {
    assert_eq!(
        parse_widget_position("middle"),
        Err("Invalid widget position: middle".to_string())
    );
    assert_eq!(
        parse_widget_position("top_left"),
        Err("Invalid widget position: top_left".to_string())
    );
    assert_eq!(parse_widget_position(""), Err("Invalid widget position: ".to_string()));
}

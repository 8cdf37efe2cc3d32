use hybar::protocol::ClassifiedEvent;
use hybar::protocol::classify_line;

#[test]
fn workspace_lines_classify_to_workspace_updated() {
    assert_eq!(classify_line("workspace>>2"), ClassifiedEvent::WorkspaceUpdated);
    assert_eq!(classify_line("workspace>>"), ClassifiedEvent::WorkspaceUpdated);
    assert_eq!(classify_line("change>>anything at all"), ClassifiedEvent::WorkspaceUpdated);
}

#[test]
fn fullscreen_flag_is_payload_contains_one() {
    assert_eq!(
        classify_line("fullscreen>>1"),
        ClassifiedEvent::FullscreenToggled { is_fullscreen: true }
    );
    assert_eq!(
        classify_line("fullscreen>>0"),
        ClassifiedEvent::FullscreenToggled { is_fullscreen: false }
    );
    assert_eq!(
        classify_line("fullscreen>>01"),
        ClassifiedEvent::FullscreenToggled { is_fullscreen: true }
    );
    assert_eq!(
        classify_line("fullscreen>>"),
        ClassifiedEvent::FullscreenToggled { is_fullscreen: false }
    );
}

#[test]
fn degenerate_titles_normalize_to_empty() {
    assert_eq!(
        classify_line("activewindow>>,"),
        ClassifiedEvent::ActiveWindowTitleChanged { title: String::new() }
    );
    assert_eq!(
        classify_line("activewindow>> - "),
        ClassifiedEvent::ActiveWindowTitleChanged { title: String::new() }
    );
    assert_eq!(
        classify_line("activewindow>>"),
        ClassifiedEvent::ActiveWindowTitleChanged { title: String::new() }
    );
}

#[test]
fn real_title_passes_through_trimmed() {
    assert_eq!(
        classify_line("activewindow>>Firefox - Mozilla Firefox"),
        ClassifiedEvent::ActiveWindowTitleChanged {
            title: "Firefox - Mozilla Firefox".to_string()
        }
    );
}

#[test]
fn title_after_class_comma_is_kept() {
    assert_eq!(
        classify_line("activewindow>>firefox,Mozilla Firefox"),
        ClassifiedEvent::ActiveWindowTitleChanged { title: "Mozilla Firefox".to_string() }
    );
}

#[test]
fn urgent_id_is_trimmed() {
    assert_eq!(
        classify_line("urgent>>  ws3 "),
        ClassifiedEvent::WorkspaceUrgent { id: "ws3".to_string() }
    );
    assert_eq!(
        classify_line("urgent>>\tws4\t"),
        ClassifiedEvent::WorkspaceUrgent { id: "ws4".to_string() }
    );
}

#[test]
fn openwindow_takes_class_and_lowercased_title() {
    assert_eq!(
        classify_line("openwindow>>kitty,1,Terminal"),
        ClassifiedEvent::WindowOpened {
            window_class: "kitty".to_string(),
            window_title: "terminal".to_string(),
        }
    );
}

#[test]
fn openwindow_with_missing_fields_defaults_to_empty() {
    assert_eq!(
        classify_line("openwindow>>kitty"),
        ClassifiedEvent::WindowOpened {
            window_class: "kitty".to_string(),
            window_title: String::new(),
        }
    );
    assert_eq!(
        classify_line("openwindow>>"),
        ClassifiedEvent::WindowOpened {
            window_class: String::new(),
            window_title: String::new(),
        }
    );
}

#[test]
fn openwindow_ignores_fields_beyond_the_third() {
    assert_eq!(
        classify_line("openwindow>>kitty,1,My,Term"),
        ClassifiedEvent::WindowOpened {
            window_class: "kitty".to_string(),
            window_title: "my".to_string(),
        }
    );
}

#[test]
fn closewindow_keeps_class_verbatim() {
    assert_eq!(
        classify_line("closewindow>>kitty"),
        ClassifiedEvent::WindowClosed { window_class: "kitty".to_string() }
    );
}

#[test]
fn unknown_or_malformed_lines_are_unrecognized() {
    assert_eq!(classify_line("monitoradded>>DP-1"), ClassifiedEvent::Unrecognized);
    assert_eq!(classify_line("no separator here"), ClassifiedEvent::Unrecognized);
    assert_eq!(classify_line(""), ClassifiedEvent::Unrecognized);
}

#[test]
fn line_splits_at_first_separator_only() {
    assert_eq!(
        classify_line("activewindow>>a>>b"),
        ClassifiedEvent::ActiveWindowTitleChanged { title: "a>>b".to_string() }
    );
}

#[test]
fn event_name_is_trimmed_before_matching() {
    assert_eq!(classify_line(" workspace >>2"), ClassifiedEvent::WorkspaceUpdated);
}

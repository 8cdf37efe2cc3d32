use hybar::socket::resolve_connection_target;
use hybar::socket::socket_candidates;
use hybar::widget::Clock;
use hybar::widget::Widget;
use hybar::widget::clock_text;
use hybar::widget::format_hms;
use hybar::workspaces::Workspace;
use hybar::workspaces::WorkspaceMark;
use hybar::workspaces::sort_workspaces;
use hybar::workspaces::workspace_marks;

#[test]
fn times_format_zero_padded() {
    assert_eq!(format_hms(9, 5, 7), "09:05:07");
    assert_eq!(format_hms(23, 59, 59), "23:59:59");
    assert_eq!(format_hms(0, 0, 0), "00:00:00");
}

#[test]
fn clock_text_has_clock_shape() {
    let text = clock_text();
    let chars: Vec<char> = text.chars().collect();
    assert_eq!(chars.len(), 8);
    assert_eq!(chars[2], ':');
    assert_eq!(chars[5], ':');
    for i in [0usize, 1, 3, 4, 6, 7] {
        assert!(chars[i].is_ascii_digit());
    }
}

#[test]
fn clock_widget_identifies_itself() {
    let clock = Clock;
    assert_eq!(clock.id(), "clock");
    assert!(clock.needs_thread());
    assert_eq!(clock.render().len(), 8);
}

fn ws(id: i32, name: &str, lastwindow: &str) -> Workspace {
    Workspace { id, name: name.to_string(), lastwindow: lastwindow.to_string() }
}

#[test]
fn workspaces_sort_ascending_by_id() {
    let sorted = sort_workspaces(vec![ws(3, "three", ""), ws(1, "one", ""), ws(2, "two", "")]);
    let ids: Vec<i32> = sorted.iter().map(|w| w.id).collect();
    assert_eq!(ids, vec![1, 2, 3]);
    assert_eq!(sorted[0].name, "one");
}

#[test]
fn active_wins_over_urgent_over_plain() {
    let list = vec![
        ws(1, "one", "0xabc"),
        ws(2, "two", "0xdef"),
        ws(3, "three", "0xdef"),
    ];
    let marks = workspace_marks(&list, Some(2), &Some("def".to_string()));
    assert_eq!(
        marks,
        vec![WorkspaceMark::Plain, WorkspaceMark::Active, WorkspaceMark::Urgent]
    );
}

#[test]
fn no_active_workspace_means_no_active_mark() {
    let list = vec![ws(1, "one", "0xabc")];
    let marks = workspace_marks(&list, None, &None);
    assert_eq!(marks, vec![WorkspaceMark::Plain]);
}

#[test]
fn socket_candidates_join_runtime_dir_and_instance() {
    let candidates = socket_candidates("/run/user/1000", "abc123");
    assert_eq!(
        candidates,
        vec![
            "/run/user/1000/hypr/abc123/.socket2.sock".to_string(),
            "/run/user/1000/hypr/abc123/hyprland.sock2".to_string(),
        ]
    );
}

#[test]
fn missing_environment_means_no_target() {
    assert_eq!(resolve_connection_target(&None, &Some("abc".to_string())), None);
    assert_eq!(resolve_connection_target(&Some("/run".to_string()), &None), None);
    assert_eq!(resolve_connection_target(&None, &None), None);
    let resolved = resolve_connection_target(
        &Some("/run/user/1000".to_string()),
        &Some("abc123".to_string()),
    );
    assert_eq!(
        resolved,
        Some(vec![
            "/run/user/1000/hypr/abc123/.socket2.sock".to_string(),
            "/run/user/1000/hypr/abc123/hyprland.sock2".to_string(),
        ])
    );
}

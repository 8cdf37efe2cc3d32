use hybar::client::HyprlandClient;
use hybar::pending::OutboundEvent;
use hybar::pending::PendingState;
use hybar::protocol::classify_line;

fn fresh_client() -> HyprlandClient {
    // The consumer side is not under test here; these tests never publish.
    let (sender, _receiver) = async_channel::unbounded::<OutboundEvent>();
    HyprlandClient::new(sender)
}

#[test]
fn workspace_burst_coalesces_to_one_event() {
    let mut client = fresh_client();
    client.event_matches("workspace>>1");
    client.event_matches("workspace>>2");
    client.event_matches("workspace>>3");
    client.event_matches("change>>x");
    let out = client.debounce();
    assert_eq!(out, vec![OutboundEvent::WorkspaceUpdated]);
}

#[test]
fn idle_tick_emits_nothing() {
    let mut client = fresh_client();
    assert_eq!(client.debounce(), Vec::<OutboundEvent>::new());
    client.event_matches("workspace>>1");
    let first = client.debounce();
    assert_eq!(first.len(), 1);
    // No new classified events since the last flush: the next tick is silent.
    assert_eq!(client.debounce(), Vec::<OutboundEvent>::new());
}

#[test]
fn three_events_in_one_window_flush_in_flush_order() {
    let mut client = fresh_client();
    client.event_matches("workspace>>2");
    client.event_matches("fullscreen>>1");
    client.event_matches("activewindow>>firefox,Mozilla Firefox");
    let out = client.debounce();
    assert_eq!(
        out,
        vec![
            OutboundEvent::WorkspaceUpdated,
            OutboundEvent::FullscreenToggled { is_fullscreen: true },
            OutboundEvent::ActiveWindowTitleChanged { title: "Mozilla Firefox".to_string() },
        ]
    );
}

#[test]
fn open_then_close_same_class_emits_both() {
    let mut client = fresh_client();
    client.event_matches("openwindow>>kitty,1,Terminal");
    client.event_matches("closewindow>>kitty");
    let out = client.debounce();
    assert_eq!(
        out,
        vec![
            OutboundEvent::WindowOpened {
                window_title: "terminal".to_string(),
                window_class: "kitty".to_string(),
            },
            OutboundEvent::WindowClosed { window_class: "kitty".to_string() },
        ]
    );
}

#[test]
fn urgent_implies_workspace_update() {
    let mut client = fresh_client();
    client.event_matches("urgent>>ws2");
    let out = client.debounce();
    assert_eq!(
        out,
        vec![
            OutboundEvent::WorkspaceUpdated,
            OutboundEvent::WorkspaceUrgent { id: "ws2".to_string() },
        ]
    );
}

#[test]
fn latest_title_wins_within_one_window() {
    let mut client = fresh_client();
    client.event_matches("activewindow>>kitty,first");
    client.event_matches("activewindow>>kitty,second");
    let out = client.debounce();
    assert_eq!(
        out,
        vec![OutboundEvent::ActiveWindowTitleChanged { title: "second".to_string() }]
    );
}

#[test]
fn unrecognized_lines_leave_nothing_pending() {
    let mut client = fresh_client();
    client.event_matches("monitoradded>>DP-1");
    client.event_matches("junk");
    assert_eq!(client.debounce(), Vec::<OutboundEvent>::new());
}

#[test]
fn each_window_flushes_only_its_own_events() {
    let mut client = fresh_client();
    client.event_matches("workspace>>1");
    assert_eq!(client.debounce(), vec![OutboundEvent::WorkspaceUpdated]);
    client.event_matches("fullscreen>>1");
    assert_eq!(
        client.debounce(),
        vec![OutboundEvent::FullscreenToggled { is_fullscreen: true }]
    );
}

#[test]
fn pending_state_applies_and_flushes_directly() {
    let mut pending = PendingState::new();
    pending.apply(classify_line("fullscreen>>1"));
    pending.apply(classify_line("fullscreen>>0"));
    let out = pending.flush();
    assert_eq!(out, vec![OutboundEvent::FullscreenToggled { is_fullscreen: false }]);
    assert_eq!(pending, PendingState::new());
}

use hybar::client::HyprlandClient;
use hybar::client::subscription_request;
use hybar::pending::OutboundEvent;
use hybar::publish::Publisher;

#[test]
fn published_events_arrive_on_the_channel() {
    let (sender, receiver) = async_channel::unbounded::<OutboundEvent>();
    let publisher = Publisher::new(sender);
    assert!(publisher.publish(OutboundEvent::WorkspaceUpdated));
    assert_eq!(receiver.try_recv(), Ok(OutboundEvent::WorkspaceUpdated));
}

#[test]
fn full_channel_drops_instead_of_blocking() {
    let (sender, receiver) = async_channel::bounded::<OutboundEvent>(1);
    let publisher = Publisher::new(sender);
    assert!(publisher.publish(OutboundEvent::WorkspaceUpdated));
    assert!(!publisher.publish(OutboundEvent::FullscreenToggled { is_fullscreen: true }));
    assert_eq!(receiver.try_recv(), Ok(OutboundEvent::WorkspaceUpdated));
    assert!(receiver.try_recv().is_err());
}

#[test]
fn closed_channel_is_absorbed() {
    let (sender, receiver) = async_channel::unbounded::<OutboundEvent>();
    drop(receiver);
    let publisher = Publisher::new(sender);
    assert!(!publisher.publish(OutboundEvent::WorkspaceUpdated));
}

#[test]
fn debounce_and_publish_delivers_the_flush_in_order() {
    let (sender, receiver) = async_channel::bounded::<OutboundEvent>(16);
    let mut client = HyprlandClient::new(sender);
    client.event_matches("workspace>>2");
    client.event_matches("fullscreen>>1");
    client.event_matches("activewindow>>firefox,Mozilla Firefox");
    let delivered = client.debounce_and_publish();
    assert_eq!(delivered, 3);
    assert_eq!(receiver.try_recv(), Ok(OutboundEvent::WorkspaceUpdated));
    assert_eq!(
        receiver.try_recv(),
        Ok(OutboundEvent::FullscreenToggled { is_fullscreen: true })
    );
    assert_eq!(
        receiver.try_recv(),
        Ok(OutboundEvent::ActiveWindowTitleChanged { title: "Mozilla Firefox".to_string() })
    );
    assert!(receiver.try_recv().is_err());
}

#[test]
fn publish_failure_still_clears_pending_state() {
    let (sender, receiver) = async_channel::unbounded::<OutboundEvent>();
    drop(receiver);
    let mut client = HyprlandClient::new(sender);
    client.event_matches("workspace>>1");
    assert_eq!(client.debounce_and_publish(), 0);
    assert_eq!(client.debounce_and_publish(), 0);
}

#[test]
fn subscription_request_names_the_categories() {
    assert_eq!(subscription_request(), "[\"subscribe\", [\"workspace\", \"fullscreen\"]]");
}

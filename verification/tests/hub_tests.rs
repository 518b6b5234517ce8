use onyx_server::hub::Hub;

fn names(v: &[(String, Vec<String>)]) -> Vec<(String, Vec<String>)> {
    let mut out = v.to_vec();
    out.sort();
    out
}

#[test]
fn new_hub_is_empty() {
    let hub = Hub::new();
    assert_eq!(hub.online_count(), 0);
    assert!(hub.send_to_user("alice").is_empty());
    assert!(hub.broadcast_to_subscribed().is_empty());
    assert!(hub.get_voice_channels().is_empty());
}

#[test]
fn register_adds_connections_in_order() {
    let mut hub = Hub::new();
    hub.register("alice", 1);
    hub.register("alice", 2);
    hub.register("bob", 3);
    assert_eq!(hub.send_to_user("alice"), vec![1, 2]);
    assert_eq!(hub.send_to_user("bob"), vec![3]);
    assert_eq!(hub.online_count(), 2);
}

#[test]
fn unregister_last_connection_drops_user_and_subscription() {
    let mut hub = Hub::new();
    hub.register("alice", 1);
    hub.register("alice", 2);
    hub.subscribe("alice");
    hub.unregister("alice", 1);
    assert_eq!(hub.send_to_user("alice"), vec![2]);
    assert_eq!(hub.broadcast_to_subscribed(), vec![2]);
    hub.unregister("alice", 2);
    assert!(hub.send_to_user("alice").is_empty());
    assert_eq!(hub.online_count(), 0);
    assert!(hub.broadcast_to_subscribed().is_empty());
    // Re-registering does not bring the subscription back.
    hub.register("alice", 5);
    assert!(hub.broadcast_to_subscribed().is_empty());
}

#[test]
fn unregister_unknown_connection_changes_nothing() {
    let mut hub = Hub::new();
    hub.register("alice", 1);
    hub.subscribe("alice");
    hub.unregister("alice", 9);
    hub.unregister("carol", 1);
    assert_eq!(hub.send_to_user("alice"), vec![1]);
    assert_eq!(hub.broadcast_to_subscribed(), vec![1]);
}

#[test]
fn register_then_unregister_restores_connections() {
    let mut hub = Hub::new();
    hub.register("alice", 1);
    hub.subscribe("alice");
    hub.register("alice", 2);
    hub.unregister("alice", 2);
    assert_eq!(hub.send_to_user("alice"), vec![1]);
    assert_eq!(hub.broadcast_to_subscribed(), vec![1]);
}

#[test]
fn subscribe_is_idempotent_and_undone() {
    let mut hub = Hub::new();
    hub.register("alice", 1);
    hub.register("bob", 2);
    hub.subscribe("alice");
    hub.subscribe("alice");
    assert_eq!(hub.broadcast_to_subscribed(), vec![1]);
    assert_eq!(hub.broadcast_to_all_subscribed(), vec![1]);
    hub.subscribe("bob");
    assert_eq!(hub.broadcast_to_subscribed(), vec![1, 2]);
    hub.unsubscribe("alice");
    assert_eq!(hub.broadcast_to_subscribed(), vec![2]);
}

#[test]
fn broadcast_to_all_reaches_connected_members_only() {
    let mut hub = Hub::new();
    hub.register("alice", 1);
    hub.register("bob", 2);
    hub.register("bob", 3);
    hub.register("mallory", 4);
    let members = vec!["alice".to_string(), "bob".to_string(), "carol".to_string()];
    assert_eq!(hub.broadcast_to_all(&members), vec![1, 2, 3]);
}

#[test]
fn voice_join_appends_once() {
    let mut hub = Hub::new();
    assert_eq!(hub.voice_join("room", "alice"), vec!["alice".to_string()]);
    assert_eq!(hub.voice_join("room", "bob"), vec!["alice".to_string(), "bob".to_string()]);
    assert_eq!(hub.voice_join("room", "alice"), vec!["alice".to_string(), "bob".to_string()]);
}

#[test]
fn voice_leave_reports_presence_and_closes_empty_channels() {
    let mut hub = Hub::new();
    hub.voice_join("room", "alice");
    hub.voice_join("room", "bob");
    assert!(!hub.voice_leave("room", "carol"));
    assert!(!hub.voice_leave("hall", "alice"));
    assert!(hub.voice_leave("room", "alice"));
    assert_eq!(hub.get_voice_channels(), vec![("room".to_string(), vec!["bob".to_string()])]);
    assert!(hub.voice_leave("room", "bob"));
    assert!(hub.get_voice_channels().is_empty());
}

#[test]
fn voice_join_then_leave_restores_channels() {
    let mut hub = Hub::new();
    hub.voice_join("room", "alice");
    let before = hub.get_voice_channels();
    hub.voice_join("room", "bob");
    hub.voice_leave("room", "bob");
    assert_eq!(hub.get_voice_channels(), before);
}

#[test]
fn voice_leave_all_leaves_every_channel() {
    let mut hub = Hub::new();
    hub.voice_join("a", "alice");
    hub.voice_join("b", "alice");
    hub.voice_join("b", "bob");
    hub.voice_join("c", "bob");
    let mut left = hub.voice_leave_all("alice");
    left.sort();
    assert_eq!(left, vec!["a".to_string(), "b".to_string()]);
    assert_eq!(
        names(&hub.get_voice_channels()),
        vec![
            ("b".to_string(), vec!["bob".to_string()]),
            ("c".to_string(), vec!["bob".to_string()]),
        ]
    );
    assert!(hub.voice_leave_all("alice").is_empty());
}

#[test]
fn broadcast_to_voice_channel_skips_excluded() {
    let mut hub = Hub::new();
    hub.register("alice", 1);
    hub.register("bob", 2);
    hub.register("bob", 3);
    hub.register("carol", 4);
    hub.voice_join("room", "alice");
    hub.voice_join("room", "bob");
    hub.voice_join("room", "dave");
    assert_eq!(hub.broadcast_to_voice_channel("room", None), vec![1, 2, 3]);
    assert_eq!(hub.broadcast_to_voice_channel("room", Some("alice")), vec![2, 3]);
    assert!(hub.broadcast_to_voice_channel("hall", None).is_empty());
}

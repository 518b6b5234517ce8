use onyx_server::hub::Hub;
use onyx_server::protocol::{ClientMessage, ServerMessage};
use onyx_server::session::{
    handle_client_message, handle_public_client_message, invalid_message, lookup_needed, on_connect,
    on_disconnect, Delivery, LookupKind, MemberLookup, Outgoing,
};

fn error_text(p: &Outgoing) -> Option<String> {
    match p {
        Outgoing::Message(ServerMessage::Error { message }) => Some(message.clone()),
        _ => None,
    }
}

fn connected() -> Hub {
    let mut hub = Hub::new();
    on_connect(&mut hub, "alice", 1, false);
    on_connect(&mut hub, "bob", 2, false);
    hub
}

#[test]
fn connect_greets_and_registers() {
    let mut hub = Hub::new();
    let d = on_connect(&mut hub, "alice", 1, false);
    assert_eq!(d.to, vec![1]);
    assert!(matches!(d.packet, Outgoing::Message(ServerMessage::InitComplete)));
    assert_eq!(hub.send_to_user("alice"), vec![1]);
    assert!(hub.broadcast_to_subscribed().is_empty());
}

#[test]
fn public_connect_is_read_only_and_subscribed() {
    let mut hub = Hub::new();
    let d = on_connect(&mut hub, "public:anon:x", 7, true);
    assert_eq!(d.to, vec![7]);
    assert!(matches!(d.packet, Outgoing::ReadOnlyInit));
    assert_eq!(hub.broadcast_to_subscribed(), vec![7]);
}

#[test]
fn ping_is_answered_on_same_connection() {
    let mut hub = connected();
    let out = handle_client_message(&mut hub, "alice", 1, ClientMessage::Ping, MemberLookup::NotNeeded, true);
    assert_eq!(out.len(), 1);
    assert_eq!(out[0].to, vec![1]);
    assert!(matches!(out[0].packet, Outgoing::Message(ServerMessage::Pong)));
}

#[test]
fn lookup_needed_by_message_kind() {
    assert!(matches!(lookup_needed(&ClientMessage::SubscribeGroup { group_id: 1 }), LookupKind::Membership));
    assert!(matches!(
        lookup_needed(&ClientMessage::Presence { state: "online".to_string() }),
        LookupKind::MemberList
    ));
    assert!(matches!(lookup_needed(&ClientMessage::Ping), LookupKind::Nothing));
}

#[test]
fn subscribe_requires_membership() {
    let mut hub = connected();
    let out = handle_client_message(
        &mut hub,
        "alice",
        1,
        ClientMessage::SubscribeGroup { group_id: 1 },
        MemberLookup::IsMember(false),
        true,
    );
    assert_eq!(out.len(), 1);
    assert_eq!(out[0].to, vec![1]);
    assert_eq!(error_text(&out[0].packet), Some("Not a member of this group".to_string()));
    assert!(hub.broadcast_to_subscribed().is_empty());

    let out = handle_client_message(
        &mut hub,
        "alice",
        1,
        ClientMessage::SubscribeGroup { group_id: 1 },
        MemberLookup::Unavailable,
        true,
    );
    assert!(out.is_empty());
    assert!(hub.broadcast_to_subscribed().is_empty());

    let out = handle_client_message(
        &mut hub,
        "alice",
        1,
        ClientMessage::SubscribeGroup { group_id: 1 },
        MemberLookup::IsMember(true),
        true,
    );
    assert!(out.is_empty());
    assert_eq!(hub.broadcast_to_subscribed(), vec![1]);

    handle_client_message(
        &mut hub,
        "alice",
        1,
        ClientMessage::UnsubscribeGroup { group_id: 1 },
        MemberLookup::NotNeeded,
        true,
    );
    assert!(hub.broadcast_to_subscribed().is_empty());
}

#[test]
fn typing_goes_to_subscribers() {
    let mut hub = connected();
    hub.subscribe("bob");
    let out =
        handle_client_message(&mut hub, "alice", 1, ClientMessage::Typing { group_id: 4 }, MemberLookup::NotNeeded, true);
    assert_eq!(out.len(), 1);
    assert_eq!(out[0].to, vec![2]);
    match &out[0].packet {
        Outgoing::Typing { group_id, username } => {
            assert_eq!(*group_id, 4);
            assert_eq!(username, "alice");
        }
        _ => panic!("expected a typing notice"),
    }
}

#[test]
fn presence_goes_to_members_and_offline_is_not_online() {
    let mut hub = connected();
    let members = vec!["alice".to_string(), "bob".to_string()];
    let out = handle_client_message(
        &mut hub,
        "alice",
        1,
        ClientMessage::Presence { state: "offline".to_string() },
        MemberLookup::Members(members.clone()),
        true,
    );
    assert_eq!(out[0].to, vec![1, 2]);
    match &out[0].packet {
        Outgoing::Presence { from, state, is_online } => {
            assert_eq!(from, "alice");
            assert_eq!(state, "offline");
            assert!(!*is_online);
        }
        _ => panic!("expected presence"),
    }
    let out = handle_client_message(
        &mut hub,
        "alice",
        1,
        ClientMessage::Presence { state: "away".to_string() },
        MemberLookup::Members(members),
        true,
    );
    assert!(matches!(out[0].packet, Outgoing::Presence { is_online: true, .. }));
    let out = handle_client_message(
        &mut hub,
        "alice",
        1,
        ClientMessage::Presence { state: "away".to_string() },
        MemberLookup::Unavailable,
        true,
    );
    assert!(out.is_empty());
}

#[test]
fn voice_join_replies_with_state_and_announces() {
    let mut hub = connected();
    hub.subscribe("bob");
    let out = handle_client_message(
        &mut hub,
        "alice",
        1,
        ClientMessage::VoiceJoin { channel_id: "room".to_string() },
        MemberLookup::NotNeeded,
        true,
    );
    assert_eq!(out.len(), 2);
    assert_eq!(out[0].to, vec![1]);
    match &out[0].packet {
        Outgoing::Message(ServerMessage::VoiceChannelState { channel_id, users }) => {
            assert_eq!(channel_id, "room");
            assert_eq!(users, &vec!["alice".to_string()]);
        }
        _ => panic!("expected channel state"),
    }
    assert_eq!(out[1].to, vec![2]);
    assert!(matches!(&out[1].packet,
        Outgoing::Message(ServerMessage::VoiceUserJoined { channel_id, username })
            if channel_id == "room" && username == "alice"));

    let out = handle_client_message(
        &mut hub,
        "alice",
        1,
        ClientMessage::VoiceLeave { channel_id: "room".to_string() },
        MemberLookup::NotNeeded,
        true,
    );
    assert_eq!(out[0].to, vec![2]);
    assert!(matches!(&out[0].packet,
        Outgoing::Message(ServerMessage::VoiceUserLeft { channel_id, username })
            if channel_id == "room" && username == "alice"));
    assert!(hub.get_voice_channels().is_empty());
}

#[test]
fn signalling_goes_to_target_only() {
    let mut hub = connected();
    let out = handle_client_message(
        &mut hub,
        "alice",
        1,
        ClientMessage::VoiceOffer {
            channel_id: "room".to_string(),
            target: "bob".to_string(),
            sdp: "v=0".to_string(),
        },
        MemberLookup::NotNeeded,
        true,
    );
    assert_eq!(out[0].to, vec![2]);
    assert!(matches!(&out[0].packet,
        Outgoing::Message(ServerMessage::VoiceOffer { from, sdp, .. }) if from == "alice" && sdp == "v=0"));
    let out = handle_client_message(
        &mut hub,
        "bob",
        2,
        ClientMessage::VoiceAnswer {
            channel_id: "room".to_string(),
            target: "alice".to_string(),
            sdp: "v=1".to_string(),
        },
        MemberLookup::NotNeeded,
        true,
    );
    assert_eq!(out[0].to, vec![1]);
    let out = handle_client_message(
        &mut hub,
        "bob",
        2,
        ClientMessage::VoiceIce {
            channel_id: "room".to_string(),
            target: "nobody".to_string(),
            candidate: "{}".to_string(),
        },
        MemberLookup::NotNeeded,
        true,
    );
    assert!(out[0].to.is_empty());
    assert!(matches!(&out[0].packet,
        Outgoing::Message(ServerMessage::VoiceIce { candidate, from, .. }) if candidate == "{}" && from == "bob"));
}

#[test]
fn disconnect_leaves_voice_and_notifies() {
    let mut hub = connected();
    hub.subscribe("bob");
    hub.voice_join("a", "alice");
    hub.voice_join("b", "alice");
    hub.voice_join("b", "bob");
    hub.unregister("alice", 1);
    let (channels, notices): (Vec<String>, Vec<Delivery>) = on_disconnect(&mut hub, "alice");
    assert_eq!(channels.len(), 2);
    assert_eq!(notices.len(), 2);
    for (c, d) in channels.iter().zip(notices.iter()) {
        assert_eq!(d.to, vec![2]);
        assert!(matches!(&d.packet,
            Outgoing::Message(ServerMessage::VoiceUserLeft { channel_id, username })
                if channel_id == c && username == "alice"));
    }
    assert_eq!(hub.get_voice_channels(), vec![("b".to_string(), vec!["bob".to_string()])]);
}

#[test]
fn public_connection_only_answers_ping() {
    assert!(matches!(handle_public_client_message(&ClientMessage::Ping), Outgoing::Message(ServerMessage::Pong)));
    let p = handle_public_client_message(&ClientMessage::Typing { group_id: 1 });
    assert_eq!(error_text(&p), Some("Read-only connection".to_string()));
}

#[test]
fn invalid_message_text() {
    let p = invalid_message("expected value at line 1 column 1");
    assert_eq!(error_text(&p), Some("Invalid message: expected value at line 1 column 1".to_string()));
}

#[test]
fn voice_messages_refused_while_voice_is_off() {
    let mut hub = connected();
    hub.subscribe("bob");
    let msgs = vec![
        ClientMessage::VoiceJoin { channel_id: "room".to_string() },
        ClientMessage::VoiceLeave { channel_id: "room".to_string() },
        ClientMessage::VoiceOffer {
            channel_id: "room".to_string(),
            target: "bob".to_string(),
            sdp: "v=0".to_string(),
        },
        ClientMessage::VoiceAnswer {
            channel_id: "room".to_string(),
            target: "bob".to_string(),
            sdp: "v=1".to_string(),
        },
        ClientMessage::VoiceIce {
            channel_id: "room".to_string(),
            target: "bob".to_string(),
            candidate: "{}".to_string(),
        },
    ];
    for m in msgs {
        let out = handle_client_message(&mut hub, "alice", 1, m, MemberLookup::NotNeeded, false);
        assert_eq!(out.len(), 1);
        assert_eq!(out[0].to, vec![1]);
        assert_eq!(error_text(&out[0].packet), Some("Voice channels are disabled on this server".to_string()));
        assert!(hub.get_voice_channels().is_empty());
    }
}

#[test]
fn other_messages_unaffected_while_voice_is_off() {
    let mut hub = connected();
    let out = handle_client_message(&mut hub, "alice", 1, ClientMessage::Ping, MemberLookup::NotNeeded, false);
    assert_eq!(out[0].to, vec![1]);
    assert!(matches!(out[0].packet, Outgoing::Message(ServerMessage::Pong)));
}

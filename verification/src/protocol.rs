//! The messages exchanged over a client's WebSocket.
//!
//! A JSON value that the server only passes on (an ICE candidate) is held as
//! its JSON text.

use vstd::prelude::*;
use crate::hub::names;

verus! {

/// A message a client sends.
pub enum ClientMessage {
    Ping,
    SubscribeGroup { group_id: i64 },
    UnsubscribeGroup { group_id: i64 },
    Typing { group_id: i64 },
    Presence { state: String },
    VoiceJoin { channel_id: String },
    VoiceLeave { channel_id: String },
    VoiceOffer { channel_id: String, target: String, sdp: String },
    VoiceAnswer { channel_id: String, target: String, sdp: String },
    /// `candidate` is the JSON text of `{ candidate, sdpMid, sdpMLineIndex }`.
    VoiceIce { channel_id: String, target: String, candidate: String },
}

/// A message the server sends.
pub enum ServerMessage {
    Pong,
    InitComplete,
    Error { message: String },
    VoiceChannelState { channel_id: String, users: Vec<String> },
    VoiceUserJoined { channel_id: String, username: String },
    VoiceUserLeft { channel_id: String, username: String },
    VoiceOffer { channel_id: String, from: String, sdp: String },
    VoiceAnswer { channel_id: String, from: String, sdp: String },
    /// `candidate` is the JSON text of the candidate object.
    VoiceIce { channel_id: String, from: String, candidate: String },
}

/// The content of a client message.
pub enum ClientMessageView {
    Ping,
    SubscribeGroup { group_id: i64 },
    UnsubscribeGroup { group_id: i64 },
    Typing { group_id: i64 },
    Presence { state: Seq<char> },
    VoiceJoin { channel_id: Seq<char> },
    VoiceLeave { channel_id: Seq<char> },
    VoiceOffer { channel_id: Seq<char>, target: Seq<char>, sdp: Seq<char> },
    VoiceAnswer { channel_id: Seq<char>, target: Seq<char>, sdp: Seq<char> },
    VoiceIce { channel_id: Seq<char>, target: Seq<char>, candidate: Seq<char> },
}

/// The content of a server message.
pub enum ServerMessageView {
    Pong,
    InitComplete,
    Error { message: Seq<char> },
    VoiceChannelState { channel_id: Seq<char>, users: Seq<Seq<char>> },
    VoiceUserJoined { channel_id: Seq<char>, username: Seq<char> },
    VoiceUserLeft { channel_id: Seq<char>, username: Seq<char> },
    VoiceOffer { channel_id: Seq<char>, from: Seq<char>, sdp: Seq<char> },
    VoiceAnswer { channel_id: Seq<char>, from: Seq<char>, sdp: Seq<char> },
    VoiceIce { channel_id: Seq<char>, from: Seq<char>, candidate: Seq<char> },
}

impl View for ClientMessage {
    type V = ClientMessageView;

    open spec fn view(&self) -> ClientMessageView {
        match self {
            ClientMessage::Ping => ClientMessageView::Ping,
            ClientMessage::SubscribeGroup { group_id } => ClientMessageView::SubscribeGroup {
                group_id: *group_id,
            },
            ClientMessage::UnsubscribeGroup { group_id } => ClientMessageView::UnsubscribeGroup {
                group_id: *group_id,
            },
            ClientMessage::Typing { group_id } => ClientMessageView::Typing { group_id: *group_id },
            ClientMessage::Presence { state } => ClientMessageView::Presence { state: state@ },
            ClientMessage::VoiceJoin { channel_id } => ClientMessageView::VoiceJoin {
                channel_id: channel_id@,
            },
            ClientMessage::VoiceLeave { channel_id } => ClientMessageView::VoiceLeave {
                channel_id: channel_id@,
            },
            ClientMessage::VoiceOffer { channel_id, target, sdp } => ClientMessageView::VoiceOffer {
                channel_id: channel_id@,
                target: target@,
                sdp: sdp@,
            },
            ClientMessage::VoiceAnswer { channel_id, target, sdp } => ClientMessageView::VoiceAnswer {
                channel_id: channel_id@,
                target: target@,
                sdp: sdp@,
            },
            ClientMessage::VoiceIce { channel_id, target, candidate } => ClientMessageView::VoiceIce {
                channel_id: channel_id@,
                target: target@,
                candidate: candidate@,
            },
        }
    }
}

impl View for ServerMessage {
    type V = ServerMessageView;

    open spec fn view(&self) -> ServerMessageView {
        match self {
            ServerMessage::Pong => ServerMessageView::Pong,
            ServerMessage::InitComplete => ServerMessageView::InitComplete,
            ServerMessage::Error { message } => ServerMessageView::Error { message: message@ },
            ServerMessage::VoiceChannelState { channel_id, users } => ServerMessageView::VoiceChannelState {
                channel_id: channel_id@,
                users: names(*users),
            },
            ServerMessage::VoiceUserJoined { channel_id, username } => ServerMessageView::VoiceUserJoined {
                channel_id: channel_id@,
                username: username@,
            },
            ServerMessage::VoiceUserLeft { channel_id, username } => ServerMessageView::VoiceUserLeft {
                channel_id: channel_id@,
                username: username@,
            },
            ServerMessage::VoiceOffer { channel_id, from, sdp } => ServerMessageView::VoiceOffer {
                channel_id: channel_id@,
                from: from@,
                sdp: sdp@,
            },
            ServerMessage::VoiceAnswer { channel_id, from, sdp } => ServerMessageView::VoiceAnswer {
                channel_id: channel_id@,
                from: from@,
                sdp: sdp@,
            },
            ServerMessage::VoiceIce { channel_id, from, candidate } => ServerMessageView::VoiceIce {
                channel_id: channel_id@,
                from: from@,
                candidate: candidate@,
            },
        }
    }
}

} // verus!

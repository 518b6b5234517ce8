//! What a WebSocket session does with each event: a client connecting, a
//! message arriving, a client going away.
//!
//! Each step updates the hub and returns the deliveries to make: which
//! connections get which message. The caller reads the socket, asks the
//! database what a step needs, and sends the deliveries.

use vstd::prelude::*;
use crate::hub::{ConnId, Hub, HubView, names};
use crate::protocol::{ClientMessage, ClientMessageView, ServerMessage, ServerMessageView};

verus! {

/// The query of an authenticated WebSocket upgrade.
pub struct WsQuery {
    /// The client's session token.
    pub token: String,
}

/// A message the session sends.
pub enum Outgoing {
    /// A message of the server protocol.
    Message(ServerMessage),
    /// The greeting of a read-only (public channel) connection.
    ReadOnlyInit,
    /// `username` is typing in group `group_id`.
    Typing { group_id: i64, username: String },
    /// `from` changed presence to `state`.
    Presence { from: String, state: String, is_online: bool },
}

/// The content of an outgoing message.
pub enum OutgoingView {
    Message(ServerMessageView),
    ReadOnlyInit,
    Typing { group_id: i64, username: Seq<char> },
    Presence { from: Seq<char>, state: Seq<char>, is_online: bool },
}

impl View for Outgoing {
    type V = OutgoingView;

    open spec fn view(&self) -> OutgoingView {
        match self {
            Outgoing::Message(m) => OutgoingView::Message(m@),
            Outgoing::ReadOnlyInit => OutgoingView::ReadOnlyInit,
            Outgoing::Typing { group_id, username } => OutgoingView::Typing {
                group_id: *group_id,
                username: username@,
            },
            Outgoing::Presence { from, state, is_online } => OutgoingView::Presence {
                from: from@,
                state: state@,
                is_online: *is_online,
            },
        }
    }
}

/// One message and the connections it goes to.
pub struct Delivery {
    pub to: Vec<ConnId>,
    pub packet: Outgoing,
}

impl View for Delivery {
    type V = (Seq<ConnId>, OutgoingView);

    open spec fn view(&self) -> (Seq<ConnId>, OutgoingView) {
        (self.to@, self.packet@)
    }
}

/// The content of a list of deliveries.
pub open spec fn deliveries(v: Vec<Delivery>) -> Seq<(Seq<ConnId>, OutgoingView)> {
    v@.map_values(|d: Delivery| d@)
}

/// What a message needs to know from the group's member records.
pub enum LookupKind {
    /// Nothing.
    Nothing,
    /// Whether the sender is a member.
    Membership,
    /// The usernames of all members.
    MemberList,
}

/// What the member records answered.
pub enum MemberLookup {
    /// The records could not be read.
    Unavailable,
    /// Whether the sender is a member.
    IsMember(bool),
    /// The usernames of all members.
    Members(Vec<String>),
    /// No lookup was made.
    NotNeeded,
}

/// The content of a member-records answer.
pub enum MemberLookupView {
    Unavailable,
    IsMember(bool),
    Members(Seq<Seq<char>>),
    NotNeeded,
}

impl View for MemberLookup {
    type V = MemberLookupView;

    open spec fn view(&self) -> MemberLookupView {
        match self {
            MemberLookup::Unavailable => MemberLookupView::Unavailable,
            MemberLookup::IsMember(b) => MemberLookupView::IsMember(*b),
            MemberLookup::Members(v) => MemberLookupView::Members(names(*v)),
            MemberLookup::NotNeeded => MemberLookupView::NotNeeded,
        }
    }
}

/// What handling `m` needs from the member records.
pub open spec fn spec_lookup_needed(m: ClientMessageView) -> LookupKind {
    match m {
        ClientMessageView::SubscribeGroup { .. } => LookupKind::Membership,
        ClientMessageView::Presence { .. } => LookupKind::MemberList,
        _ => LookupKind::Nothing,
    }
}

/// The text of the refusal sent to a non-member who subscribes.
pub open spec fn not_a_member_text() -> Seq<char> {
    "Not a member of this group"@
}

/// The text of the refusal sent on a read-only connection.
pub open spec fn read_only_text() -> Seq<char> {
    "Read-only connection"@
}

/// A presence state other than `"offline"` means online.
pub open spec fn spec_is_online(state: Seq<char>) -> bool {
    state != "offline"@
}

/// The text of the refusal sent for a voice message while voice is off.
pub open spec fn voice_disabled_text() -> Seq<char> {
    "Voice channels are disabled on this server"@
}

/// `m` is a voice channel message (joining, leaving or signalling).
pub open spec fn spec_is_voice_message(m: ClientMessageView) -> bool {
    m is VoiceJoin || m is VoiceLeave || m is VoiceOffer || m is VoiceAnswer || m is VoiceIce
}

/// The hub after a client message, and the deliveries it causes. While
/// voice is off (`voice_enabled` false) every voice message is refused: the
/// hub is unchanged and only the sender is told.
pub open spec fn spec_handle(
    h: HubView,
    u: Seq<char>,
    conn: ConnId,
    m: ClientMessageView,
    lookup: MemberLookupView,
    voice_enabled: bool,
) -> (HubView, Seq<(Seq<ConnId>, OutgoingView)>) {
    if !voice_enabled && spec_is_voice_message(m) {
        (
            h,
            seq![
                (
                    seq![conn],
                    OutgoingView::Message(ServerMessageView::Error { message: voice_disabled_text() }),
                ),
            ],
        )
    } else {
        spec_handle_message(h, u, conn, m, lookup)
    }
}

/// The hub after a client message that is not refused, and the deliveries
/// it causes.
pub open spec fn spec_handle_message(
    h: HubView,
    u: Seq<char>,
    conn: ConnId,
    m: ClientMessageView,
    lookup: MemberLookupView,
) -> (HubView, Seq<(Seq<ConnId>, OutgoingView)>) {
    match m {
        ClientMessageView::Ping => (
            h,
            seq![(seq![conn], OutgoingView::Message(ServerMessageView::Pong))],
        ),
        ClientMessageView::SubscribeGroup { .. } => match lookup {
            MemberLookupView::IsMember(true) => (h.subscribe(u), seq![]),
            MemberLookupView::IsMember(false) => (
                h,
                seq![
                    (
                        seq![conn],
                        OutgoingView::Message(
                            ServerMessageView::Error { message: not_a_member_text() },
                        ),
                    ),
                ],
            ),
            _ => (h, seq![]),
        },
        ClientMessageView::UnsubscribeGroup { .. } => (h.unsubscribe(u), seq![]),
        ClientMessageView::Typing { group_id } => (
            h,
            seq![
                (h.fan_out(h.subscribed), OutgoingView::Typing { group_id: group_id, username: u }),
            ],
        ),
        ClientMessageView::Presence { state } => match lookup {
            MemberLookupView::Members(ms) => (
                h,
                seq![
                    (
                        h.fan_out(ms),
                        OutgoingView::Presence {
                            from: u,
                            state: state,
                            is_online: spec_is_online(state),
                        },
                    ),
                ],
            ),
            _ => (h, seq![]),
        },
        ClientMessageView::VoiceJoin { channel_id } => {
            let h2 = h.voice_join(channel_id, u);
            (
                h2,
                seq![
                    (
                        seq![conn],
                        OutgoingView::Message(
                            ServerMessageView::VoiceChannelState {
                                channel_id: channel_id,
                                users: h.joined(channel_id, u),
                            },
                        ),
                    ),
                    (
                        h2.fan_out(h2.subscribed),
                        OutgoingView::Message(
                            ServerMessageView::VoiceUserJoined { channel_id: channel_id, username: u },
                        ),
                    ),
                ],
            )
        },
        ClientMessageView::VoiceLeave { channel_id } => {
            let h2 = h.voice_leave(channel_id, u);
            (
                h2,
                seq![
                    (
                        h2.fan_out(h2.subscribed),
                        OutgoingView::Message(
                            ServerMessageView::VoiceUserLeft { channel_id: channel_id, username: u },
                        ),
                    ),
                ],
            )
        },
        ClientMessageView::VoiceOffer { channel_id, target, sdp } => (
            h,
            seq![
                (
                    h.conns_of(target),
                    OutgoingView::Message(
                        ServerMessageView::VoiceOffer { channel_id: channel_id, from: u, sdp: sdp },
                    ),
                ),
            ],
        ),
        ClientMessageView::VoiceAnswer { channel_id, target, sdp } => (
            h,
            seq![
                (
                    h.conns_of(target),
                    OutgoingView::Message(
                        ServerMessageView::VoiceAnswer { channel_id: channel_id, from: u, sdp: sdp },
                    ),
                ),
            ],
        ),
        ClientMessageView::VoiceIce { channel_id, target, candidate } => (
            h,
            seq![
                (
                    h.conns_of(target),
                    OutgoingView::Message(
                        ServerMessageView::VoiceIce {
                            channel_id: channel_id,
                            from: u,
                            candidate: candidate,
                        },
                    ),
                ),
            ],
        ),
    }
}

/// The notice that `u` left voice channel `c`, to every subscribed user.
pub open spec fn left_notice(h: HubView, u: Seq<char>, c: Seq<char>) -> (Seq<ConnId>, OutgoingView) {
    (
        h.fan_out(h.subscribed),
        OutgoingView::Message(ServerMessageView::VoiceUserLeft { channel_id: c, username: u }),
    )
}

/// What handling `msg` needs from the member records.
pub fn lookup_needed(msg: &ClientMessage) -> (k: LookupKind)
    ensures
        k == spec_lookup_needed(msg@),
{
    match msg {
        ClientMessage::SubscribeGroup { .. } => LookupKind::Membership,
        ClientMessage::Presence { .. } => LookupKind::MemberList,
        _ => LookupKind::Nothing,
    }
}

/// A delivery of `packet` to the one connection `conn`.
fn reply(conn: ConnId, packet: Outgoing) -> (d: Delivery)
    ensures
        d@ == (seq![conn], packet@),
{
    let mut to: Vec<ConnId> = Vec::new();
    to.push(conn);
    proof {
        assert(to@ =~= seq![conn]);
    }
    Delivery { to, packet }
}

/// A list of one delivery.
fn one(d: Delivery) -> (v: Vec<Delivery>)
    ensures
        deliveries(v) == seq![d@],
{
    let mut v: Vec<Delivery> = Vec::new();
    v.push(d);
    proof {
        assert(deliveries(v) =~= seq![d@]);
    }
    v
}

/// The empty list of deliveries.
fn none() -> (v: Vec<Delivery>)
    ensures
        deliveries(v) == Seq::<(Seq<ConnId>, OutgoingView)>::empty(),
{
    let v: Vec<Delivery> = Vec::new();
    proof {
        assert(deliveries(v) =~= Seq::<(Seq<ConnId>, OutgoingView)>::empty());
    }
    v
}

/// Whether a presence state means online.
pub fn is_online(state: &String) -> (b: bool)
    ensures
        b == spec_is_online(state@),
{
    let offline = "offline".to_owned();
    !(*state == offline)
}

/// Whether `msg` is a voice channel message.
pub fn is_voice_message(msg: &ClientMessage) -> (b: bool)
    ensures
        b == spec_is_voice_message(msg@),
{
    match msg {
        ClientMessage::VoiceJoin { .. } | ClientMessage::VoiceLeave { .. }
        | ClientMessage::VoiceOffer { .. } | ClientMessage::VoiceAnswer { .. }
        | ClientMessage::VoiceIce { .. } => true,
        _ => false,
    }
}

/// Handles one message from an authenticated client `username` on
/// connection `conn`; `lookup` answers what `lookup_needed` asked, and
/// `voice_enabled` is the server's voice setting.
pub fn handle_client_message(
    hub: &mut Hub,
    username: &str,
    conn: ConnId,
    msg: ClientMessage,
    lookup: MemberLookup,
    voice_enabled: bool,
) -> (out: Vec<Delivery>)
    requires
        old(hub).wf(),
    ensures
        final(hub).wf(),
        (final(hub)@, deliveries(out)) == spec_handle(
            old(hub)@,
            username@,
            conn,
            msg@,
            lookup@,
            voice_enabled,
        ),
{
    let ghost h = hub@;
    let ghost mv = msg@;
    let ghost lv = lookup@;
    if !voice_enabled && is_voice_message(&msg) {
        let message = "Voice channels are disabled on this server".to_owned();
        return one(reply(conn, Outgoing::Message(ServerMessage::Error { message })));
    }
    match msg {
        ClientMessage::Ping => one(reply(conn, Outgoing::Message(ServerMessage::Pong))),
        ClientMessage::SubscribeGroup { .. } => match lookup {
            MemberLookup::IsMember(true) => {
                hub.subscribe(username);
                none()
            },
            MemberLookup::IsMember(false) => {
                let message = "Not a member of this group".to_owned();
                one(reply(conn, Outgoing::Message(ServerMessage::Error { message })))
            },
            _ => none(),
        },
        ClientMessage::UnsubscribeGroup { .. } => {
            hub.unsubscribe(username);
            none()
        },
        ClientMessage::Typing { group_id } => {
            let to = hub.broadcast_to_subscribed();
            one(Delivery { to, packet: Outgoing::Typing { group_id, username: username.to_owned() } })
        },
        ClientMessage::Presence { state } => match lookup {
            MemberLookup::Members(members) => {
                let to = hub.broadcast_to_all(&members);
                let online = is_online(&state);
                one(
                    Delivery {
                        to,
                        packet: Outgoing::Presence {
                            from: username.to_owned(),
                            state,
                            is_online: online,
                        },
                    },
                )
            },
            _ => none(),
        },
        ClientMessage::VoiceJoin { channel_id } => {
            let users = hub.voice_join(&channel_id, username);
            let state = reply(
                conn,
                Outgoing::Message(
                    ServerMessage::VoiceChannelState { channel_id: channel_id.clone(), users },
                ),
            );
            let to = hub.broadcast_to_subscribed();
            let joined = Delivery {
                to,
                packet: Outgoing::Message(
                    ServerMessage::VoiceUserJoined { channel_id, username: username.to_owned() },
                ),
            };
            let mut out: Vec<Delivery> = Vec::new();
            out.push(state);
            out.push(joined);
            proof {
                assert(deliveries(out) =~= spec_handle_message(h, username@, conn, mv, lv).1);
            }
            out
        },
        ClientMessage::VoiceLeave { channel_id } => {
            hub.voice_leave(&channel_id, username);
            let to = hub.broadcast_to_subscribed();
            one(
                Delivery {
                    to,
                    packet: Outgoing::Message(
                        ServerMessage::VoiceUserLeft { channel_id, username: username.to_owned() },
                    ),
                },
            )
        },
        ClientMessage::VoiceOffer { channel_id, target, sdp } => {
            let to = hub.send_to_user(&target);
            one(
                Delivery {
                    to,
                    packet: Outgoing::Message(
                        ServerMessage::VoiceOffer { channel_id, from: username.to_owned(), sdp },
                    ),
                },
            )
        },
        ClientMessage::VoiceAnswer { channel_id, target, sdp } => {
            let to = hub.send_to_user(&target);
            one(
                Delivery {
                    to,
                    packet: Outgoing::Message(
                        ServerMessage::VoiceAnswer { channel_id, from: username.to_owned(), sdp },
                    ),
                },
            )
        },
        ClientMessage::VoiceIce { channel_id, target, candidate } => {
            let to = hub.send_to_user(&target);
            one(
                Delivery {
                    to,
                    packet: Outgoing::Message(
                        ServerMessage::VoiceIce { channel_id, from: username.to_owned(), candidate },
                    ),
                },
            )
        },
    }
}

/// A client connects: its connection is registered (a public viewer is also
/// subscribed, so that it sees the channel's traffic) and greeted.
pub fn on_connect(hub: &mut Hub, username: &str, conn: ConnId, public: bool) -> (greeting: Delivery)
    requires
        old(hub).wf(),
    ensures
        final(hub).wf(),
        public ==> final(hub)@ == old(hub)@.register(username@, conn).subscribe(username@),
        !public ==> final(hub)@ == old(hub)@.register(username@, conn),
        greeting@ == (
            seq![conn],
            if public {
                OutgoingView::ReadOnlyInit
            } else {
                OutgoingView::Message(ServerMessageView::InitComplete)
            },
        ),
{
    hub.register(username, conn);
    if public {
        hub.subscribe(username);
        reply(conn, Outgoing::ReadOnlyInit)
    } else {
        reply(conn, Outgoing::Message(ServerMessage::InitComplete))
    }
}

/// A client goes away: it leaves every voice channel, and every subscribed
/// user is told, once per channel it left. Returns those channels and the
/// notices, in the same order.
pub fn on_disconnect(hub: &mut Hub, username: &str) -> (r: (Vec<String>, Vec<Delivery>))
    requires
        old(hub).wf(),
    ensures
        final(hub).wf(),
        final(hub)@ == old(hub)@.voice_leave_all(username@),
        names(r.0).no_duplicates(),
        forall|c: Seq<char>| #[trigger]
            names(r.0).contains(c) <==> old(hub)@.in_voice(c, username@),
        deliveries(r.1) == names(r.0).map_values(
            |c: Seq<char>| left_notice(final(hub)@, username@, c),
        ),
{
    let affected = hub.voice_leave_all(username);
    let mut out: Vec<Delivery> = Vec::new();
    let mut i: usize = 0;
    while i < affected.len()
        invariant
            hub.wf(),
            i <= affected@.len(),
            deliveries(out) == names(affected).take(i as int).map_values(
                |c: Seq<char>| left_notice(hub@, username@, c),
            ),
        decreases affected@.len() - i,
    {
        let to = hub.broadcast_to_subscribed();
        let d = Delivery {
            to,
            packet: Outgoing::Message(
                ServerMessage::VoiceUserLeft {
                    channel_id: affected[i].clone(),
                    username: username.to_owned(),
                },
            ),
        };
        let ghost before = deliveries(out);
        out.push(d);
        proof {
            assert(deliveries(out) =~= before.push(d@));
            assert(names(affected).take(i + 1) =~= names(affected).take(i as int).push(
                names(affected)[i as int],
            ));
            assert(deliveries(out) =~= names(affected).take(i + 1).map_values(
                |c: Seq<char>| left_notice(hub@, username@, c),
            ));
        }
        i = i + 1;
    }
    assert(names(affected).take(affected@.len() as int) =~= names(affected));
    (affected, out)
}

/// The answer to a message on a read-only connection: a ping is answered,
/// anything else refused.
pub fn handle_public_client_message(msg: &ClientMessage) -> (p: Outgoing)
    ensures
        p@ == match msg@ {
            ClientMessageView::Ping => OutgoingView::Message(ServerMessageView::Pong),
            _ => OutgoingView::Message(ServerMessageView::Error { message: read_only_text() }),
        },
{
    match msg {
        ClientMessage::Ping => Outgoing::Message(ServerMessage::Pong),
        _ => Outgoing::Message(ServerMessage::Error { message: "Read-only connection".to_owned() }),
    }
}

/// The refusal of a message that could not be read; `reason` says why.
pub fn invalid_message(reason: &str) -> (p: Outgoing)
    ensures
        p@ == OutgoingView::Message(ServerMessageView::Error { message: "Invalid message: "@ + reason@ }),
{
    let mut message = "Invalid message: ".to_owned();
    message.append(reason);
    Outgoing::Message(ServerMessage::Error { message })
}

} // verus!

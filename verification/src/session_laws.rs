//! What a session's steps promise.

use vstd::prelude::*;
use crate::hub::HubView;
use crate::hub_laws::{law_subscription, law_voice_join};
use crate::protocol::{ClientMessageView, ServerMessageView};
use crate::session::{
    MemberLookupView, OutgoingView, not_a_member_text, spec_handle, spec_is_voice_message,
    voice_disabled_text,
};

verus! {

/// Pings, typing notices, presence changes and voice signalling only send
/// messages: the hub is left as it was.
pub proof fn law_messages_that_leave_the_hub(
    h: HubView,
    u: Seq<char>,
    conn: u64,
    m: ClientMessageView,
    lookup: MemberLookupView,
    voice_enabled: bool,
)
    requires
        m is Ping || m is Typing || m is Presence || m is VoiceOffer || m is VoiceAnswer
            || m is VoiceIce,
    ensures
        spec_handle(h, u, conn, m, lookup, voice_enabled).0 == h,
{
}

/// A subscription is granted exactly to members: a member becomes
/// subscribed and is sent nothing; a non-member is refused on its own
/// connection and the hub is unchanged; when membership cannot be checked,
/// nothing happens.
pub proof fn law_subscription_needs_membership(
    h: HubView,
    u: Seq<char>,
    conn: u64,
    group_id: i64,
    lookup: MemberLookupView,
    voice_enabled: bool,
)
    requires
        h.inv(),
    ensures
        ({
            let (h2, out) = spec_handle(h, u, conn, ClientMessageView::SubscribeGroup { group_id }, lookup, voice_enabled);
            match lookup {
                MemberLookupView::IsMember(true) => h2.is_subscribed(u) && out.len() == 0,
                MemberLookupView::IsMember(false) => h2 == h && out == seq![
                    (
                        seq![conn],
                        OutgoingView::Message(ServerMessageView::Error { message: not_a_member_text() }),
                    ),
                ],
                _ => h2 == h && out.len() == 0,
            }
        }),
{
    law_subscription(h, u);
}

/// While voice is on, a user joining a voice channel is told the channel's
/// users, itself included, which are then exactly the channel's users in the
/// hub; every subscribed user is told of the join.
pub proof fn law_voice_join_reply(h: HubView, u: Seq<char>, conn: u64, c: Seq<char>, lookup: MemberLookupView)
    requires
        h.inv(),
    ensures
        ({
            let (h2, out) = spec_handle(h, u, conn, ClientMessageView::VoiceJoin { channel_id: c }, lookup, true);
            &&& out.len() == 2
            &&& out[0].0 == seq![conn]
            &&& out[0].1 matches OutgoingView::Message(
                ServerMessageView::VoiceChannelState { channel_id, users },
            ) && channel_id == c && users.contains(u) && users == h2.users_in(c)
            &&& out[1].0 == h2.fan_out(h2.subscribed)
        }),
{
    law_voice_join(h, c, u);
}

/// While voice is on, voice signalling (offers, answers and ICE candidates)
/// goes to the target's open connections only, with the sender named as its
/// origin, and leaves the hub as it was.
pub proof fn law_signalling_reaches_target(
    h: HubView,
    u: Seq<char>,
    conn: u64,
    c: Seq<char>,
    target: Seq<char>,
    sdp: Seq<char>,
    candidate: Seq<char>,
    lookup: MemberLookupView,
)
    ensures
        spec_handle(h, u, conn, ClientMessageView::VoiceIce { channel_id: c, target, candidate }, lookup, true)
            == (
            h,
            seq![
                (
                    h.conns_of(target),
                    OutgoingView::Message(ServerMessageView::VoiceIce { channel_id: c, from: u, candidate }),
                ),
            ],
        ),
        spec_handle(h, u, conn, ClientMessageView::VoiceOffer { channel_id: c, target, sdp }, lookup, true).1
            == seq![
            (
                h.conns_of(target),
                OutgoingView::Message(ServerMessageView::VoiceOffer { channel_id: c, from: u, sdp }),
            ),
        ],
        spec_handle(h, u, conn, ClientMessageView::VoiceAnswer { channel_id: c, target, sdp }, lookup, true).1
            == seq![
            (
                h.conns_of(target),
                OutgoingView::Message(ServerMessageView::VoiceAnswer { channel_id: c, from: u, sdp }),
            ),
        ],
{
}

/// While voice is off, every voice message is refused: the hub, voice
/// channels included, is left as it was, and the only delivery is an error
/// to the sender's own connection.
pub proof fn law_disabled_voice_refused(
    h: HubView,
    u: Seq<char>,
    conn: u64,
    m: ClientMessageView,
    lookup: MemberLookupView,
)
    requires
        spec_is_voice_message(m),
    ensures
        spec_handle(h, u, conn, m, lookup, false) == (
            h,
            seq![
                (
                    seq![conn],
                    OutgoingView::Message(ServerMessageView::Error { message: voice_disabled_text() }),
                ),
            ],
        ),
{
}

} // verus!

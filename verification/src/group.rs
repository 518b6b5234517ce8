//! The rules for turning the server's group into a channel and back, and
//! for handing out its tokens.

use vstd::prelude::*;
use crate::hub::names;
use crate::ids::{channel_token, is_uuid_v4_text, new_invite_token};

verus! {

/// What the group record says about channel mode.
pub struct ChannelState {
    pub is_channel: bool,
    /// The public token, once one has been issued.
    pub public_channel_token: Option<String>,
}

/// The outcome of asking to turn the group into a channel.
pub enum ChannelConversion {
    /// It is a channel already; nothing changes.
    AlreadyChannel,
    /// It becomes a channel with this public token.
    Converted { token: String },
}

/// Turns a group into a channel, keeping a public token issued before and
/// issuing one otherwise.
pub fn convert_to_channel(state: ChannelState) -> (r: ChannelConversion)
    ensures
        state.is_channel ==> r is AlreadyChannel,
        !state.is_channel ==> (r matches ChannelConversion::Converted { token } && match
            state.public_channel_token {
            Some(t) => token@ == t@,
            None => is_uuid_v4_text(token@),
        }),
{
    if state.is_channel {
        ChannelConversion::AlreadyChannel
    } else {
        let (token, _) = channel_token(state.public_channel_token);
        ChannelConversion::Converted { token }
    }
}

/// The outcome of asking to turn the group back into a group.
pub enum GroupConversion {
    /// It is a group already; nothing changes.
    AlreadyGroup,
    /// It becomes a group (its public token is kept).
    Converted,
}

/// Turns a channel back into a group.
pub fn convert_to_group(is_channel: bool) -> (r: GroupConversion)
    ensures
        is_channel <==> r is Converted,
{
    if is_channel {
        GroupConversion::Converted
    } else {
        GroupConversion::AlreadyGroup
    }
}

/// The outcome of asking for the public token.
pub enum PublicTokenRequest {
    /// Only channels have public tokens.
    NotAChannel,
    /// The token; `fresh` when it was just issued and must be stored.
    Token { token: String, fresh: bool },
}

/// The public token of a channel: the one issued before, or a new one.
pub fn public_token_for(state: ChannelState) -> (r: PublicTokenRequest)
    ensures
        !state.is_channel ==> r is NotAChannel,
        state.is_channel ==> (r matches PublicTokenRequest::Token { token, fresh } && match
            state.public_channel_token {
            Some(t) => token@ == t@ && !fresh,
            None => is_uuid_v4_text(token@) && fresh,
        }),
{
    if !state.is_channel {
        PublicTokenRequest::NotAChannel
    } else {
        let (token, fresh) = channel_token(state.public_channel_token);
        PublicTokenRequest::Token { token, fresh }
    }
}

/// What setting up (or renaming) the group does.
pub enum SetupPlan {
    /// The group exists and becomes (or stays) a channel with this token.
    UpdateChannel { token: String },
    /// The group exists and becomes (or stays) a group.
    UpdateGroup,
    /// There is no group yet: create one with these tokens.
    Create { invite_token: String, public_token: Option<String> },
}

/// The plan for setting up the group as a channel (`channel`) or group;
/// `existing` is the current channel state, `None` when there is no group.
pub fn setup_plan(existing: Option<ChannelState>, channel: bool) -> (r: SetupPlan)
    ensures
        match existing {
            Some(s) => if channel {
                r matches SetupPlan::UpdateChannel { token } && match s.public_channel_token {
                    Some(t) => token@ == t@,
                    None => is_uuid_v4_text(token@),
                }
            } else {
                r is UpdateGroup
            },
            None => r matches SetupPlan::Create { invite_token, public_token } && is_uuid_v4_text(
                invite_token@,
            ) && (if channel {
                public_token matches Some(p) && is_uuid_v4_text(p@)
            } else {
                public_token is None
            }),
        },
{
    match existing {
        Some(s) => {
            if channel {
                let (token, _) = channel_token(s.public_channel_token);
                SetupPlan::UpdateChannel { token }
            } else {
                SetupPlan::UpdateGroup
            }
        },
        None => {
            let invite_token = new_invite_token();
            let public_token = if channel {
                Some(new_invite_token())
            } else {
                None
            };
            SetupPlan::Create { invite_token, public_token }
        },
    }
}

/// How many owners can be named when a group is set up.
pub const MAX_OWNERS: usize = 3;

/// What one answer to "owner's username" does.
pub enum OwnerStep {
    /// An empty answer: no more owners are asked for.
    Done,
    /// The answer was recorded as an owner; `main_owner` when it is the first
    /// one, who becomes the group's owner; `more` when another may follow.
    Added { main_owner: bool, more: bool },
}

/// Records one answer while collecting owners: an empty answer ends the
/// collection, any other is appended to `owners`.
pub fn owner_step(owners: &mut Vec<String>, answer: String) -> (r: OwnerStep)
    requires
        old(owners)@.len() < MAX_OWNERS,
    ensures
        answer@.len() == 0 ==> names(*final(owners)) == names(*old(owners)) && r is Done,
        answer@.len() > 0 ==> names(*final(owners)) == names(*old(owners)).push(answer@) && r == (
        OwnerStep::Added {
            main_owner: old(owners)@.len() == 0,
            more: old(owners)@.len() + 1 < MAX_OWNERS,
        }),
{
    if answer.unicode_len() == 0 {
        proof {
            assert(answer@.len() == 0);
        }
        OwnerStep::Done
    } else {
        let main_owner = owners.len() == 0;
        let ghost before = names(*owners);
        owners.push(answer);
        proof {
            assert(names(*owners) =~= before.push(owners@[owners@.len() - 1]@));
        }
        OwnerStep::Added { main_owner, more: owners.len() < MAX_OWNERS }
    }
}

/// The owners named by a run of answers: the answers before the first empty
/// one, at most `MAX_OWNERS` of them; the first is the group's owner.
pub fn owners_from_answers(answers: &Vec<String>) -> (owners: Vec<String>)
    ensures
        owners@.len() <= MAX_OWNERS,
        owners@.len() <= answers@.len(),
        forall|j: int| 0 <= j < owners@.len() ==> #[trigger] owners@[j]@ == answers@[j]@
            && answers@[j]@.len() > 0,
        owners@.len() < MAX_OWNERS && owners@.len() < answers@.len() ==> answers@[owners@.len()
            as int]@.len() == 0,
{
    let mut owners: Vec<String> = Vec::new();
    let mut i: usize = 0;
    while i < answers.len() && i < MAX_OWNERS
        invariant
            i <= answers@.len(),
            i == owners@.len(),
            i <= MAX_OWNERS,
            forall|j: int| 0 <= j < i ==> #[trigger] owners@[j]@ == answers@[j]@
                && answers@[j]@.len() > 0,
        decreases answers@.len() - i,
    {
        let ghost before = names(owners);
        let ghost before_v = owners@;
        let step = owner_step(&mut owners, answers[i].clone());
        match step {
            OwnerStep::Done => {
                proof {
                    assert(names(owners).len() == before.len());
                    assert forall|j: int| 0 <= j < owners@.len() implies #[trigger] owners@[j]@
                        == answers@[j]@ && answers@[j]@.len() > 0 by {
                        assert(names(owners)[j] == owners@[j]@);
                        assert(before[j] == before_v[j]@);
                    }
                }
                return owners;
            },
            OwnerStep::Added { .. } => {
                proof {
                    assert(names(owners).len() == owners@.len());
                    assert(names(owners).len() == i + 1);
                    assert forall|j: int| 0 <= j <= i implies #[trigger] owners@[j]@ == answers@[j]@
                        && answers@[j]@.len() > 0 by {
                        assert(names(owners)[j] == owners@[j]@);
                        if j < i {
                            assert(before[j] == before_v[j]@);
                        }
                    }
                }
            },
        }
        i = i + 1;
    }
    owners
}

} // verus!

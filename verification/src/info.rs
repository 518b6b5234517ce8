//! What the server tells clients about itself and its group.

use vstd::prelude::*;
use crate::config::{Config, spec_effective_bitrate};
use crate::hub::names;
use crate::text::contains_text;

verus! {

/// The features a server with configuration `c` advertises, in order.
pub open spec fn spec_features(c: Config) -> Seq<Seq<char>> {
    let f0 = seq!["messaging"@, "websocket"@];
    let f1 = if c.moderation.enable_moderators { f0.push("moderation"@) } else { f0 };
    let f2 = if c.media.provider@ != "none"@ { f1.push("media_upload"@) } else { f1 };
    let f3 = if c.media.provider@ == "local"@ { f2.push("media_local"@) } else { f2 };
    let f4 = if names(c.media.allowed_types).contains("image"@) { f3.push("images"@) } else { f3 };
    let f5 = if names(c.media.allowed_types).contains("video"@) { f4.push("video"@) } else { f4 };
    if c.voice.enabled { f5.push("voice"@) } else { f5 }
}

/// `s` with `x` appended holds `y` exactly when `s` does or `x` is `y`.
proof fn lemma_push_contains(s: Seq<Seq<char>>, x: Seq<char>, y: Seq<char>)
    ensures
        s.push(x).contains(y) <==> (s.contains(y) || x == y),
{
    if s.contains(y) {
        let i = choose|i: int| 0 <= i < s.len() && s[i] == y;
        assert(s.push(x)[i] == y);
    }
    if x == y {
        assert(s.push(x)[s.len() as int] == y);
    }
    if s.push(x).contains(y) {
        let i = choose|i: int| 0 <= i < s.push(x).len() && s.push(x)[i] == y;
        if i < s.len() {
            assert(s[i] == y);
        }
    }
}

/// Which features are advertised follows the configuration, feature by
/// feature: messaging and websocket always; moderation when moderators are
/// enabled; media upload unless the provider is "none"; local media when it
/// is "local"; images exactly when image uploads are allowed; video exactly
/// when video uploads are allowed; voice exactly when voice is enabled.
pub proof fn law_features_follow_config(c: Config)
    ensures
        spec_features(c).contains("messaging"@),
        spec_features(c).contains("websocket"@),
        spec_features(c).contains("moderation"@) <==> c.moderation.enable_moderators,
        spec_features(c).contains("media_upload"@) <==> c.media.provider@ != "none"@,
        spec_features(c).contains("media_local"@) <==> c.media.provider@ == "local"@,
        spec_features(c).contains("images"@) <==> names(c.media.allowed_types).contains("image"@),
        spec_features(c).contains("video"@) <==> names(c.media.allowed_types).contains("video"@),
        spec_features(c).contains("voice"@) <==> c.voice.enabled,
{
    reveal_strlit("messaging");
    reveal_strlit("websocket");
    reveal_strlit("moderation");
    reveal_strlit("media_upload");
    reveal_strlit("media_local");
    reveal_strlit("images");
    reveal_strlit("video");
    reveal_strlit("voice");
    let feats: Seq<Seq<char>> = seq![
        "messaging"@,
        "websocket"@,
        "moderation"@,
        "media_upload"@,
        "media_local"@,
        "images"@,
        "video"@,
        "voice"@,
    ];
    let f0: Seq<Seq<char>> = seq!["messaging"@, "websocket"@];
    let f1 = if c.moderation.enable_moderators { f0.push("moderation"@) } else { f0 };
    let f2 = if c.media.provider@ != "none"@ { f1.push("media_upload"@) } else { f1 };
    let f3 = if c.media.provider@ == "local"@ { f2.push("media_local"@) } else { f2 };
    let f4 = if names(c.media.allowed_types).contains("image"@) { f3.push("images"@) } else { f3 };
    let f5 = if names(c.media.allowed_types).contains("video"@) { f4.push("video"@) } else { f4 };
    let f6 = if c.voice.enabled { f5.push("voice"@) } else { f5 };
    assert(f6 == spec_features(c));
    assert(feats[0] == "messaging"@);
    assert(feats[1] == "websocket"@);
    assert(feats[2] == "moderation"@);
    assert(feats[3] == "media_upload"@);
    assert(feats[4] == "media_local"@);
    assert(feats[5] == "images"@);
    assert(feats[6] == "video"@);
    assert(feats[7] == "voice"@);
    assert forall|i: int, j: int| 0 <= i < feats.len() && 0 <= j < feats.len() && i != j implies
        #[trigger] feats[i] != #[trigger] feats[j] by {
        if feats[i] == feats[j] {
            assert(feats[i].len() == feats[j].len());
            assert(feats[i][0] == feats[j][0]);
            assert(feats[i][1] == feats[j][1]);
        }
    }
    assert forall|k: int| 0 <= k < feats.len() implies {
        let y = #[trigger] feats[k];
        &&& f0.contains(y) <==> k < 2
        &&& f1.contains(y) <==> (k < 2 || (k == 2 && c.moderation.enable_moderators))
    } by {
        let y = feats[k];
        if f0.contains(y) {
            let i = choose|i: int| 0 <= i < f0.len() && f0[i] == y;
            assert(f0[i] == feats[i]);
        }
        if k == 0 {
            assert(f0[0] == y);
        }
        if k == 1 {
            assert(f0[1] == y);
        }
        lemma_push_contains(f0, "moderation"@, y);
    }
    assert forall|k: int| 0 <= k < feats.len() implies {
        let y = #[trigger] feats[k];
        &&& f6.contains(y) <==> (f1.contains(y) || (k == 3 && c.media.provider@ != "none"@)
            || (k == 4 && c.media.provider@ == "local"@)
            || (k == 5 && names(c.media.allowed_types).contains("image"@))
            || (k == 6 && names(c.media.allowed_types).contains("video"@))
            || (k == 7 && c.voice.enabled))
    } by {
        let y = feats[k];
        lemma_push_contains(f1, "media_upload"@, y);
        lemma_push_contains(f2, "media_local"@, y);
        lemma_push_contains(f3, "images"@, y);
        lemma_push_contains(f4, "video"@, y);
        lemma_push_contains(f5, "voice"@, y);
    }
    assert(feats[0] == "messaging"@);
    assert(feats[1] == "websocket"@);
    assert(feats[2] == "moderation"@);
    assert(feats[3] == "media_upload"@);
    assert(feats[4] == "media_local"@);
    assert(feats[5] == "images"@);
    assert(feats[6] == "video"@);
    assert(feats[7] == "voice"@);
}

/// Appends `x` to `v`.
fn push_text(v: &mut Vec<String>, x: &str)
    ensures
        names(*final(v)) == names(*old(v)).push(x@),
{
    v.push(x.to_owned());
    assert(names(*v) =~= names(*old(v)).push(x@));
}

/// The features a server advertises: messaging and websocket always, then
/// moderation, media upload, local media, images, video and voice as the
/// configuration enables them.
pub fn info_features(config: &Config) -> (f: Vec<String>)
    ensures
        names(f) == spec_features(*config),
{
    let mut f: Vec<String> = Vec::new();
    push_text(&mut f, "messaging");
    push_text(&mut f, "websocket");
    proof {
        assert(names(f) =~= seq!["messaging"@, "websocket"@]);
    }
    if config.moderation.enable_moderators {
        push_text(&mut f, "moderation");
    }
    let none = "none".to_owned();
    let local = "local".to_owned();
    if !(config.media.provider == none) {
        push_text(&mut f, "media_upload");
    }
    if config.media.provider == local {
        push_text(&mut f, "media_local");
    }
    if contains_text(&config.media.allowed_types, "image") {
        push_text(&mut f, "images");
    }
    if contains_text(&config.media.allowed_types, "video") {
        push_text(&mut f, "video");
    }
    if config.voice.enabled {
        push_text(&mut f, "voice");
    }
    f
}

/// The group's record as the info endpoint reads it.
pub struct GroupInfoRow {
    pub name: String,
    pub description: String,
    pub invite_token: String,
    pub avatar_version: i64,
    pub is_channel: bool,
    pub public_channel_token: Option<String>,
}

/// The voice settings a client is told.
pub struct VoiceSummary {
    pub quality: String,
    pub max_bitrate_bps: u32,
    pub noise_suppression: bool,
    pub echo_cancellation: bool,
    pub auto_gain_control: bool,
    pub stereo: bool,
}

/// The answer of the info endpoint.
pub enum InfoResponse {
    /// The group exists.
    Ready {
        name: String,
        description: String,
        version: String,
        motd: String,
        media_provider: String,
        max_file_size_mb: u32,
        max_message_length: u32,
        max_members_per_group: u32,
        features: Vec<String>,
        groups_count: u32,
        total_members: i64,
        group_name: String,
        group_description: String,
        is_channel: bool,
        voice_config: VoiceSummary,
        /// Present when the group is a public channel.
        public_channel_token: Option<String>,
    },
    /// The group has not been set up yet.
    NotInitialized { name: String, version: String, error: String },
}

/// The info endpoint's answer for a server with configuration `config`,
/// running `version`, whose group record is `group` and which has
/// `member_count` members.
pub fn server_info(config: &Config, version: &str, group: Option<GroupInfoRow>, member_count: i64) -> (r:
    InfoResponse)
    ensures
        match group {
            Some(g) => match r {
                InfoResponse::Ready {
                    name,
                    description,
                    version: v,
                    motd,
                    media_provider,
                    max_file_size_mb,
                    max_message_length,
                    max_members_per_group,
                    features,
                    groups_count,
                    total_members,
                    group_name,
                    group_description,
                    is_channel,
                    voice_config,
                    public_channel_token,
                } => {
                    &&& name@ == config.server.name@
                    &&& description@ == config.server.description@
                    &&& v@ == version@
                    &&& motd@ == config.server.motd@
                    &&& media_provider@ == config.media.provider@
                    &&& max_file_size_mb == config.media.max_file_size_mb
                    &&& max_message_length == config.server.max_message_length
                    &&& max_members_per_group == config.server.max_members_per_group
                    &&& names(features) == spec_features(*config)
                    &&& groups_count == 1
                    &&& total_members == member_count
                    &&& group_name@ == g.name@
                    &&& group_description@ == g.description@
                    &&& is_channel == g.is_channel
                    &&& voice_config.quality@ == config.voice.quality@
                    &&& voice_config.max_bitrate_bps == spec_effective_bitrate(config.voice)
                    &&& voice_config.noise_suppression == config.voice.noise_suppression
                    &&& voice_config.echo_cancellation == config.voice.echo_cancellation
                    &&& voice_config.auto_gain_control == config.voice.auto_gain_control
                    &&& voice_config.stereo == config.voice.stereo
                    &&& match g.public_channel_token {
                        Some(t) => public_channel_token matches Some(p) && p@ == t@,
                        None => public_channel_token is None,
                    }
                },
                _ => false,
            },
            None => match r {
                InfoResponse::NotInitialized { name, version: v, error } => {
                    &&& name@ == config.server.name@
                    &&& v@ == version@
                    &&& error@ == "Group not initialized"@
                },
                _ => false,
            },
        },
{
    match group {
        Some(g) => {
            let features = info_features(config);
            let vc = &config.voice;
            InfoResponse::Ready {
                name: config.server.name.clone(),
                description: config.server.description.clone(),
                version: version.to_owned(),
                motd: config.server.motd.clone(),
                media_provider: config.media.provider.clone(),
                max_file_size_mb: config.media.max_file_size_mb,
                max_message_length: config.server.max_message_length,
                max_members_per_group: config.server.max_members_per_group,
                features,
                groups_count: 1,
                total_members: member_count,
                group_name: g.name,
                group_description: g.description,
                is_channel: g.is_channel,
                voice_config: VoiceSummary {
                    quality: vc.quality.clone(),
                    max_bitrate_bps: vc.effective_bitrate_bps(),
                    noise_suppression: vc.noise_suppression,
                    echo_cancellation: vc.echo_cancellation,
                    auto_gain_control: vc.auto_gain_control,
                    stereo: vc.stereo,
                },
                public_channel_token: g.public_channel_token,
            }
        },
        None => InfoResponse::NotInitialized {
            name: config.server.name.clone(),
            version: version.to_owned(),
            error: "Group not initialized".to_owned(),
        },
    }
}

/// The group's record as the group list reads it.
pub struct GroupsRow {
    pub id: i64,
    pub name: String,
    pub is_channel: bool,
    pub owner: String,
    pub invite_token: String,
    pub avatar_version: i64,
}

/// One group as listed to a member.
pub struct GroupEntry {
    pub id: i64,
    pub name: String,
    pub is_channel: bool,
    pub owner: String,
    pub avatar_version: i64,
    pub member_count: i64,
    pub my_role: String,
    /// Shown to owners and moderators only.
    pub invite_link: Option<String>,
}

/// Owners and moderators may see the invite link.
pub open spec fn spec_can_see_invite(role: Seq<char>) -> bool {
    role == "owner"@ || role == "moderator"@
}

/// Whether a member with `role` may see the invite link.
pub fn can_see_invite(role: &String) -> (b: bool)
    ensures
        b == spec_can_see_invite(role@),
{
    let owner = "owner".to_owned();
    let moderator = "moderator".to_owned();
    *role == owner || *role == moderator
}

/// The group list shown to a member whose recorded role is `role` (none
/// when the member has no record, which counts as "member"): empty when the
/// group is not set up, else the one group.
pub fn group_list(row: Option<GroupsRow>, member_count: i64, role: Option<String>) -> (r: Vec<
    GroupEntry,
>)
    ensures
        match row {
            None => r@.len() == 0,
            Some(g) => {
                let my_role = match role {
                    Some(x) => x@,
                    None => "member"@,
                };
                &&& r@.len() == 1
                &&& r@[0].id == g.id
                &&& r@[0].name@ == g.name@
                &&& r@[0].is_channel == g.is_channel
                &&& r@[0].owner@ == g.owner@
                &&& r@[0].avatar_version == g.avatar_version
                &&& r@[0].member_count == member_count
                &&& r@[0].my_role@ == my_role
                &&& if spec_can_see_invite(my_role) {
                    r@[0].invite_link matches Some(l) && l@ == g.invite_token@
                } else {
                    r@[0].invite_link is None
                }
            },
        },
{
    let mut out: Vec<GroupEntry> = Vec::new();
    match row {
        None => out,
        Some(g) => {
            let my_role = match role {
                Some(x) => x,
                None => "member".to_owned(),
            };
            let invite_link = if can_see_invite(&my_role) {
                Some(g.invite_token)
            } else {
                None
            };
            out.push(
                GroupEntry {
                    id: g.id,
                    name: g.name,
                    is_channel: g.is_channel,
                    owner: g.owner,
                    avatar_version: g.avatar_version,
                    member_count,
                    my_role,
                    invite_link,
                },
            );
            out
        },
    }
}

/// The group's record as the single-group endpoint reads it.
pub struct GroupRow {
    pub name: String,
    pub description: String,
    pub avatar_version: i64,
    pub is_channel: bool,
    pub owner: String,
}

/// The group as the single-group endpoint shows it.
pub struct GroupSummary {
    pub name: String,
    pub description: String,
    pub is_channel: bool,
    pub owner: String,
    pub avatar_version: i64,
    pub member_count: i64,
}

/// The single-group endpoint's answer: the group, or the refusal text when
/// there is no group.
pub fn group_summary(row: Option<GroupRow>, member_count: i64) -> (r: Result<GroupSummary, String>)
    ensures
        match row {
            Some(g) => r matches Ok(s) && s.name@ == g.name@ && s.description@ == g.description@
                && s.is_channel == g.is_channel && s.owner@ == g.owner@ && s.avatar_version
                == g.avatar_version && s.member_count == member_count,
            None => r matches Err(e) && e@ == "Group not found"@,
        },
{
    match row {
        Some(g) => Ok(
            GroupSummary {
                name: g.name,
                description: g.description,
                is_channel: g.is_channel,
                owner: g.owner,
                avatar_version: g.avatar_version,
                member_count,
            },
        ),
        None => Err("Group not found".to_owned()),
    }
}

/// The record of a public channel, found by its public token.
pub struct PublicChannelRow {
    pub name: String,
    pub description: String,
    pub avatar_version: i64,
    pub owner: String,
}

/// A public channel as shown to anyone holding its token.
pub struct PublicChannel {
    pub name: String,
    pub description: String,
    pub avatar_version: i64,
    pub owner: String,
    pub public_token: String,
}

/// The public-channel endpoint's answer for `public_token`: the channel,
/// or the not-found text when no public channel has that token.
pub fn public_channel(row: Option<PublicChannelRow>, public_token: String) -> (r: Result<
    PublicChannel,
    String,
>)
    ensures
        match row {
            Some(c) => r matches Ok(p) && p.name@ == c.name@ && p.description@ == c.description@
                && p.avatar_version == c.avatar_version && p.owner@ == c.owner@ && p.public_token@
                == public_token@,
            None => r matches Err(e) && e@ == "Public channel not found"@,
        },
{
    match row {
        Some(c) => Ok(
            PublicChannel {
                name: c.name,
                description: c.description,
                avatar_version: c.avatar_version,
                owner: c.owner,
                public_token,
            },
        ),
        None => Err("Public channel not found".to_owned()),
    }
}

} // verus!

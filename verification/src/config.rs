//! Server configuration: its settings, their defaults, and the rules that
//! read them.

use vstd::prelude::*;
use std::collections::HashMap;
use crate::text::contains_text;

verus! {

/// The whole configuration of one server.
#[derive(Debug, Clone, PartialEq)]
pub struct Config {
    pub server: ServerConfig,
    pub database: DatabaseConfig,
    pub media: MediaConfig,
    pub moderation: ModerationConfig,
    pub security: SecurityConfig,
    pub voice: VoiceConfig,
}

/// Identity and limits of the server.
#[derive(Debug, Clone, PartialEq)]
pub struct ServerConfig {
    pub name: String,
    pub description: String,
    pub bind_address: String,
    pub port: u16,
    pub public_url: Option<String>,
    pub max_members_per_group: u32,
    pub max_groups: u32,
    pub max_message_length: u32,
    pub motd: String,
}

/// Where the database lives.
#[derive(Debug, Clone, PartialEq)]
pub struct DatabaseConfig {
    pub path: String,
}

/// How media uploads are handled.
#[derive(Debug, Clone, PartialEq)]
pub struct MediaConfig {
    pub provider: String,
    pub max_file_size_mb: u32,
    pub allowed_types: Vec<String>,
    pub local: MediaLocalConfig,
    pub custom: MediaCustomConfig,
}

/// Storage of media on the server's own disk.
#[derive(Debug, Clone, PartialEq)]
pub struct MediaLocalConfig {
    pub storage_path: String,
}

/// Upload of media to another service.
#[derive(Debug, Clone, PartialEq)]
pub struct MediaCustomConfig {
    pub upload_url: String,
    pub upload_field_name: String,
    pub response_url_jsonpath: String,
    pub extra_headers: HashMap<String, String>,
}

/// Moderation settings.
#[derive(Debug, Clone, PartialEq)]
pub struct ModerationConfig {
    pub enable_moderators: bool,
    pub default_role: String,
}

/// Rate limits and access control.
#[derive(Debug, Clone, PartialEq)]
pub struct SecurityConfig {
    pub max_messages_per_minute: u32,
    pub max_joins_per_minute: u32,
    pub require_approval: bool,
    /// Explicit list of allowed CORS origins (e.g. ["https://app.example.com"]).
    /// If empty, falls back to public_url when set, otherwise allows any origin.
    pub allowed_origins: Vec<String>,
}

/// Voice channel settings.
#[derive(Debug, Clone, PartialEq)]
pub struct VoiceConfig {
    /// Enable or disable voice channels on this server.
    pub enabled: bool,
    /// Quality preset: "low" (32 kbps), "medium" (64 kbps), "high" (96 kbps), "ultra" (128 kbps)
    pub quality: String,
    /// Override bitrate directly (bits/s). Takes priority over `quality`.
    pub max_bitrate_bps: Option<u32>,
    pub noise_suppression: bool,
    pub echo_cancellation: bool,
    pub auto_gain_control: bool,
    /// Enable stereo audio (doubles bandwidth usage).
    pub stereo: bool,
}

/// The bitrate of a quality preset; an unknown preset counts as "medium".
pub open spec fn preset_bitrate(quality: Seq<char>) -> u32 {
    if quality == "low"@ {
        32_000
    } else if quality == "high"@ {
        96_000
    } else if quality == "ultra"@ {
        128_000
    } else {
        64_000
    }
}

/// The Opus bitrate a voice configuration asks for: the explicit override
/// if there is one, else the preset's.
pub open spec fn spec_effective_bitrate(v: VoiceConfig) -> u32 {
    match v.max_bitrate_bps {
        Some(bps) => bps,
        None => preset_bitrate(v.quality@),
    }
}

/// An explicit bitrate always wins over the quality preset, whatever both
/// are; without one, the preset decides: "low" 32 kbps, "high" 96 kbps,
/// "ultra" 128 kbps, anything else (as "medium") 64 kbps.
pub proof fn law_bitrate_override_wins(v: VoiceConfig, b: u32)
    ensures
        v.max_bitrate_bps == Some(b) ==> spec_effective_bitrate(v) == b,
        v.max_bitrate_bps is None ==> spec_effective_bitrate(v) == (if v.quality@ == "low"@ {
            32_000u32
        } else if v.quality@ == "high"@ {
            96_000u32
        } else if v.quality@ == "ultra"@ {
            128_000u32
        } else {
            64_000u32
        }),
{
}

impl VoiceConfig {
    /// Effective Opus bitrate in bits per second.
    pub fn effective_bitrate_bps(&self) -> (bps: u32)
        ensures
            bps == spec_effective_bitrate(*self),
    {
        if let Some(bps) = self.max_bitrate_bps {
            return bps;
        }
        let low = "low".to_owned();
        let high = "high".to_owned();
        let ultra = "ultra".to_owned();
        if self.quality == low {
            32_000
        } else if self.quality == high {
            96_000
        } else if self.quality == ultra {
            128_000
        } else {
            64_000  // "medium" — Discord default

        }
    }
}

/// The default quality preset.
pub fn default_voice_quality() -> (s: String)
    ensures
        s@ == "ultra"@,
{
    "ultra".to_owned()
}

/// The default server name.
pub fn default_name() -> (s: String)
    ensures
        s@ == "My ONYX Server"@,
{
    "My ONYX Server".to_owned()
}

/// The default address to listen on.
pub fn default_bind() -> (s: String)
    ensures
        s@ == "0.0.0.0"@,
{
    "0.0.0.0".to_owned()
}

/// The default port.
pub fn default_port() -> (p: u16)
    ensures
        p == 9090,
{
    9090
}

/// The default member limit of a group.
pub fn default_max_members() -> (n: u32)
    ensures
        n == 500,
{
    500
}

/// The default message length limit.
pub fn default_max_msg_len() -> (n: u32)
    ensures
        n == 4096,
{
    4096
}

/// The default database path.
pub fn default_db_path() -> (s: String)
    ensures
        s@ == "./data/onyx-server.db"@,
{
    "./data/onyx-server.db".to_owned()
}

/// The default media provider.
pub fn default_provider() -> (s: String)
    ensures
        s@ == "local"@,
{
    "local".to_owned()
}

/// The default upload size limit, in MB.
pub fn default_max_file_size() -> (n: u32)
    ensures
        n == 50,
{
    50
}

/// The default kinds of upload allowed.
pub fn default_allowed_types() -> (v: Vec<String>)
    ensures
        v@.len() == 4,
        v@[0]@ == "image"@,
        v@[1]@ == "video"@,
        v@[2]@ == "audio"@,
        v@[3]@ == "file"@,
{
    let mut v: Vec<String> = Vec::new();
    v.push("image".to_owned());
    v.push("video".to_owned());
    v.push("audio".to_owned());
    v.push("file".to_owned());
    v
}

/// The default local media directory.
pub fn default_storage_path() -> (s: String)
    ensures
        s@ == "./data/media"@,
{
    "./data/media".to_owned()
}

/// The default form field of a custom upload.
pub fn default_field_name() -> (s: String)
    ensures
        s@ == "file"@,
{
    "file".to_owned()
}

/// The default path of the URL in a custom upload's reply.
pub fn default_jsonpath() -> (s: String)
    ensures
        s@ == "$.url"@,
{
    "$.url".to_owned()
}

/// The default of the switches that are on unless set.
pub fn default_true() -> (b: bool)
    ensures
        b,
{
    true
}

/// The default role of a new member.
pub fn default_role() -> (s: String)
    ensures
        s@ == "member"@,
{
    "member".to_owned()
}

/// The default limit of messages per minute.
pub fn default_rate_msg() -> (n: u32)
    ensures
        n == 30,
{
    30
}

/// The default limit of joins per minute.
pub fn default_rate_join() -> (n: u32)
    ensures
        n == 10,
{
    10
}

impl Default for VoiceConfig {
    fn default() -> (v: Self)
        ensures
            v.enabled,
            v.quality@ == "ultra"@,
            v.max_bitrate_bps is None,
            v.noise_suppression,
            v.echo_cancellation,
            v.auto_gain_control,
            !v.stereo,
    {
        VoiceConfig {
            enabled: true,
            quality: default_voice_quality(),
            max_bitrate_bps: None,
            noise_suppression: true,
            echo_cancellation: true,
            auto_gain_control: true,
            stereo: false,
        }
    }
}

impl Default for ServerConfig {
    fn default() -> (c: Self)
        ensures
            c.name@ == "My ONYX Server"@,
            c.description@ == Seq::<char>::empty(),
            c.bind_address@ == "0.0.0.0"@,
            c.port == 9090,
            c.public_url is None,
            c.max_members_per_group == 500,
            c.max_groups == 0,
            c.max_message_length == 4096,
            c.motd@ == Seq::<char>::empty(),
    {
        ServerConfig {
            name: default_name(),
            description: String::new(),
            bind_address: default_bind(),
            port: default_port(),
            public_url: None,
            max_members_per_group: default_max_members(),
            max_groups: 0,
            max_message_length: default_max_msg_len(),
            motd: String::new(),
        }
    }
}

impl Default for DatabaseConfig {
    fn default() -> (c: Self)
        ensures
            c.path@ == "./data/onyx-server.db"@,
    {
        DatabaseConfig { path: default_db_path() }
    }
}

impl Default for MediaLocalConfig {
    fn default() -> (c: Self)
        ensures
            c.storage_path@ == Seq::<char>::empty(),
    {
        MediaLocalConfig { storage_path: String::new() }
    }
}

impl Default for MediaCustomConfig {
    fn default() -> (c: Self)
        ensures
            c.upload_url@ == Seq::<char>::empty(),
            c.upload_field_name@ == Seq::<char>::empty(),
            c.response_url_jsonpath@ == Seq::<char>::empty(),
            c.extra_headers@ == Map::<String, String>::empty(),
    {
        MediaCustomConfig {
            upload_url: String::new(),
            upload_field_name: String::new(),
            response_url_jsonpath: String::new(),
            extra_headers: HashMap::new(),
        }
    }
}

impl Default for MediaConfig {
    fn default() -> (c: Self)
        ensures
            c.provider@ == "local"@,
            c.max_file_size_mb == 50,
            c.allowed_types@.len() == 4,
            c.allowed_types@[0]@ == "image"@,
            c.allowed_types@[1]@ == "video"@,
            c.allowed_types@[2]@ == "audio"@,
            c.allowed_types@[3]@ == "file"@,
            c.local.storage_path@ == Seq::<char>::empty(),
            c.custom.upload_url@ == Seq::<char>::empty(),
            c.custom.upload_field_name@ == Seq::<char>::empty(),
            c.custom.response_url_jsonpath@ == Seq::<char>::empty(),
            c.custom.extra_headers@ == Map::<String, String>::empty(),
    {
        MediaConfig {
            provider: default_provider(),
            max_file_size_mb: default_max_file_size(),
            allowed_types: default_allowed_types(),
            local: MediaLocalConfig::default(),
            custom: MediaCustomConfig::default(),
        }
    }
}

impl Default for ModerationConfig {
    fn default() -> (c: Self)
        ensures
            c.enable_moderators,
            c.default_role@ == "member"@,
    {
        ModerationConfig { enable_moderators: true, default_role: default_role() }
    }
}

impl Default for SecurityConfig {
    fn default() -> (c: Self)
        ensures
            c.max_messages_per_minute == 30,
            c.max_joins_per_minute == 10,
            !c.require_approval,
            c.allowed_origins@.len() == 0,
    {
        SecurityConfig {
            max_messages_per_minute: default_rate_msg(),
            max_joins_per_minute: default_rate_join(),
            require_approval: false,
            allowed_origins: Vec::new(),
        }
    }
}

/// The configuration file written for a new server.
pub const DEFAULT_TOML: &'static str = r#"[server]
name = "My ONYX Server"
description = "A self-hosted group server"
bind_address = "0.0.0.0"
port = 9090
max_members_per_group = 500
max_groups = 0
max_message_length = 4096
motd = ""

[database]
path = "./data/onyx-server.db"

[media]
provider = "local"
max_file_size_mb = 50
allowed_types = ["image", "video", "audio", "file"]

[media.local]
storage_path = "./data/media"

[media.custom]
upload_url = ""
upload_field_name = "file"
response_url_jsonpath = "$.url"

[moderation]
enable_moderators = true
default_role = "member"

[security]
max_messages_per_minute = 30
max_joins_per_minute = 10
require_approval = false
# Restrict CORS to specific origins, e.g. ["https://app.example.com"]
# Leave empty to allow any origin (suitable for LAN/desktop-app deployments)
allowed_origins = []

[voice]
# Set to false to completely disable voice channels on this server.
# When false: the feature is hidden from clients and all voice WebSocket messages are rejected.
enabled = true
# Audio quality preset: "low" (32 kbps), "medium" (64 kbps), "high" (96 kbps), "ultra" (128 kbps)
# "medium" matches Discord's default channel quality.
quality = "medium"
# Uncomment to set an exact bitrate in bits/s (overrides quality preset):
# max_bitrate_bps = 64000
noise_suppression = true
echo_cancellation = true
auto_gain_control = true
# Enable stereo (doubles bandwidth; useful for music bots)
stereo = false
"#;

/// What `Path::parent` gives for a path, as text.
pub uninterp spec fn spec_path_parent(path: Seq<char>) -> Option<Seq<char>>;

/// The parent directory of `path`, through `std::path::Path::parent`. Its
/// documentation says the result is `None` for the empty path (and for a
/// root or prefix); what it is otherwise is left to the name.
#[verifier::external_body]
fn path_parent(path: &str) -> (r: Option<String>)
    ensures
        match r {
            Some(p) => spec_path_parent(path@) == Some(p@),
            None => spec_path_parent(path@) is None,
        },
        path@.len() == 0 ==> r is None,
{
    match std::path::Path::new(path).parent() {
        Some(p) => Some(p.to_string_lossy().into_owned()),
        None => None,
    }
}

/// The directories a server needs before it starts.
pub struct DirectoryPlan {
    /// The directory that holds the database file.
    pub database_dir: String,
    /// The local media directory, when media is stored locally.
    pub media_dir: Option<String>,
}

impl Config {
    /// The text of the configuration file written for a new server.
    pub fn default_toml() -> (s: String)
        ensures
            s@ == DEFAULT_TOML@,
    {
        DEFAULT_TOML.to_owned()
    }

    /// The directories `ensure_directories` creates: the database's parent
    /// directory, and the local media directory when the provider is
    /// "local". A database path without a parent is refused.
    pub fn directories_to_create(&self) -> (r: Result<DirectoryPlan, String>)
        ensures
            match spec_path_parent(self.database.path@) {
                Some(dir) => r matches Ok(plan) && plan.database_dir@ == dir && (if self.media.provider@
                    == "local"@ {
                    plan.media_dir matches Some(m) && m@ == self.media.local.storage_path@
                } else {
                    plan.media_dir is None
                }),
                None => r matches Err(e) && e@ == "Invalid database path"@,
            },
    {
        match path_parent(&self.database.path) {
            Some(dir) => {
                let local = "local".to_owned();
                let media_dir = if self.media.provider == local {
                    Some(self.media.local.storage_path.clone())
                } else {
                    None
                };
                Ok(DirectoryPlan { database_dir: dir, media_dir })
            },
            None => Err("Invalid database path".to_owned()),
        }
    }

    /// Sets the server description.
    pub fn update_description(&mut self, description: String)
        ensures
            *final(self) == (Config {
                server: ServerConfig { description: description, ..old(self).server },
                ..*old(self)
            }),
    {
        self.server.description = description;
    }

    /// Sets the message length limit.
    pub fn update_max_message_length(&mut self, length: u32)
        ensures
            *final(self) == (Config {
                server: ServerConfig { max_message_length: length, ..old(self).server },
                ..*old(self)
            }),
    {
        self.server.max_message_length = length;
    }

    /// Sets the media provider.
    pub fn update_media_provider(&mut self, provider: String)
        ensures
            *final(self) == (Config {
                media: MediaConfig { provider: provider, ..old(self).media },
                ..*old(self)
            }),
    {
        self.media.provider = provider;
    }

    /// Sets the upload size limit, in MB.
    pub fn update_max_file_size(&mut self, size_mb: u32)
        ensures
            *final(self) == (Config {
                media: MediaConfig { max_file_size_mb: size_mb, ..old(self).media },
                ..*old(self)
            }),
    {
        self.media.max_file_size_mb = size_mb;
    }

    /// Sets the kinds of upload allowed.
    pub fn update_allowed_file_types(&mut self, types: Vec<String>)
        ensures
            *final(self) == (Config {
                media: MediaConfig { allowed_types: types, ..old(self).media },
                ..*old(self)
            }),
    {
        self.media.allowed_types = types;
    }

    /// Sets the limit of messages per minute.
    pub fn update_rate_limit(&mut self, limit: u32)
        ensures
            *final(self) == (Config {
                security: SecurityConfig { max_messages_per_minute: limit, ..old(self).security },
                ..*old(self)
            }),
    {
        self.security.max_messages_per_minute = limit;
    }
}

/// The `u32` setting a number typed for a limit gives: the number modulo
/// 2^32, as a two's-complement truncation gives it (so -1 gives 4294967295).
pub fn u32_setting(n: i64) -> (r: u32)
    ensures
        r as int == n % 0x1_0000_0000,
{
    if n >= 0 {
        let q: i64 = n % 0x1_0000_0000;
        q as u32
    } else {
        let p: i64 = -(n + 1);
        let q: i64 = p % 0x1_0000_0000;
        proof {
            assert(n % 0x1_0000_0000 == 0xffff_ffff - q) by (nonlinear_arith)
                requires
                    p == -(n + 1),
                    p >= 0,
                    q == p % 0x1_0000_0000,
            {
                let k = p / 0x1_0000_0000;
                assert(p == k * 0x1_0000_0000 + q);
                assert(n == (-(k + 1)) * 0x1_0000_0000 + (0xffff_ffff - q));
                assert(0 <= 0xffff_ffff - q < 0x1_0000_0000);
            }
        }
        (0xffff_ffff - q) as u32
    }
}

/// Which browser origins may call the server.
pub enum CorsPolicy {
    /// Any origin.
    AnyOrigin,
    /// Only these origins.
    Origins(Vec<String>),
}

impl Config {
    /// The CORS policy: the explicit list of allowed origins when there is
    /// one; otherwise the public URL when it is set; otherwise any origin.
    pub fn cors_policy(&self) -> (p: CorsPolicy)
        ensures
            self.security.allowed_origins@.len() > 0 ==> (p matches CorsPolicy::Origins(v) && names_of(
                v,
            ) == names_of(self.security.allowed_origins)),
            self.security.allowed_origins@.len() == 0 ==> match self.server.public_url {
                Some(u) => p matches CorsPolicy::Origins(v) && names_of(v) == seq![u@],
                None => p is AnyOrigin,
            },
    {
        if self.security.allowed_origins.len() > 0 {
            let mut v: Vec<String> = Vec::new();
            let mut i: usize = 0;
            while i < self.security.allowed_origins.len()
                invariant
                    i <= self.security.allowed_origins@.len(),
                    names_of(v) == names_of(self.security.allowed_origins).take(i as int),
                decreases self.security.allowed_origins@.len() - i,
            {
                let o = self.security.allowed_origins[i].clone();
                let ghost before = names_of(v);
                v.push(o);
                assert(names_of(v) =~= before.push(self.security.allowed_origins@[i as int]@));
                assert(names_of(self.security.allowed_origins).take(i + 1) =~= names_of(
                    self.security.allowed_origins,
                ).take(i as int).push(names_of(self.security.allowed_origins)[i as int]));
                i = i + 1;
            }
            assert(names_of(self.security.allowed_origins).take(
                self.security.allowed_origins@.len() as int,
            ) =~= names_of(self.security.allowed_origins));
            CorsPolicy::Origins(v)
        } else {
            match &self.server.public_url {
                Some(u) => {
                    let mut v: Vec<String> = Vec::new();
                    v.push(u.clone());
                    assert(names_of(v) =~= seq![u@]);
                    CorsPolicy::Origins(v)
                },
                None => CorsPolicy::AnyOrigin,
            }
        }
    }
}

/// The texts held by a vector of strings.
pub open spec fn names_of(v: Vec<String>) -> Seq<Seq<char>> {
    v@.map_values(|s: String| s@)
}

/// Whether `policy` lets a request from `origin` through.
pub fn origin_allowed(policy: &CorsPolicy, origin: &str) -> (b: bool)
    ensures
        b == match policy {
            CorsPolicy::AnyOrigin => true,
            CorsPolicy::Origins(v) => names_of(*v).contains(origin@),
        },
{
    match policy {
        CorsPolicy::AnyOrigin => true,
        CorsPolicy::Origins(v) => contains_text(v, origin),
    }
}

} // verus!

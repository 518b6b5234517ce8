use onyx_server::config::{origin_allowed, u32_setting, CorsPolicy};
use onyx_server::config::{
    default_allowed_types, default_bind, default_db_path, default_field_name, default_jsonpath,
    default_max_file_size, default_max_members, default_max_msg_len, default_name, default_port,
    default_provider, default_rate_join, default_rate_msg, default_role, default_storage_path,
    default_true, default_voice_quality, Config, DatabaseConfig, MediaConfig, ModerationConfig,
    SecurityConfig, ServerConfig, VoiceConfig, DEFAULT_TOML,
};

fn sample() -> Config {
    Config {
        server: ServerConfig::default(),
        database: DatabaseConfig::default(),
        media: MediaConfig::default(),
        moderation: ModerationConfig::default(),
        security: SecurityConfig::default(),
        voice: VoiceConfig::default(),
    }
}

#[test]
fn default_values() {
    assert_eq!(default_name(), "My ONYX Server");
    assert_eq!(default_bind(), "0.0.0.0");
    assert_eq!(default_port(), 9090);
    assert_eq!(default_max_members(), 500);
    assert_eq!(default_max_msg_len(), 4096);
    assert_eq!(default_db_path(), "./data/onyx-server.db");
    assert_eq!(default_provider(), "local");
    assert_eq!(default_max_file_size(), 50);
    assert_eq!(default_allowed_types(), vec!["image", "video", "audio", "file"]);
    assert_eq!(default_storage_path(), "./data/media");
    assert_eq!(default_field_name(), "file");
    assert_eq!(default_jsonpath(), "$.url");
    assert!(default_true());
    assert_eq!(default_role(), "member");
    assert_eq!(default_rate_msg(), 30);
    assert_eq!(default_rate_join(), 10);
    assert_eq!(default_voice_quality(), "ultra");
}

#[test]
fn default_sections() {
    let c = sample();
    assert_eq!(c.server.name, "My ONYX Server");
    assert_eq!(c.server.description, "");
    assert_eq!(c.server.port, 9090);
    assert_eq!(c.server.public_url, None);
    assert_eq!(c.server.max_groups, 0);
    assert_eq!(c.database.path, "./data/onyx-server.db");
    assert_eq!(c.media.provider, "local");
    assert_eq!(c.media.local.storage_path, "");
    assert!(c.media.custom.extra_headers.is_empty());
    assert!(c.moderation.enable_moderators);
    assert_eq!(c.moderation.default_role, "member");
    assert_eq!(c.security.max_messages_per_minute, 30);
    assert_eq!(c.security.max_joins_per_minute, 10);
    assert!(!c.security.require_approval);
    assert!(c.security.allowed_origins.is_empty());
    assert!(c.voice.enabled);
    assert_eq!(c.voice.quality, "ultra");
    assert!(!c.voice.stereo);
}

#[test]
fn bitrate_presets() {
    let mut v = VoiceConfig::default();
    assert_eq!(v.effective_bitrate_bps(), 128_000);
    v.quality = "low".to_string();
    assert_eq!(v.effective_bitrate_bps(), 32_000);
    v.quality = "medium".to_string();
    assert_eq!(v.effective_bitrate_bps(), 64_000);
    v.quality = "high".to_string();
    assert_eq!(v.effective_bitrate_bps(), 96_000);
    v.quality = "LOW".to_string();
    assert_eq!(v.effective_bitrate_bps(), 64_000);
}

#[test]
fn bitrate_override_wins() {
    let mut v = VoiceConfig::default();
    v.quality = "low".to_string();
    v.max_bitrate_bps = Some(48_000);
    assert_eq!(v.effective_bitrate_bps(), 48_000);
}

#[test]
fn updates_change_one_field() {
    let base = sample();
    let mut c = base.clone();
    c.update_description("hello".to_string());
    assert_eq!(c.server.description, "hello");
    c.update_max_message_length(100);
    assert_eq!(c.server.max_message_length, 100);
    c.update_media_provider("s3".to_string());
    assert_eq!(c.media.provider, "s3");
    c.update_max_file_size(7);
    assert_eq!(c.media.max_file_size_mb, 7);
    c.update_allowed_file_types(vec!["image/*".to_string()]);
    assert_eq!(c.media.allowed_types, vec!["image/*".to_string()]);
    c.update_rate_limit(0);
    assert_eq!(c.security.max_messages_per_minute, 0);
    assert_eq!(c.voice, base.voice);
    assert_eq!(c.database, base.database);
    assert_eq!(c.server.name, base.server.name);
}

#[test]
fn default_toml_is_the_template() {
    let text = Config::default_toml();
    assert_eq!(text, DEFAULT_TOML);
    assert!(text.starts_with("[server]\nname = \"My ONYX Server\"\n"));
    let table: toml::Table = toml::from_str(&text).expect("template parses");
    assert_eq!(table["server"]["port"].as_integer(), Some(9090));
    assert_eq!(table["server"]["description"].as_str(), Some("A self-hosted group server"));
    assert_eq!(table["voice"]["quality"].as_str(), Some("medium"));
    assert_eq!(table["security"]["max_messages_per_minute"].as_integer(), Some(30));
}

#[test]
fn directories_for_local_media() {
    let c = sample();
    let plan = c.directories_to_create().expect("has a parent");
    assert_eq!(plan.database_dir, "./data");
    assert_eq!(plan.media_dir, Some(String::new()));
}

#[test]
fn directories_without_local_media() {
    let mut c = sample();
    c.media.provider = "s3".to_string();
    c.database.path = "/var/lib/onyx/a.db".to_string();
    let plan = c.directories_to_create().expect("has a parent");
    assert_eq!(plan.database_dir, "/var/lib/onyx");
    assert_eq!(plan.media_dir, None);
}

#[test]
fn directories_refuse_path_without_parent() {
    let mut c = sample();
    c.database.path = String::new();
    assert_eq!(c.directories_to_create().err(), Some("Invalid database path".to_string()));
    c.database.path = "/".to_string();
    assert_eq!(c.directories_to_create().err(), Some("Invalid database path".to_string()));
}

#[test]
fn cors_policy_prefers_explicit_origins() {
    let mut c = sample();
    assert!(matches!(c.cors_policy(), CorsPolicy::AnyOrigin));
    assert!(origin_allowed(&c.cors_policy(), "https://anything.example"));
    c.server.public_url = Some("https://chat.example.com".to_string());
    match c.cors_policy() {
        CorsPolicy::Origins(v) => assert_eq!(v, vec!["https://chat.example.com".to_string()]),
        CorsPolicy::AnyOrigin => panic!("expected the public URL"),
    }
    assert!(!origin_allowed(&c.cors_policy(), "https://evil.example"));
    c.security.allowed_origins = vec!["https://app.example.com".to_string()];
    match c.cors_policy() {
        CorsPolicy::Origins(v) => assert_eq!(v, vec!["https://app.example.com".to_string()]),
        CorsPolicy::AnyOrigin => panic!("expected the explicit list"),
    }
    assert!(origin_allowed(&c.cors_policy(), "https://app.example.com"));
    assert!(!origin_allowed(&c.cors_policy(), "https://chat.example.com"));
}

#[test]
fn u32_setting_wraps() {
    assert_eq!(u32_setting(0), 0);
    assert_eq!(u32_setting(4096), 4096);
    assert_eq!(u32_setting(-1), 4294967295);
    assert_eq!(u32_setting(4294967296), 0);
    assert_eq!(u32_setting(4294967297), 1);
    assert_eq!(u32_setting(-4294967296), 0);
    assert_eq!(u32_setting(i64::MIN), 0);
    assert_eq!(u32_setting(i64::MAX), 4294967295);
    for n in [-5i64, 123456789012, -98765432109, 7] {
        assert_eq!(u32_setting(n), n as u32);
    }
}

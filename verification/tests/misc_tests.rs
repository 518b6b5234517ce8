use onyx_server::cli::{
    auto_port, config_path_for, database_path_for, is_channel_type, is_valid_role, launcher_file_name,
    launcher_script, or_default, port_from_input, resolve_target_os, role_for_choice, LauncherOs,
};
use onyx_server::config::{Config, DatabaseConfig, MediaConfig, ModerationConfig, SecurityConfig, ServerConfig, VoiceConfig};
use onyx_server::ids::{anon_username_for, channel_token, new_anon_username, new_invite_token};
use onyx_server::info::{
    group_list, group_summary, info_features, public_channel, server_info, GroupInfoRow, GroupRow, GroupsRow,
    InfoResponse, PublicChannelRow,
};
use onyx_server::menu::{chosen_server, parse_choice, port_label, server_type_label, ServerSummary};
use onyx_server::updater::{is_newer, release_update, CURRENT_VERSION};

fn config() -> Config {
    Config {
        server: ServerConfig::default(),
        database: DatabaseConfig::default(),
        media: MediaConfig::default(),
        moderation: ModerationConfig::default(),
        security: SecurityConfig::default(),
        voice: VoiceConfig::default(),
    }
}

fn is_uuid_v4(s: &str) -> bool {
    let b: Vec<char> = s.chars().collect();
    b.len() == 36
        && b.iter().enumerate().all(|(i, c)| {
            if [8, 13, 18, 23].contains(&i) {
                *c == '-'
            } else {
                c.is_ascii_hexdigit() && !c.is_ascii_uppercase()
            }
        })
        && b[14] == '4'
}

#[test]
fn newer_ignores_leading_v() {
    assert!(!is_newer("v0.7-beta", CURRENT_VERSION));
    assert!(!is_newer("0.7-beta", CURRENT_VERSION));
    assert!(is_newer("v0.8", CURRENT_VERSION));
    assert!(is_newer("v0.6", CURRENT_VERSION));
}

#[test]
fn release_update_only_for_other_versions() {
    assert!(release_update("v0.7-beta".to_string(), "u".to_string()).is_none());
    let info = release_update("v0.8".to_string(), "https://example.org/r".to_string()).expect("newer");
    assert_eq!(info.tag, "v0.8");
    assert_eq!(info.page_url, "https://example.org/r");
}

#[test]
fn fresh_tokens_are_uuids() {
    assert!(is_uuid_v4(&new_invite_token()));
    let (t, fresh) = channel_token(None);
    assert!(fresh);
    assert!(is_uuid_v4(&t));
    let (t, fresh) = channel_token(Some("kept".to_string()));
    assert!(!fresh);
    assert_eq!(t, "kept");
    assert_ne!(new_invite_token(), new_invite_token());
}

#[test]
fn anonymous_names() {
    assert_eq!(anon_username_for("abc"), "public:anon:abc");
    let n = new_anon_username();
    assert!(n.starts_with("public:anon:"));
    assert!(is_uuid_v4(&n["public:anon:".len()..]));
}

#[test]
fn features_follow_config() {
    let mut c = config();
    assert_eq!(
        info_features(&c),
        vec!["messaging", "websocket", "moderation", "media_upload", "media_local", "images", "video", "voice"]
    );
    c.moderation.enable_moderators = false;
    c.media.provider = "none".to_string();
    c.media.allowed_types = vec!["audio".to_string()];
    c.voice.enabled = false;
    assert_eq!(info_features(&c), vec!["messaging", "websocket"]);
    c.media.provider = "s3".to_string();
    assert_eq!(info_features(&c), vec!["messaging", "websocket", "media_upload"]);
}

#[test]
fn info_with_and_without_group() {
    let c = config();
    match server_info(&c, "0.7.0", None, 0) {
        InfoResponse::NotInitialized { name, version, error } => {
            assert_eq!(name, "My ONYX Server");
            assert_eq!(version, "0.7.0");
            assert_eq!(error, "Group not initialized");
        }
        _ => panic!("expected not initialized"),
    }
    let row = GroupInfoRow {
        name: "Team".to_string(),
        description: "d".to_string(),
        invite_token: "inv".to_string(),
        avatar_version: 3,
        is_channel: true,
        public_channel_token: Some("pub".to_string()),
    };
    match server_info(&c, "0.7.0", Some(row), 12) {
        InfoResponse::Ready { group_name, total_members, groups_count, voice_config, public_channel_token, is_channel, .. } => {
            assert_eq!(group_name, "Team");
            assert_eq!(total_members, 12);
            assert_eq!(groups_count, 1);
            assert_eq!(voice_config.max_bitrate_bps, 128_000);
            assert_eq!(public_channel_token, Some("pub".to_string()));
            assert!(is_channel);
        }
        _ => panic!("expected ready"),
    }
}

#[test]
fn invite_link_only_for_owner_and_moderator() {
    let row = || GroupsRow {
        id: 1,
        name: "G".to_string(),
        is_channel: false,
        owner: "admin".to_string(),
        invite_token: "tok".to_string(),
        avatar_version: 1,
    };
    assert!(group_list(None, 0, None).is_empty());
    let l = group_list(Some(row()), 5, None);
    assert_eq!(l.len(), 1);
    assert_eq!(l[0].my_role, "member");
    assert_eq!(l[0].invite_link, None);
    assert_eq!(l[0].member_count, 5);
    let l = group_list(Some(row()), 5, Some("moderator".to_string()));
    assert_eq!(l[0].invite_link, Some("tok".to_string()));
    let l = group_list(Some(row()), 5, Some("owner".to_string()));
    assert_eq!(l[0].invite_link, Some("tok".to_string()));
}

#[test]
fn single_group_and_public_channel() {
    assert_eq!(group_summary(None, 0).err(), Some("Group not found".to_string()));
    let g = group_summary(
        Some(GroupRow {
            name: "G".to_string(),
            description: String::new(),
            avatar_version: 2,
            is_channel: false,
            owner: "admin".to_string(),
        }),
        4,
    )
    .ok()
    .expect("group");
    assert_eq!(g.member_count, 4);
    assert_eq!(public_channel(None, "t".to_string()).err(), Some("Public channel not found".to_string()));
    let p = public_channel(
        Some(PublicChannelRow {
            name: "News".to_string(),
            description: "d".to_string(),
            avatar_version: 1,
            owner: "admin".to_string(),
        }),
        "t".to_string(),
    )
    .ok()
    .expect("channel");
    assert_eq!(p.public_token, "t");
}

#[test]
fn menu_choices() {
    assert_eq!(parse_choice("3", 6), Some(3));
    assert_eq!(parse_choice("0", 6), None);
    assert_eq!(parse_choice("7", 6), None);
    assert_eq!(parse_choice("x", 6), None);
    assert_eq!(parse_choice("", 6), None);
    let servers = vec![ServerSummary {
        name: "a".to_string(),
        group_name: "A".to_string(),
        is_channel: false,
        port: 3000,
        members: 1,
        messages: 0,
    }];
    assert_eq!(chosen_server(&servers, 1), Some("a".to_string()));
    assert_eq!(chosen_server(&servers, 2), None);
    assert_eq!(server_type_label(true), "Channel");
    assert_eq!(server_type_label(false), "Group");
    assert_eq!(port_label(0), "N/A");
    assert_eq!(port_label(3001), "3001");
}

#[test]
fn admin_paths_and_roles() {
    assert_eq!(config_path_for(Some("gaming")), ".onyx/configs/gaming.toml");
    assert_eq!(config_path_for(None), "config.toml");
    assert_eq!(database_path_for("gaming"), ".onyx/data/gaming.db");
    assert!(is_valid_role("owner"));
    assert!(is_valid_role("moderator"));
    assert!(is_valid_role("member"));
    assert!(!is_valid_role("admin"));
    assert_eq!(role_for_choice(1), "owner");
    assert_eq!(role_for_choice(2), "moderator");
    assert_eq!(role_for_choice(3), "member");
    assert!(is_channel_type("Channel"));
    assert!(!is_channel_type("group"));
}

#[test]
fn ports() {
    assert_eq!(auto_port(0), 3000);
    assert_eq!(auto_port(2), 3002);
    assert_eq!(port_from_input("", 3001), 3001);
    assert_eq!(port_from_input("8080", 3001), 8080);
    assert_eq!(port_from_input("70000", 3001), 3001);
    assert_eq!(port_from_input("abc", 3001), 3001);
    assert_eq!(or_default(String::new(), &"srv".to_string()), "srv");
    assert_eq!(or_default("g".to_string(), &"srv".to_string()), "g");
}

#[test]
fn launchers() {
    assert!(matches!(resolve_target_os("auto", true), Some(LauncherOs::Windows)));
    assert!(matches!(resolve_target_os("auto", false), Some(LauncherOs::Linux)));
    assert!(matches!(resolve_target_os("linux", true), Some(LauncherOs::Linux)));
    assert!(resolve_target_os("mac", true).is_none());
    assert_eq!(launcher_file_name(&LauncherOs::Windows, "gaming"), "gaming.bat");
    assert_eq!(launcher_file_name(&LauncherOs::Linux, "gaming"), "gaming.sh");
    let expected_linux = format!(
        r#"#!/bin/bash
cd "$(dirname "$0")"
echo "Starting ONYX server: {}"
echo "Port: {}"
echo ""
echo "Press Ctrl+C to stop the server"
echo ""
./onyx-server --server {} serve
"#,
        "gaming", 3000, "gaming"
    );
    assert_eq!(launcher_script(&LauncherOs::Linux, "gaming", 3000), expected_linux);
    let expected_windows = format!(
        r#"@echo off
title ONYX Server - {}
cd /d "%~dp0"
echo Starting ONYX server: {}
echo Port: {}
echo.
echo Press Ctrl+C to stop the server
echo.
onyx-server.exe --server {} serve
pause
"#,
        "gaming", "gaming", 3000, "gaming"
    );
    assert_eq!(launcher_script(&LauncherOs::Windows, "gaming", 3000), expected_windows);
}

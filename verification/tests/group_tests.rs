use onyx_server::group::{
    convert_to_channel, convert_to_group, owner_step, owners_from_answers, public_token_for, setup_plan,
    ChannelConversion, ChannelState, GroupConversion, OwnerStep, PublicTokenRequest, SetupPlan,
};

fn state(is_channel: bool, token: Option<&str>) -> ChannelState {
    ChannelState { is_channel, public_channel_token: token.map(|t| t.to_string()) }
}

#[test]
fn to_channel_keeps_existing_token() {
    assert!(matches!(convert_to_channel(state(true, Some("t"))), ChannelConversion::AlreadyChannel));
    match convert_to_channel(state(false, Some("t"))) {
        ChannelConversion::Converted { token } => assert_eq!(token, "t"),
        _ => panic!("expected conversion"),
    }
    match convert_to_channel(state(false, None)) {
        ChannelConversion::Converted { token } => assert_eq!(token.len(), 36),
        _ => panic!("expected conversion"),
    }
}

#[test]
fn to_group() {
    assert!(matches!(convert_to_group(true), GroupConversion::Converted));
    assert!(matches!(convert_to_group(false), GroupConversion::AlreadyGroup));
}

#[test]
fn public_token_only_for_channels() {
    assert!(matches!(public_token_for(state(false, Some("t"))), PublicTokenRequest::NotAChannel));
    match public_token_for(state(true, Some("t"))) {
        PublicTokenRequest::Token { token, fresh } => {
            assert_eq!(token, "t");
            assert!(!fresh);
        }
        _ => panic!("expected token"),
    }
    match public_token_for(state(true, None)) {
        PublicTokenRequest::Token { token, fresh } => {
            assert_eq!(token.len(), 36);
            assert!(fresh);
        }
        _ => panic!("expected token"),
    }
}

#[test]
fn setup_plans() {
    match setup_plan(Some(state(false, Some("t"))), true) {
        SetupPlan::UpdateChannel { token } => assert_eq!(token, "t"),
        _ => panic!("expected channel update"),
    }
    assert!(matches!(setup_plan(Some(state(true, None)), false), SetupPlan::UpdateGroup));
    match setup_plan(None, true) {
        SetupPlan::Create { invite_token, public_token } => {
            assert_eq!(invite_token.len(), 36);
            assert_eq!(public_token.map(|p| p.len()), Some(36));
        }
        _ => panic!("expected create"),
    }
    match setup_plan(None, false) {
        SetupPlan::Create { public_token, .. } => assert!(public_token.is_none()),
        _ => panic!("expected create"),
    }
}

fn strings(v: &[&str]) -> Vec<String> {
    v.iter().map(|s| s.to_string()).collect()
}

#[test]
fn owners_stop_at_first_empty_answer() {
    assert_eq!(owners_from_answers(&strings(&["ann", "bo", "", "cy"])), strings(&["ann", "bo"]));
    assert_eq!(owners_from_answers(&strings(&["", "bo"])), Vec::<String>::new());
    assert_eq!(owners_from_answers(&strings(&[])), Vec::<String>::new());
}

#[test]
fn owners_at_most_three() {
    assert_eq!(owners_from_answers(&strings(&["a", "b", "c", "d"])), strings(&["a", "b", "c"]));
}

#[test]
fn owner_steps() {
    let mut owners = Vec::new();
    assert!(matches!(owner_step(&mut owners, "ann".to_string()), OwnerStep::Added { main_owner: true, more: true }));
    assert!(matches!(owner_step(&mut owners, "bo".to_string()), OwnerStep::Added { main_owner: false, more: true }));
    assert!(matches!(owner_step(&mut owners, "cy".to_string()), OwnerStep::Added { main_owner: false, more: false }));
    assert_eq!(owners, strings(&["ann", "bo", "cy"]));
    let mut none: Vec<String> = Vec::new();
    assert!(matches!(owner_step(&mut none, String::new()), OwnerStep::Done));
    assert!(none.is_empty());
}

use driptorch::sessions::{
    assemble_session_name, authorize_requested, bearer_token, list_sessions, logout_plan,
    parse_bearer_token, plan_user_deletion, BearerRejection, DeletePlan, ListSession,
    LogoutAction, LogoutInput, OwnedTeam, SessionSummary, TeamPermissions, UserFromBearer,
    UserSummary,
};

fn team(found: bool, personal: bool, id: &str) -> OwnedTeam {
    OwnedTeam { found, personal, id: id.to_string() }
}

fn summary(id: &str, name: &str, ip: &str, context: &str) -> SessionSummary {
    SessionSummary {
        id: id.to_string(),
        name: name.to_string(),
        ip: ip.to_string(),
        context: context.to_string(),
    }
}

#[test]
fn bearer_token_is_extracted() {
    assert_eq!(parse_bearer_token("Bearer abc123"), Some("abc123"));
    assert_eq!(parse_bearer_token("Bearer a b"), Some("a b"));
    assert_eq!(parse_bearer_token("Bearer "), Some(""));
}

#[test]
fn non_bearer_headers_are_rejected() {
    assert_eq!(parse_bearer_token("Basic abc123"), None);
    assert_eq!(parse_bearer_token("Bearer"), None);
    assert_eq!(parse_bearer_token(""), None);
    assert_eq!(parse_bearer_token("bearer abc"), None);
}

#[test]
fn session_name_from_full_agent() {
    let name = assemble_session_name(Some("Firefox"), Some("109"), Some("Ubuntu"), Some("22"));
    assert_eq!(name, "Firefox 109 / Ubuntu 22");
}

#[test]
fn session_name_without_majors() {
    let name = assemble_session_name(Some("Firefox"), None, Some("Ubuntu"), None);
    assert_eq!(name, "Firefox / Ubuntu");
}

#[test]
fn session_name_from_unparsed_agent() {
    let name = assemble_session_name(None, None, None, None);
    assert_eq!(name, "Unknown / Unknown");
}

#[test]
fn logout_plans() {
    let all = LogoutInput { session_id: "ALL".to_string() };
    let current = LogoutInput { session_id: "".to_string() };
    let named = LogoutInput { session_id: "01ARZ3NDEKTSV4RRFFQ69G5FAV".to_string() };
    assert_eq!(logout_plan(&all), LogoutAction::InvalidateAll);
    assert_eq!(logout_plan(&current), LogoutAction::InvalidateCurrent);
    assert_eq!(logout_plan(&named), LogoutAction::InvalidateRequested);
}

#[test]
fn only_own_sessions_may_be_invalidated() {
    let session = summary("sid", "Firefox / Ubuntu", "10.0.0.1", "user-1");
    let user = "user-1".to_string();
    let other = "user-2".to_string();
    assert_eq!(authorize_requested(Some(&session), &user), Some("sid".to_string()));
    assert_eq!(authorize_requested(Some(&session), &other), None);
    assert_eq!(authorize_requested(None, &user), None);
}

#[test]
fn listing_keeps_order_and_fields() {
    let sessions = vec![
        summary("s1", "Firefox / Ubuntu", "10.0.0.1", "u"),
        summary("s2", "Safari / macOS", "10.0.0.2", "u"),
    ];
    let listed = list_sessions(&sessions);
    assert_eq!(listed.sessions.len(), 2);
    let ListSession { id, name, ip } = &listed.sessions[0];
    assert_eq!((id.as_str(), name.as_str(), ip.as_str()), ("s1", "Firefox / Ubuntu", "10.0.0.1"));
    assert_eq!(listed.sessions[1].id, "s2");
}

#[test]
fn permission_names() {
    assert_eq!(TeamPermissions::OWNER.as_str(), "OWNER");
    assert_eq!(TeamPermissions::ADMIN.as_str(), "ADMIN");
    assert_eq!(TeamPermissions::EDITOR.as_str(), "EDITOR");
    assert_eq!(TeamPermissions::VIEWER.as_str(), "VIEWER");
}

#[test]
fn deletion_proceeds_for_a_personal_team_owner() {
    let owned = vec![team(true, true, "team-1")];
    assert!(matches!(plan_user_deletion(&owned), DeletePlan::DeleteTeam(id) if id == "team-1"));
}

#[test]
fn deletion_is_refused_for_non_personal_owners() {
    let owned = vec![team(true, true, "team-1"), team(true, false, "team-2")];
    assert!(matches!(plan_user_deletion(&owned), DeletePlan::OwnsNonPersonal));
}

#[test]
fn deletion_reports_a_dangling_membership() {
    let owned = vec![team(false, false, "team-1")];
    assert!(matches!(plan_user_deletion(&owned), DeletePlan::MissingTeam));
}

#[test]
fn deletion_without_any_owned_team_is_inconsistent() {
    let owned: Vec<OwnedTeam> = Vec::new();
    assert!(matches!(plan_user_deletion(&owned), DeletePlan::NoPersonalTeam));
}

#[test]
fn bearer_extraction_reports_exact_rejections() {
    assert_eq!(bearer_token(Some("Bearer tok")), Ok("tok"));
    assert_eq!(bearer_token(Some("Basic tok")), Err(BearerRejection::NotBearer));
    assert_eq!(bearer_token(None), Err(BearerRejection::MissingHeader));
}

#[test]
fn bearer_user_resolution() {
    let user = UserSummary { id: "u1".to_string(), name: "Alice".to_string() };
    let resolved = UserFromBearer::from_lookup(Some((user, "s1".to_string()))).unwrap();
    let UserFromBearer((resolved_user, session_id)) = resolved;
    assert_eq!(resolved_user.id, "u1");
    assert_eq!(session_id, "s1");
    assert!(matches!(
        UserFromBearer::from_lookup(None),
        Err(BearerRejection::UnknownToken)
    ));
}

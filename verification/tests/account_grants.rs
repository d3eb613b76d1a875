use bigbytesdb::account_grants::{AccountAction, AccountGrantsQuery, AccountPhase};
use bigbytesdb::interpreters::{append_to_table_stages, AppendStage};
use bigbytesdb::ErrorCode;

#[test]
fn user_grants_look_up_the_user_before_checking_access() {
    let (mut q, a) = AccountGrantsQuery::start("user", "u1", "u1", "'u1'@'%'", vec![], false);
    assert_eq!(a, AccountAction::GetUser { name: "u1".to_string() });
    assert_eq!(q.phase, AccountPhase::AwaitUser);
    assert_eq!(q.on_user("u1", "'u1'@'%'"), AccountAction::FindRelatedRoles);
    assert_eq!(q.grant_to, "USER");
    assert_eq!(q.identity, "'u1'@'%'");
    assert_eq!(q.on_related_roles(vec!["r2".to_string(), "r1".to_string()]), AccountAction::GetOwnerships);
    assert_eq!(q.roles, Some(vec!["r1".to_string(), "r2".to_string()]));
    assert_eq!(q.on_ownerships(), AccountAction::Collect);
    assert_eq!(q.phase, AccountPhase::Collecting);
}

#[test]
fn other_users_need_the_grant_privilege() {
    let (mut q, _) = AccountGrantsQuery::start(
        "user",
        "u2",
        "u1",
        "'u1'@'%'",
        vec!["b".to_string(), "a".to_string()],
        false,
    );
    assert_eq!(
        q.on_user("u2", "'u2'@'%'"),
        AccountAction::Fail(ErrorCode::PermissionDenied(
            "Permission denied: privilege [Grant] is required on *.* for user 'u1'@'%' with roles [a,b]".to_string()
        ))
    );
    assert_eq!(q.phase, AccountPhase::Failed);
}

#[test]
fn role_grants_check_effective_roles_then_look_up_the_role() {
    let (mut q, a) = AccountGrantsQuery::start("role", "r1", "u1", "'u1'@'%'", vec![], false);
    assert_eq!(a, AccountAction::GetEffectiveRoles);
    assert_eq!(q.on_effective_roles(&vec!["r1".to_string()]), AccountAction::GetRole { name: "r1".to_string() });
    assert_eq!(q.on_role(vec!["account_admin".to_string()]), AccountAction::FindRelatedRoles);
    assert_eq!(q.identity, "ROLE `r1`");
    assert_eq!(q.grant_to, "ROLE");
    assert_eq!(q.grantee_name, "r1");
    assert_eq!(q.on_related_roles(vec!["x".to_string()]), AccountAction::Collect);
    assert_eq!(q.roles, Some(vec!["account_admin".to_string(), "r1".to_string()]));
}

#[test]
fn unknown_account_kind_fails_at_once() {
    let (q, a) = AccountGrantsQuery::start("group", "g", "u", "u", vec![], true);
    assert_eq!(q.phase, AccountPhase::Failed);
    assert_eq!(
        a,
        AccountAction::Fail(ErrorCode::InvalidArgument("Expected 'user|role', but got \"group\"".to_string()))
    );
}

#[test]
fn appending_stages() {
    assert_eq!(
        append_to_table_stages(true),
        vec![AppendStage::FillAndReorderColumns, AppendStage::AppendData, AppendStage::CommitInsertion]
    );
    assert_eq!(append_to_table_stages(false), vec![AppendStage::FillAndReorderColumns, AppendStage::AppendData]);
}

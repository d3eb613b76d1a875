use bigbytesdb::kvapi::{KeyError, TIdent, Tenant, UnknownError, ExistError};
use bigbytesdb::principal::network_policy_ident;
use bigbytesdb::principal::password_policy_ident;
use bigbytesdb::{ErrorCode, NetworkPolicyIdent, PasswordPolicyIdent};

#[test]
fn test_network_policy_ident() {
    let tenant = Tenant::new_literal("test");
    let ident = NetworkPolicyIdent::new(tenant, "test1");

    let key = ident.to_string_key();
    assert_eq!(key, "__fd_network_policies/test/test1");

    assert_eq!(ident, NetworkPolicyIdent::from_str_key(&key).unwrap());
}

#[test]
fn test_password_policy_ident() {
    let tenant = Tenant::new_literal("test");
    let ident = PasswordPolicyIdent::new(tenant, "test2");

    let key = ident.to_string_key();
    assert_eq!(key, "__fd_password_policies/test/test2");

    assert_eq!(ident, PasswordPolicyIdent::from_str_key(&key).unwrap());
}

#[test]
fn key_escapes_special_characters_and_reads_back() {
    let tenant = Tenant::new_literal("ten/ant");
    let ident = NetworkPolicyIdent::new(tenant, "a b%c");
    let key = ident.to_string_key();
    assert_eq!(key, "__fd_network_policies/ten%2fant/a%20b%25c");
    let back = NetworkPolicyIdent::from_str_key(&key).unwrap();
    assert_eq!(back, ident);
    assert_eq!(back.name(), "a b%c");
    assert_eq!(back.tenant().tenant_name(), "ten/ant");
}

#[test]
fn key_with_wrong_prefix_is_refused() {
    let r = PasswordPolicyIdent::from_str_key("__fd_network_policies/test/test1");
    assert_eq!(r, Err(KeyError::WrongPrefix));
}

#[test]
fn key_with_wrong_segment_count_is_refused() {
    let r = NetworkPolicyIdent::from_str_key("__fd_network_policies/test");
    assert_eq!(r, Err(KeyError::WrongNumberOfSegments { expect: 3, got: 2 }));
}

#[test]
fn key_with_empty_tenant_is_refused() {
    let r = NetworkPolicyIdent::from_str_key("__fd_network_policies//x");
    assert_eq!(r, Err(KeyError::EmptyTenant));
}

#[test]
fn key_with_bad_escape_is_refused() {
    let r = NetworkPolicyIdent::from_str_key("__fd_network_policies/t/%zz");
    assert_eq!(r, Err(KeyError::InvalidSegment { index: 2 }));
}

#[test]
fn empty_tenant_name_is_an_error() {
    assert!(Tenant::new_or_err(String::new(), "ctx").is_err());
    assert_eq!(Tenant::new_or_err("t".to_string(), "ctx").unwrap().tenant_name(), "t");
}

#[test]
fn network_policy_errors_carry_their_messages() {
    let e: UnknownError<network_policy_ident::Resource> = UnknownError::new("p1", "get");
    let code = ErrorCode::unknown_network_policy(e);
    assert_eq!(code, ErrorCode::UnknownNetworkPolicy("Unknown NetworkPolicyIdent 'p1': get".to_string()));
    let e: ExistError<network_policy_ident::Resource> = ExistError::new("p1", "create");
    let code = ErrorCode::network_policy_already_exists(e);
    assert_eq!(
        code,
        ErrorCode::NetworkPolicyAlreadyExists("NetworkPolicyIdent 'p1' already exists: create".to_string())
    );
}

#[test]
fn password_policy_errors_carry_their_messages() {
    let e: UnknownError<password_policy_ident::Resource> = UnknownError::new("p2", "drop");
    let code: ErrorCode = e.into();
    assert_eq!(code.message(), "Unknown PasswordPolicyIdent 'p2': drop");
}

#[test]
fn ident_keeps_tenant_and_name() {
    let id: TIdent<network_policy_ident::Resource> = TIdent::new(Tenant::new_literal("t1"), "n1");
    assert_eq!(id.tenant().tenant_name(), "t1");
    assert_eq!(id.name(), "n1");
}

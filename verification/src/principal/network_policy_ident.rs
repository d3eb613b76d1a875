//! The meta-service key of a network policy.
use vstd::prelude::*;
use crate::error::ErrorCode;
use crate::kvapi::{is_key_prefix, ExistError, TIdent, TenantResource, UnknownError};

verus! {

/// Defines the meta-service key for network policy.
pub type NetworkPolicyIdent = TIdent<Resource>;

/// Network policies, kept under the prefix `__fd_network_policies`.
#[derive(Debug, PartialEq, Eq)]
pub struct Resource;

impl TenantResource for Resource {
    open spec fn spec_prefix() -> Seq<char> {
        "__fd_network_policies"@
    }

    open spec fn spec_ident_type() -> Seq<char> {
        "NetworkPolicyIdent"@
    }

    /// Network policies are kept per tenant.
    open spec fn spec_has_tenant() -> bool {
        true
    }

    fn prefix() -> (p: &'static str) {
        proof {
            reveal_strlit("__fd_network_policies");
            assert(is_key_prefix("__fd_network_policies"@)) by {
                let p = "__fd_network_policies"@;
                assert forall|i: int| 0 <= i < p.len() implies p[i] != '/' by {}
            }
        }
        "__fd_network_policies"
    }

    fn ident_type() -> (t: &'static str) {
        "NetworkPolicyIdent"
    }

    fn has_tenant() -> bool {
        true
    }

    fn resource() -> Self {
        Resource
    }
}

/// A network policy, as far as its key is concerned: its name.
#[derive(Debug, PartialEq, Eq)]
pub struct NetworkPolicy {
    pub name: String,
}

impl NetworkPolicy {
    /// The keys this value depends on: none.
    pub fn dependency_keys(&self, _key: &NetworkPolicyIdent) -> (keys: Vec<String>)
        ensures
            keys@.len() == 0,
    {
        Vec::new()
    }

    /// The name of the policy.
    pub fn name(&self) -> (n: &str)
        ensures
            n@ == self.name@,
    {
        self.name.as_str()
    }
}

impl ErrorCode {
    /// The error for creating a network policy whose name is taken.
    pub fn network_policy_already_exists(err: ExistError<Resource>) -> (r: ErrorCode)
        ensures
            r matches ErrorCode::NetworkPolicyAlreadyExists(m) && m@ == err.message_view(),
    {
        ErrorCode::NetworkPolicyAlreadyExists(err.to_string())
    }

    /// The error for using a network policy that does not exist.
    pub fn unknown_network_policy(err: UnknownError<Resource>) -> (r: ErrorCode)
        ensures
            r matches ErrorCode::UnknownNetworkPolicy(m) && m@ == err.message_view(),
    {
        ErrorCode::UnknownNetworkPolicy(err.to_string())
    }
}

impl From<ExistError<Resource>> for ErrorCode {
    fn from(err: ExistError<Resource>) -> ErrorCode {
        ErrorCode::network_policy_already_exists(err)
    }
}

impl vstd::std_specs::convert::FromSpecImpl<ExistError<Resource>> for ErrorCode {
    open spec fn obeys_from_spec() -> bool {
        false
    }

    open spec fn from_spec(err: ExistError<Resource>) -> ErrorCode {
        arbitrary()
    }
}

impl From<UnknownError<Resource>> for ErrorCode {
    fn from(err: UnknownError<Resource>) -> ErrorCode {
        ErrorCode::unknown_network_policy(err)
    }
}

impl vstd::std_specs::convert::FromSpecImpl<UnknownError<Resource>> for ErrorCode {
    open spec fn obeys_from_spec() -> bool {
        false
    }

    open spec fn from_spec(err: UnknownError<Resource>) -> ErrorCode {
        arbitrary()
    }
}

} // verus!

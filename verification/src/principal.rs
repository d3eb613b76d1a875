//! Users' objects kept in the meta-service.
pub mod network_policy_ident;
pub mod password_policy_ident;

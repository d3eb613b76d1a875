//! Verified core logic of the Bigbytesdb query and meta services.
use vstd::prelude::*;

pub mod text;
pub mod error;
pub mod kvapi;
pub mod principal;
pub mod meta_errors;
pub mod schema;
pub mod show_grants;
pub mod hilbert_lut;
pub mod raft_store;
pub mod system_database;
pub mod set_statement;
pub mod ai_to_sql;
pub mod script;
pub mod interpreters;
pub mod tsv;
pub mod null_if;
pub mod aggregate;
pub mod attach_table;
pub mod enterprise;
pub mod transforms;
pub mod account_grants;

pub use error::{ErrorCode, NodeErrorType};
pub use kvapi::{Tenant, TIdent, KeyError};
pub use principal::network_policy_ident::NetworkPolicyIdent;
pub use principal::password_policy_ident::PasswordPolicyIdent;

verus! {

} // verus!

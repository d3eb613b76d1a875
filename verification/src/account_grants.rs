//! The order in which the grants of a user or role are gathered: which
//! lookup comes next, when access is checked, and when the grants are
//! collected.
use vstd::prelude::*;
use crate::error::ErrorCode;
use crate::show_grants::{
    check_role_grants_access, check_user_grants_access, grant_denied_message, parse_account_kind,
    role_identity, role_roles, user_roles, AccountKind,
};
use crate::text::{contains_str, debug_text, is_sorted_permutation, views};

verus! {

/// Where the gathering of an account's grants stands.
#[derive(Debug, PartialEq, Eq, Structural, Clone, Copy)]
pub enum AccountPhase {
    /// Waiting for the user record.
    AwaitUser,
    /// Waiting for the effective roles of the current user.
    AwaitEffectiveRoles,
    /// Waiting for the roles related to the role's own grants.
    AwaitRole,
    /// Waiting for the roles related to the account's grant set.
    AwaitRelatedRoles,
    /// Waiting for the list of ownerships.
    AwaitOwnerships,
    /// Everything is known: the grants can be collected.
    Collecting,
    /// The query failed.
    Failed,
}

/// What the gathering asks for next.
#[derive(Debug, PartialEq, Eq)]
pub enum AccountAction {
    /// Look up the user `name` (on any host).
    GetUser { name: String },
    /// List the effective roles of the current user.
    GetEffectiveRoles,
    /// Look up the role `name` and the roles related to its grants.
    GetRole { name: String },
    /// Find the roles related to the roles of the account's grant set.
    FindRelatedRoles,
    /// List the ownerships of the tenant.
    GetOwnerships,
    /// Collect the grants.
    Collect,
    /// Stop with this error.
    Fail(ErrorCode),
}

/// The gathering of the grants of a user or role, as the current user asks
/// for them.
#[derive(Debug)]
pub struct AccountGrantsQuery {
    pub phase: AccountPhase,
    /// The user or role asked about.
    pub name: String,
    /// The current user's name and displayed identity.
    pub current_username: String,
    pub current_display: String,
    /// The roles granted to the current user.
    pub current_roles: Vec<String>,
    /// Whether the current user holds the `Grant` privilege on `*.*`.
    pub has_grant_priv: bool,
    /// How the rows are shown: `USER` or `ROLE`, the account's name, and
    /// its identity in the grant texts.
    pub grant_to: String,
    pub grantee_name: String,
    pub identity: String,
    /// The roles whose ownerships are shown; for a role, fixed when the
    /// role is looked up.
    pub roles: Option<Vec<String>>,
}

impl AccountGrantsQuery {
    /// Starts gathering the grants of `name`, a `user` or a `role` as
    /// `grant_type` says: a user is looked up first, for a role the
    /// current user's effective roles are listed first; any other kind
    /// fails.
    pub fn start(
        grant_type: &str,
        name: &str,
        current_username: &str,
        current_display: &str,
        current_roles: Vec<String>,
        has_grant_priv: bool,
    ) -> (r: (AccountGrantsQuery, AccountAction))
        ensures
            r.0.name@ == name@,
            r.0.current_username@ == current_username@,
            r.0.current_display@ == current_display@,
            r.0.current_roles == current_roles,
            r.0.has_grant_priv == has_grant_priv,
            r.0.roles is None,
            grant_type@ == "user"@ ==> r.0.phase == AccountPhase::AwaitUser,
            grant_type@ == "user"@ ==> (r.1 matches AccountAction::GetUser { name: n } && n@ == name@),
            grant_type@ == "role"@ ==> r.0.phase == AccountPhase::AwaitEffectiveRoles && r.1 == AccountAction::GetEffectiveRoles,
            grant_type@ != "user"@ && grant_type@ != "role"@ ==> r.0.phase == AccountPhase::Failed,
            grant_type@ != "user"@ && grant_type@ != "role"@ ==> (r.1 matches AccountAction::Fail(ErrorCode::InvalidArgument(m)) && m@ == "Expected 'user|role', but got "@ + debug_text(grant_type@)),
    {
        let (phase, action) = match parse_account_kind(grant_type) {
            Ok(AccountKind::User) => (
                AccountPhase::AwaitUser,
                AccountAction::GetUser { name: name.to_owned() },
            ),
            Ok(AccountKind::Role) => (AccountPhase::AwaitEffectiveRoles, AccountAction::GetEffectiveRoles),
            Err(e) => (AccountPhase::Failed, AccountAction::Fail(e)),
        };
        let query = AccountGrantsQuery {
            phase,
            name: name.to_owned(),
            current_username: current_username.to_owned(),
            current_display: current_display.to_owned(),
            current_roles,
            has_grant_priv,
            grant_to: String::new(),
            grantee_name: String::new(),
            identity: String::new(),
            roles: None,
        };
        (query, action)
    }

    /// The user record was found, with its stored name and displayed
    /// identity: the current user must be that user or hold `Grant`; then
    /// the roles related to the user's grants are looked for.
    pub fn on_user(&mut self, user_name: &str, user_display: &str) -> (a: AccountAction)
        requires
            old(self).phase == AccountPhase::AwaitUser,
        ensures
            (old(self).current_username@ == old(self).name@ || old(self).has_grant_priv) ==> {
                &&& a == AccountAction::FindRelatedRoles
                &&& final(self).phase == AccountPhase::AwaitRelatedRoles
                &&& final(self).grant_to@ == "USER"@
                &&& final(self).grantee_name@ == user_name@
                &&& final(self).identity@ == user_display@
                &&& final(self).roles is None
            },
            !(old(self).current_username@ == old(self).name@ || old(self).has_grant_priv) ==> {
                &&& final(self).phase == AccountPhase::Failed
                &&& a matches AccountAction::Fail(ErrorCode::PermissionDenied(m)) && exists|
                    sorted: Seq<Seq<char>>,
                | #[trigger] is_sorted_permutation(sorted, views(old(self).current_roles@)) && m@
                    == grant_denied_message(old(self).current_display@, sorted)
            },
            final(self).name == old(self).name,
    {
        let mut roles: Vec<String> = Vec::new();
        std::mem::swap(&mut roles, &mut self.current_roles);
        match check_user_grants_access(
            self.current_username.as_str(),
            self.current_display.as_str(),
            roles,
            self.name.as_str(),
            self.has_grant_priv,
        ) {
            Err(e) => {
                self.phase = AccountPhase::Failed;
                AccountAction::Fail(e)
            },
            Ok(()) => {
                self.grant_to = "USER".to_owned();
                self.grantee_name = user_name.to_owned();
                self.identity = user_display.to_owned();
                self.roles = None;
                self.phase = AccountPhase::AwaitRelatedRoles;
                AccountAction::FindRelatedRoles
            },
        }
    }

    /// The current user's effective roles are known: they must include the
    /// role, or the current user must hold `Grant`; then the role is looked
    /// up.
    pub fn on_effective_roles(&mut self, effective_roles: &Vec<String>) -> (a: AccountAction)
        requires
            old(self).phase == AccountPhase::AwaitEffectiveRoles,
        ensures
            (views(effective_roles@).contains(old(self).name@) || old(self).has_grant_priv) ==> {
                &&& final(self).phase == AccountPhase::AwaitRole
                &&& a matches AccountAction::GetRole { name: n } && n@ == old(self).name@
            },
            !(views(effective_roles@).contains(old(self).name@) || old(self).has_grant_priv) ==> {
                &&& final(self).phase == AccountPhase::Failed
                &&& a matches AccountAction::Fail(ErrorCode::PermissionDenied(m)) && exists|
                    sorted: Seq<Seq<char>>,
                | #[trigger] is_sorted_permutation(sorted, views(old(self).current_roles@)) && m@
                    == grant_denied_message(old(self).current_display@, sorted)
            },
            final(self).name == old(self).name,
    {
        let mut roles: Vec<String> = Vec::new();
        std::mem::swap(&mut roles, &mut self.current_roles);
        match check_role_grants_access(
            effective_roles,
            self.current_display.as_str(),
            roles,
            self.name.as_str(),
            self.has_grant_priv,
        ) {
            Err(e) => {
                self.phase = AccountPhase::Failed;
                AccountAction::Fail(e)
            },
            Ok(()) => {
                self.phase = AccountPhase::AwaitRole;
                AccountAction::GetRole { name: self.name.clone() }
            },
        }
    }

    /// The role was found, with the roles related to its grants: its
    /// ownerships are those of the related roles and of itself; then the
    /// roles related to its grant set are looked for.
    pub fn on_role(&mut self, related_role_names: Vec<String>) -> (a: AccountAction)
        requires
            old(self).phase == AccountPhase::AwaitRole,
        ensures
            a == AccountAction::FindRelatedRoles,
            final(self).phase == AccountPhase::AwaitRelatedRoles,
            final(self).grant_to@ == "ROLE"@,
            final(self).grantee_name@ == old(self).name@,
            final(self).identity@ == "ROLE `"@ + old(self).name@ + "`"@,
            final(self).roles matches Some(r) && views(r@) == views(related_role_names@).push(
                old(self).name@,
            ),
            final(self).name == old(self).name,
    {
        let roles = role_roles(related_role_names, self.name.as_str());
        self.grant_to = "ROLE".to_owned();
        self.grantee_name = self.name.clone();
        self.identity = role_identity(self.name.as_str());
        self.roles = Some(roles);
        self.phase = AccountPhase::AwaitRelatedRoles;
        AccountAction::FindRelatedRoles
    }

    /// The roles related to the account's grant set are known: for a user
    /// they are the roles whose ownerships are shown, in ascending order.
    /// Ownerships are listed next, unless those roles include
    /// `account_admin`, which holds everything; then the grants are
    /// collected.
    pub fn on_related_roles(&mut self, related_role_names: Vec<String>) -> (a: AccountAction)
        requires
            old(self).phase == AccountPhase::AwaitRelatedRoles,
        ensures
            final(self).roles is Some,
            old(self).roles matches Some(r) ==> final(self).roles == Some(r),
            old(self).roles is None ==> (final(self).roles matches Some(r) && is_sorted_permutation(
                views(r@),
                views(related_role_names@),
            )),
            final(self).roles matches Some(r) && ((views(r@).contains("account_admin"@) ==> (a
                == AccountAction::Collect && final(self).phase == AccountPhase::Collecting)) && (
            !views(r@).contains("account_admin"@) ==> (a == AccountAction::GetOwnerships
                && final(self).phase == AccountPhase::AwaitOwnerships))),
            final(self).identity == old(self).identity,
            final(self).grant_to == old(self).grant_to,
            final(self).grantee_name == old(self).grantee_name,
    {
        let roles = match self.roles.take() {
            Some(r) => r,
            None => user_roles(related_role_names),
        };
        let admin = contains_str(&roles, "account_admin");
        self.roles = Some(roles);
        if admin {
            self.phase = AccountPhase::Collecting;
            AccountAction::Collect
        } else {
            self.phase = AccountPhase::AwaitOwnerships;
            AccountAction::GetOwnerships
        }
    }

    /// The ownerships were listed: the grants are collected.
    pub fn on_ownerships(&mut self) -> (a: AccountAction)
        requires
            old(self).phase == AccountPhase::AwaitOwnerships,
        ensures
            a == AccountAction::Collect,
            final(self).phase == AccountPhase::Collecting,
            final(self).roles == old(self).roles,
            final(self).identity == old(self).identity,
            final(self).grant_to == old(self).grant_to,
            final(self).grantee_name == old(self).grantee_name,
    {
        self.phase = AccountPhase::Collecting;
        AccountAction::Collect
    }
}

} // verus!

//! Errors reported to SQL users, each with its message.
use vstd::prelude::*;

verus! {

/// An error of the query or meta service: its kind and its message.
#[derive(Debug, PartialEq, Eq)]
pub enum ErrorCode {
    Internal(String),
    BadArguments(String),
    BadDataValueType(String),
    NumberArgumentsNotMatch(String),
    InvalidArgument(String),
    InvalidTimezone(String),
    PermissionDenied(String),
    UnknownSession(String),
    UnknownNetworkPolicy(String),
    NetworkPolicyAlreadyExists(String),
    UnknownPasswordPolicy(String),
    PasswordPolicyAlreadyExists(String),
    ProcedureAlreadyExists(String),
    UnknownDatamask(String),
    CloudControlNotEnabled(String),
}

impl ErrorCode {
    /// The message of the error.
    pub open spec fn message_view(&self) -> Seq<char> {
        match self {
            ErrorCode::Internal(m) => m@,
            ErrorCode::BadArguments(m) => m@,
            ErrorCode::BadDataValueType(m) => m@,
            ErrorCode::NumberArgumentsNotMatch(m) => m@,
            ErrorCode::InvalidArgument(m) => m@,
            ErrorCode::InvalidTimezone(m) => m@,
            ErrorCode::PermissionDenied(m) => m@,
            ErrorCode::UnknownSession(m) => m@,
            ErrorCode::UnknownNetworkPolicy(m) => m@,
            ErrorCode::NetworkPolicyAlreadyExists(m) => m@,
            ErrorCode::UnknownPasswordPolicy(m) => m@,
            ErrorCode::PasswordPolicyAlreadyExists(m) => m@,
            ErrorCode::ProcedureAlreadyExists(m) => m@,
            ErrorCode::UnknownDatamask(m) => m@,
            ErrorCode::CloudControlNotEnabled(m) => m@,
        }
    }

    /// The message of the error.
    pub fn message(&self) -> (m: &str)
        ensures
            m@ == self.message_view(),
    {
        match self {
            ErrorCode::Internal(m) => m.as_str(),
            ErrorCode::BadArguments(m) => m.as_str(),
            ErrorCode::BadDataValueType(m) => m.as_str(),
            ErrorCode::NumberArgumentsNotMatch(m) => m.as_str(),
            ErrorCode::InvalidArgument(m) => m.as_str(),
            ErrorCode::InvalidTimezone(m) => m.as_str(),
            ErrorCode::PermissionDenied(m) => m.as_str(),
            ErrorCode::UnknownSession(m) => m.as_str(),
            ErrorCode::UnknownNetworkPolicy(m) => m.as_str(),
            ErrorCode::NetworkPolicyAlreadyExists(m) => m.as_str(),
            ErrorCode::UnknownPasswordPolicy(m) => m.as_str(),
            ErrorCode::PasswordPolicyAlreadyExists(m) => m.as_str(),
            ErrorCode::ProcedureAlreadyExists(m) => m.as_str(),
            ErrorCode::UnknownDatamask(m) => m.as_str(),
            ErrorCode::CloudControlNotEnabled(m) => m.as_str(),
        }
    }

    /// A copy of the error.
    pub fn duplicate(&self) -> (r: ErrorCode)
        ensures
            r == *self,
    {
        match self {
            ErrorCode::Internal(m) => ErrorCode::Internal(m.clone()),
            ErrorCode::BadArguments(m) => ErrorCode::BadArguments(m.clone()),
            ErrorCode::BadDataValueType(m) => ErrorCode::BadDataValueType(m.clone()),
            ErrorCode::NumberArgumentsNotMatch(m) => ErrorCode::NumberArgumentsNotMatch(m.clone()),
            ErrorCode::InvalidArgument(m) => ErrorCode::InvalidArgument(m.clone()),
            ErrorCode::InvalidTimezone(m) => ErrorCode::InvalidTimezone(m.clone()),
            ErrorCode::PermissionDenied(m) => ErrorCode::PermissionDenied(m.clone()),
            ErrorCode::UnknownSession(m) => ErrorCode::UnknownSession(m.clone()),
            ErrorCode::UnknownNetworkPolicy(m) => ErrorCode::UnknownNetworkPolicy(m.clone()),
            ErrorCode::NetworkPolicyAlreadyExists(m) => ErrorCode::NetworkPolicyAlreadyExists(
                m.clone(),
            ),
            ErrorCode::UnknownPasswordPolicy(m) => ErrorCode::UnknownPasswordPolicy(m.clone()),
            ErrorCode::PasswordPolicyAlreadyExists(m) => ErrorCode::PasswordPolicyAlreadyExists(
                m.clone(),
            ),
            ErrorCode::ProcedureAlreadyExists(m) => ErrorCode::ProcedureAlreadyExists(m.clone()),
            ErrorCode::UnknownDatamask(m) => ErrorCode::UnknownDatamask(m.clone()),
            ErrorCode::CloudControlNotEnabled(m) => ErrorCode::CloudControlNotEnabled(m.clone()),
        }
    }
}

/// Where an error stopped a pipeline node.
pub enum NodeErrorType {
    ScheduleEventError(ErrorCode),
    SyncProcessError(ErrorCode),
    AsyncProcessError(ErrorCode),
    LocalError(ErrorCode),
}

impl NodeErrorType {
    pub open spec fn error_view(&self) -> ErrorCode {
        match self {
            NodeErrorType::ScheduleEventError(e) => *e,
            NodeErrorType::SyncProcessError(e) => *e,
            NodeErrorType::AsyncProcessError(e) => *e,
            NodeErrorType::LocalError(e) => *e,
        }
    }

    /// The error, whichever stage raised it.
    pub fn get_error_code(&self) -> (e: ErrorCode)
        ensures
            e == self.error_view(),
    {
        match self {
            NodeErrorType::ScheduleEventError(error) => error,
            NodeErrorType::SyncProcessError(error) => error,
            NodeErrorType::AsyncProcessError(error) => error,
            NodeErrorType::LocalError(error) => error,
        }.duplicate()
    }
}

} // verus!

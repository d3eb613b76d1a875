//! Errors of meta-service requests, and how an error of a forwarded request
//! is reported to the caller.
use vstd::prelude::*;

verus! {

/// Errors of the network between meta-service nodes.
#[derive(Debug, PartialEq, Eq)]
pub enum MetaNetworkError {
    ConnectionError(String),
    GetNodeAddrError(String),
    DnsParseError(String),
    TLSConfigError(String),
    BadAddressFormat(String),
    InvalidArgument(String),
}

/// A failed read of meta data: what was being done, what went wrong, and
/// the cause.
#[derive(Debug, PartialEq, Eq)]
pub struct MetaDataReadError {
    pub action: String,
    pub msg: String,
    pub source: String,
}

/// Errors of reading or writing meta data.
#[derive(Debug, PartialEq, Eq)]
pub enum MetaDataError {
    WriteError(String),
    ReadError(MetaDataReadError),
}

/// Errors of a meta-service API call.
#[derive(Debug, PartialEq, Eq)]
pub enum MetaAPIError {
    /// The request must be sent to the leader.
    ForwardToLeader { leader_id: Option<u64> },
    /// The request could not be forwarded.
    CanNotForward(String),
    /// The network failed.
    NetworkError(MetaNetworkError),
    /// The data of this node is wrong.
    DataError(MetaDataError),
    /// The data of a remote node is wrong.
    RemoteError(MetaDataError),
}

/// Errors raised when invoking an RPC.
///
/// It includes two sub errors:
/// - Error that occurs when sending the RPC.
/// - Error that is returned by remove service.
#[derive(Debug, PartialEq, Eq)]
pub enum ForwardRPCError {
    NetworkError(MetaNetworkError),
    RemoteError(MetaAPIError),
}

/// The API error that a failed forwarded request stands for: a network error
/// stays a network error, a data error of the remote node becomes a remote
/// error, and every other remote error is reported as it is.
pub open spec fn forward_error_to_api(e: ForwardRPCError) -> MetaAPIError {
    match e {
        ForwardRPCError::NetworkError(n) => MetaAPIError::NetworkError(n),
        ForwardRPCError::RemoteError(r) => match r {
            MetaAPIError::DataError(d) => MetaAPIError::RemoteError(d),
            other => other,
        },
    }
}

impl From<MetaNetworkError> for MetaAPIError {
    fn from(e: MetaNetworkError) -> (r: MetaAPIError)
        ensures
            r == MetaAPIError::NetworkError(e),
    {
        MetaAPIError::NetworkError(e)
    }
}

impl vstd::std_specs::convert::FromSpecImpl<MetaNetworkError> for MetaAPIError {
    open spec fn obeys_from_spec() -> bool {
        true
    }

    open spec fn from_spec(e: MetaNetworkError) -> MetaAPIError {
        MetaAPIError::NetworkError(e)
    }
}

impl From<MetaNetworkError> for ForwardRPCError {
    fn from(e: MetaNetworkError) -> (r: ForwardRPCError)
        ensures
            r == ForwardRPCError::NetworkError(e),
    {
        ForwardRPCError::NetworkError(e)
    }
}

impl vstd::std_specs::convert::FromSpecImpl<MetaNetworkError> for ForwardRPCError {
    open spec fn obeys_from_spec() -> bool {
        true
    }

    open spec fn from_spec(e: MetaNetworkError) -> ForwardRPCError {
        ForwardRPCError::NetworkError(e)
    }
}

impl From<MetaAPIError> for ForwardRPCError {
    fn from(e: MetaAPIError) -> (r: ForwardRPCError)
        ensures
            r == ForwardRPCError::RemoteError(e),
    {
        ForwardRPCError::RemoteError(e)
    }
}

impl vstd::std_specs::convert::FromSpecImpl<MetaAPIError> for ForwardRPCError {
    open spec fn obeys_from_spec() -> bool {
        true
    }

    open spec fn from_spec(e: MetaAPIError) -> ForwardRPCError {
        ForwardRPCError::RemoteError(e)
    }
}

impl From<ForwardRPCError> for MetaAPIError {
    fn from(e: ForwardRPCError) -> (r: MetaAPIError)
        ensures
            r == forward_error_to_api(e),
    {
        match e {
            ForwardRPCError::NetworkError(e) => MetaAPIError::from(e),
            ForwardRPCError::RemoteError(e) => {
                match e {
                    MetaAPIError::DataError(e) => MetaAPIError::RemoteError(e),
                    _ => e,
                }
            },
        }
    }
}

impl vstd::std_specs::convert::FromSpecImpl<ForwardRPCError> for MetaAPIError {
    open spec fn obeys_from_spec() -> bool {
        true
    }

    open spec fn from_spec(e: ForwardRPCError) -> MetaAPIError {
        forward_error_to_api(e)
    }
}

/// A forwarded request never reports a data error of the caller's own
/// node: whatever failed, the API error is not a `DataError`.
pub proof fn lemma_forwarded_error_is_never_local_data_error(e: ForwardRPCError)
    ensures
        !(forward_error_to_api(e) is DataError),
{
}

/// Reporting is the identity on API errors that are not data errors, and
/// turns a data error into a remote error with the same content.
pub proof fn lemma_forward_remote_error(e: MetaAPIError)
    ensures
        match e {
            MetaAPIError::DataError(d) => forward_error_to_api(ForwardRPCError::RemoteError(e))
                == MetaAPIError::RemoteError(d),
            _ => forward_error_to_api(ForwardRPCError::RemoteError(e)) == e,
        },
{
}

/// Reporting twice is reporting once: an API error that came from a
/// forwarded request is reported unchanged when forwarded again.
pub proof fn lemma_forward_error_idempotent(e: ForwardRPCError)
    ensures
        forward_error_to_api(ForwardRPCError::RemoteError(forward_error_to_api(e)))
            == forward_error_to_api(e),
{
}

/// The error for a meta-data record that was looked up and not found,
/// raised by `action` (`get_kv_data`, `get_kv_u64_data`).
pub fn not_found_error(action: &str) -> (e: MetaAPIError)
    ensures
        e matches MetaAPIError::DataError(MetaDataError::ReadError(r)) && r.action@ == action@
            && r.msg@ == "not found"@ && r.source@.len() == 0,
{
    MetaAPIError::DataError(
        MetaDataError::ReadError(
            MetaDataReadError {
                action: action.to_owned(),
                msg: "not found".to_owned(),
                source: String::new(),
            },
        ),
    )
}

/// The value of a meta-data record that was looked up by `action`; the
/// record must exist (reading one that is absent is a caller's error).
pub fn kv_data_or_not_found(res: Option<Vec<u8>>, action: &str) -> (r: Result<
    Vec<u8>,
    MetaAPIError,
>)
    requires
        res is Some,
    ensures
        r == Ok::<Vec<u8>, MetaAPIError>(res.unwrap()),
{
    match res {
        Some(v) => Ok(v),
        None => Err(not_found_error(action)),
    }
}

} // verus!

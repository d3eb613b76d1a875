//! Handlers of enterprise features: aggregating indexes, inverted indexes
//! and data masks.
use vstd::prelude::*;
use crate::error::ErrorCode;
use crate::kvapi::{TenantResource, UnknownError};

verus! {

/// The handler of aggregating indexes; each of its operations is one call
/// of the meta service.
#[derive(Debug)]
pub struct RealAggregatingIndexHandler {}

/// The handler of inverted indexes; each of its operations is one call of
/// the meta service.
#[derive(Debug)]
pub struct RealInvertedIndexHandler {}

/// The handler of data masks.
#[derive(Debug)]
pub struct RealDatamaskHandler {}

impl RealDatamaskHandler {
    /// The outcome of dropping a data mask, given whether one was dropped: a
    /// missing mask is an error unless `IF EXISTS` was given.
    pub fn drop_data_mask_outcome<R: TenantResource>(
        dropped: bool,
        if_exists: bool,
        missing: UnknownError<R>,
    ) -> (r: Result<(), ErrorCode>)
        ensures
            !dropped && !if_exists ==> (r matches Err(ErrorCode::UnknownDatamask(m)) && m@
                == missing.message_view()),
            dropped || if_exists ==> r is Ok,
    {
        if !dropped && !if_exists {
            Err(ErrorCode::UnknownDatamask(missing.to_string()))
        } else {
            Ok(())
        }
    }

    /// The data mask found by a lookup, or an error naming the missing mask.
    pub fn get_data_mask_outcome<T, R: TenantResource>(found: Option<T>, missing: UnknownError<R>) -> (r:
        Result<T, ErrorCode>)
        ensures
            match found {
                Some(v) => r == Ok::<T, ErrorCode>(v),
                None => r matches Err(ErrorCode::UnknownDatamask(m)) && m@ == missing.message_view(),
            },
    {
        match found {
            Some(v) => Ok(v),
            None => Err(ErrorCode::UnknownDatamask(missing.to_string())),
        }
    }
}

} // verus!

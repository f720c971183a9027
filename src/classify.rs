//! Which failures of an object-store request are worth another attempt.

use crate::retry::MaybeRetryable;
use aws_sdk_s3::primitives::SdkBody;
use aws_smithy_runtime_api::client::result::SdkError;
use aws_smithy_runtime_api::http::Response;
use vstd::prelude::*;

verus! {

#[verifier::external_type_specification]
#[verifier::external_body]
#[verifier::reject_recursive_types(E)]
#[verifier::reject_recursive_types(R)]
pub struct ExSdkError<E, R>(SdkError<E, R>);

#[verifier::external_type_specification]
#[verifier::external_body]
#[verifier::reject_recursive_types(B)]
pub struct ExResponse<B>(Response<B>);

#[verifier::external_type_specification]
#[verifier::external_body]
pub struct ExSdkBody(SdkBody);

/// The kinds of failure of a request to the object store.
#[derive(Clone, Copy, Debug, PartialEq, Eq, Structural)]
pub enum StoreErrorKind {
    /// The request could not be built; it was not sent.
    ConstructionFailure,
    /// The request timed out.
    Timeout,
    /// The request could not be dispatched; no response came.
    DispatchFailure,
    /// A response came that could not be read by the protocol.
    ResponseError,
    /// The service answered with an error and this HTTP status.
    ServiceError { status: u16 },
    /// Any other failure.
    Other,
}

/// A failure caused by the transport or by the service side (an HTTP status
/// of 500 to 599), which another attempt may not meet.
pub open spec fn is_retryable(kind: StoreErrorKind) -> bool {
    match kind {
        StoreErrorKind::Timeout | StoreErrorKind::DispatchFailure
        | StoreErrorKind::ResponseError => true,
        StoreErrorKind::ServiceError { status } => 500 <= status < 600,
        _ => false,
    }
}

/// Whether a failure of this kind is worth another attempt.
pub fn classify(kind: StoreErrorKind) -> (r: bool)
    ensures
        r == is_retryable(kind),
{
    match kind {
        StoreErrorKind::Timeout | StoreErrorKind::DispatchFailure
        | StoreErrorKind::ResponseError => true,
        StoreErrorKind::ServiceError { status } => 500 <= status && status < 600,
        StoreErrorKind::ConstructionFailure | StoreErrorKind::Other => false,
    }
}

/// Relies on SdkError's variants and on Response::status and
/// StatusCode::as_u16: the kind of the failure and, for an error answered by
/// the service, the HTTP status of its raw response.
#[verifier::external_body]
fn sdk_error_kind<E>(e: &SdkError<E, Response>) -> (r: StoreErrorKind) {
    match e {
        SdkError::ConstructionFailure(_) => StoreErrorKind::ConstructionFailure,
        SdkError::TimeoutError(_) => StoreErrorKind::Timeout,
        SdkError::DispatchFailure(_) => StoreErrorKind::DispatchFailure,
        SdkError::ResponseError(_) => StoreErrorKind::ResponseError,
        SdkError::ServiceError(s) => StoreErrorKind::ServiceError { status: s.raw().status().as_u16() },
        _ => StoreErrorKind::Other,
    }
}

/// Wraps `e` as retryable when a failure of its `kind` is worth another
/// attempt, and as not retryable otherwise; the error itself is unchanged.
pub fn sort_by_kind<E>(e: SdkError<E, Response>, kind: StoreErrorKind) -> (r: MaybeRetryable<
    SdkError<E, Response>,
    SdkError<E, Response>,
>)
    ensures
        r == if is_retryable(kind) {
            MaybeRetryable::<SdkError<E, Response>, SdkError<E, Response>>::Retryable(e)
        } else {
            MaybeRetryable::<SdkError<E, Response>, SdkError<E, Response>>::NotRetryable(e)
        },
{
    if classify(kind) {
        MaybeRetryable::Retryable(e)
    } else {
        MaybeRetryable::NotRetryable(e)
    }
}

/// Sorts an error into one worth another attempt or not.
pub trait IntoMaybeRetryable<E>: Sized {
    /// The error that the result carries.
    spec fn as_error(self) -> E;

    /// Exactly one of `Retryable` and `NotRetryable`, holding the error
    /// unchanged.
    fn into_maybe_retryable(self) -> (r: MaybeRetryable<E, E>)
        ensures
            r == MaybeRetryable::<E, E>::Retryable(self.as_error()) || r
                == MaybeRetryable::<E, E>::NotRetryable(self.as_error()),
    ;
}

impl<E> IntoMaybeRetryable<SdkError<E, Response>> for SdkError<E, Response> {
    open spec fn as_error(self) -> SdkError<E, Response> {
        self
    }

    /// Retryable exactly when the error's kind is: see `sort_by_kind`.
    fn into_maybe_retryable(self) -> (r: MaybeRetryable<SdkError<E, Response>, SdkError<E, Response>>) {
        let kind = sdk_error_kind(&self);
        sort_by_kind(self, kind)
    }
}

} // verus!

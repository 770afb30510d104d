//! What the sink concludes from the outcome of a gRPC call.

use vstd::prelude::*;

use crate::uri::Uri;

verus! {

/// The status codes of gRPC.
#[derive(Clone, Copy, Debug, PartialEq, Eq, Structural)]
pub enum Code {
    /// The call succeeded; gRPC calls this code `OK`.
    Success,
    Cancelled,
    Unknown,
    InvalidArgument,
    DeadlineExceeded,
    NotFound,
    AlreadyExists,
    PermissionDenied,
    ResourceExhausted,
    FailedPrecondition,
    Aborted,
    OutOfRange,
    Unimplemented,
    Internal,
    Unavailable,
    DataLoss,
    Unauthenticated,
}

/// A refusal of a call: its code, and a text for the caller.
#[derive(Debug)]
pub struct Status {
    pub code: Code,
    pub message: String,
}

/// Why the downstream instance did not do what it was asked to.
///
/// A failed call keeps the status of the transport, of type `S`, beside the code
/// that the status carries.
#[derive(Debug)]
pub enum VectorSinkError<S> {
    /// The call failed.
    Request { code: Code, source: S },
    /// The call succeeded, and the instance reports that it does not serve: with the
    /// name of the state that it reports, if that state is known.
    Health { status: Option<String> },
}

/// The codes that a repeated call would meet again.
///
/// They follow the
/// [guide to the status codes of gRPC](https://github.com/grpc/grpc/blob/ed1b20777c69bd47e730a63271eafc1b299f6ca0/doc/statuscodes.md).
pub open spec fn is_permanent(code: Code) -> bool {
    ||| code is NotFound
    ||| code is InvalidArgument
    ||| code is AlreadyExists
    ||| code is PermissionDenied
    ||| code is OutOfRange
    ||| code is Unimplemented
    ||| code is Unauthenticated
    ||| code is DataLoss
}

/// An error is worth a retry, unless it is a failed call with a permanent code.
pub open spec fn is_retriable<S>(error: VectorSinkError<S>) -> bool {
    match error {
        VectorSinkError::Request { code, .. } => !is_permanent(code),
        VectorSinkError::Health { .. } => true,
    }
}

/// Decides which errors of the downstream instance are worth a retry.
#[derive(Clone, Copy, Debug)]
pub struct VectorGrpcRetryLogic;

impl VectorGrpcRetryLogic {
    /// Is the error worth a retry?
    pub fn is_retriable_error<S>(&self, err: &VectorSinkError<S>) -> (retriable: bool)
        ensures
            retriable == is_retriable(*err),
    {
        match err {
            VectorSinkError::Request { code, .. } => !matches!(
                code,
                Code::NotFound
                    | Code::InvalidArgument
                    | Code::AlreadyExists
                    | Code::PermissionDenied
                    | Code::OutOfRange
                    | Code::Unimplemented
                    | Code::Unauthenticated
                    | Code::DataLoss
            ),
            VectorSinkError::Health { .. } => true,
        }
    }
}

/// The state that an instance reports of itself.
#[derive(Debug)]
pub enum ServingStatus {
    /// It accepts events.
    Serving,
    /// It does not, for the reason that the protocol gives this name.
    Other(String),
}

/// How the downstream instance is checked before the sink starts.
#[derive(Debug)]
pub struct SinkHealthcheckOptions {
    /// Whether it is checked at all.
    pub enabled: bool,
    /// The URI to check, where it is not the one that the events go to.
    pub uri: Option<Uri>,
}

impl Clone for SinkHealthcheckOptions {
    fn clone(&self) -> (copy: SinkHealthcheckOptions)
        ensures
            copy == *self,
    {
        SinkHealthcheckOptions { enabled: self.enabled, uri: self.uri.clone() }
    }
}

/// What a health check has learnt.
pub enum HealthEvent<S> {
    /// Nothing yet.
    Start,
    /// The instance reports a state, which the protocol may not know.
    Reported(Option<ServingStatus>),
    /// The call failed.
    Failed { code: Code, source: S },
}

/// What a health check does next.
pub enum HealthAction<S> {
    /// Ask the instance for its state.
    Ask,
    /// The check is over.
    Done(Result<(), VectorSinkError<S>>),
}

/// What a health check concludes from what it has learnt.
pub open spec fn health_step<S>(enabled: bool, event: HealthEvent<S>) -> HealthAction<S> {
    if !enabled {
        HealthAction::Done(Ok(()))
    } else {
        match event {
            HealthEvent::Start => HealthAction::Ask,
            HealthEvent::Reported(Some(ServingStatus::Serving)) => HealthAction::Done(Ok(())),
            HealthEvent::Reported(Some(ServingStatus::Other(name))) => HealthAction::Done(
                Err(VectorSinkError::Health { status: Some(name) }),
            ),
            HealthEvent::Reported(None) => HealthAction::Done(
                Err(VectorSinkError::Health { status: None }),
            ),
            HealthEvent::Failed { code, source } => HealthAction::Done(
                Err(VectorSinkError::Request { code, source }),
            ),
        }
    }
}

/// Checks whether the downstream instance accepts events.
///
/// A check that is off succeeds at once. Any other asks the instance, and succeeds
/// only if the instance reports that it serves.
pub fn healthcheck<S>(options: &SinkHealthcheckOptions, event: HealthEvent<S>) -> (action:
    HealthAction<S>)
    ensures
        action == health_step(options.enabled, event),
{
    if !options.enabled {
        return HealthAction::Done(Ok(()));
    }
    match event {
        HealthEvent::Start => HealthAction::Ask,
        HealthEvent::Reported(status) => match status {
            Some(ServingStatus::Serving) => HealthAction::Done(Ok(())),
            Some(ServingStatus::Other(name)) => HealthAction::Done(
                Err(VectorSinkError::Health { status: Some(name) }),
            ),
            None => HealthAction::Done(Err(VectorSinkError::Health { status: None })),
        },
        HealthEvent::Failed { code, source } => HealthAction::Done(
            Err(VectorSinkError::Request { code, source }),
        ),
    }
}

} // verus!

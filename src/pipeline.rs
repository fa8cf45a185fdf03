//! The decisions of the request/response pipeline, as a state machine.
//!
//! The caller sends the request, reads the body and runs the decoders; the
//! machine decides, from the status and from what each decoding gave, which
//! decoding comes next and what the call finally returns. The success type
//! `T` is always tried before the error envelope on a 2xx status, and only the
//! envelope is tried on any other status.
use vstd::prelude::*;
use crate::error::ApiError;

verus! {

/// What a pipeline run returns when it does not return the success value.
#[derive(Debug)]
pub enum PipelineError<D> {
    /// The API reported a failure: a decoded envelope, or the status alone.
    Api(ApiError),
    /// The body of a 2xx response was neither the success type nor an error
    /// envelope: the error from decoding it as the success type.
    Decode(D),
}

/// Where one request stands. `T` is the success type, `D` the error of
/// decoding a body as `T`.
#[derive(Debug)]
pub enum Exchange<T, D> {
    /// The request went out; its status is not known yet.
    AwaitingStatus,
    /// The status was 2xx: the body is to be decoded as `T`.
    DecodingSuccess { status: u16 },
    /// The body is to be decoded as the error envelope. `success_error` holds
    /// the error of the earlier attempt as `T`, if there was one.
    DecodingEnvelope { status: u16, success_error: Option<D> },
    /// The run is over.
    Finished(Result<T, PipelineError<D>>),
}

/// What the caller observed since the last step.
#[derive(Debug)]
pub enum Event<T, D> {
    /// The numeric status of the response.
    Status(u16),
    /// The outcome of decoding the body as `T`.
    SuccessDecoded(Result<T, D>),
    /// The body decoded as the error envelope and turned into an `ApiError`,
    /// or `None` where it did not decode (or could not be read).
    EnvelopeDecoded(Option<ApiError>),
}

/// A 2xx status.
pub open spec fn is_success_status(status: u16) -> bool {
    200 <= status && status < 300
}

/// The failure that a status alone stands for, with no envelope to go by.
pub open spec fn status_failure(status: u16) -> ApiError {
    if status == 401 {
        ApiError::Unauthorized
    } else {
        ApiError::Other(status)
    }
}

impl<T, D> Exchange<T, D> {
    /// Whether `ev` is what this stage waits for.
    pub open spec fn accepts(self, ev: Event<T, D>) -> bool {
        match self {
            Exchange::AwaitingStatus => ev is Status,
            Exchange::DecodingSuccess { .. } => ev is SuccessDecoded,
            Exchange::DecodingEnvelope { .. } => ev is EnvelopeDecoded,
            Exchange::Finished(_) => false,
        }
    }

    /// The stage that follows this one on `ev`.
    pub open spec fn next(self, ev: Event<T, D>) -> Exchange<T, D> {
        match (self, ev) {
            (Exchange::AwaitingStatus, Event::Status(status)) => {
                if is_success_status(status) {
                    Exchange::DecodingSuccess { status }
                } else {
                    Exchange::DecodingEnvelope { status, success_error: None }
                }
            },
            (Exchange::DecodingSuccess { status }, Event::SuccessDecoded(decoded)) => match decoded {
                Ok(value) => Exchange::Finished(Ok(value)),
                Err(e) => Exchange::DecodingEnvelope { status, success_error: Some(e) },
            },
            (
                Exchange::DecodingEnvelope { status, success_error },
                Event::EnvelopeDecoded(envelope),
            ) => match envelope {
                Some(api) => Exchange::Finished(Err(PipelineError::Api(api))),
                None => match success_error {
                    Some(e) => Exchange::Finished(Err(PipelineError::Decode(e))),
                    None => Exchange::Finished(Err(PipelineError::Api(status_failure(status)))),
                },
            },
            _ => self,
        }
    }

    /// A run that has sent its request.
    pub fn new() -> (r: Self)
        ensures
            r is AwaitingStatus,
    {
        Exchange::AwaitingStatus
    }

    /// Whether this stage waits for `ev`.
    pub fn accepts_event(&self, ev: &Event<T, D>) -> (r: bool)
        ensures
            r == self.accepts(*ev),
    {
        match (self, ev) {
            (Exchange::AwaitingStatus, Event::Status(_)) => true,
            (Exchange::DecodingSuccess { .. }, Event::SuccessDecoded(_)) => true,
            (Exchange::DecodingEnvelope { .. }, Event::EnvelopeDecoded(_)) => true,
            _ => false,
        }
    }

    /// Takes in what the caller observed and moves to the next stage.
    pub fn step(self, ev: Event<T, D>) -> (r: Self)
        requires
            self.accepts(ev),
        ensures
            r == self.next(ev),
    {
        match (self, ev) {
            (Exchange::AwaitingStatus, Event::Status(status)) => {
                if 200 <= status && status < 300 {
                    Exchange::DecodingSuccess { status }
                } else {
                    Exchange::DecodingEnvelope { status, success_error: None }
                }
            },
            (Exchange::DecodingSuccess { status }, Event::SuccessDecoded(decoded)) => match decoded {
                Ok(value) => Exchange::Finished(Ok(value)),
                Err(e) => Exchange::DecodingEnvelope { status, success_error: Some(e) },
            },
            (
                Exchange::DecodingEnvelope { status, success_error },
                Event::EnvelopeDecoded(envelope),
            ) => match envelope {
                Some(api) => Exchange::Finished(Err(PipelineError::Api(api))),
                None => match success_error {
                    Some(e) => Exchange::Finished(Err(PipelineError::Decode(e))),
                    None => {
                        let failure = if status == 401 {
                            ApiError::Unauthorized
                        } else {
                            ApiError::Other(status)
                        };
                        Exchange::Finished(Err(PipelineError::Api(failure)))
                    },
                },
            },
            (this, _) => this,
        }
    }

    /// Whether the run is over.
    pub fn is_finished(&self) -> (r: bool)
        ensures
            r == self is Finished,
    {
        match self {
            Exchange::Finished(_) => true,
            _ => false,
        }
    }

    /// The outcome of a finished run.
    pub fn into_outcome(self) -> (r: Result<T, PipelineError<D>>)
        requires
            self is Finished,
        ensures
            self == Exchange::<T, D>::Finished(r),
    {
        match self {
            Exchange::Finished(outcome) => outcome,
            _ => {
                proof { assert(false); }
                Err(PipelineError::Api(ApiError::Unauthorized))
            },
        }
    }
}

/// A 2xx response whose body decodes as the success type yields that value,
/// and the success type is the first decoding asked for.
pub proof fn lemma_success_body_is_returned<T, D>(status: u16, value: T)
    requires
        is_success_status(status),
    ensures
        Exchange::<T, D>::AwaitingStatus.next(Event::Status(status)) is DecodingSuccess,
        Exchange::<T, D>::AwaitingStatus.next(Event::Status(status)).next(
            Event::SuccessDecoded(Ok(value)),
        ) == Exchange::<T, D>::Finished(Ok(value)),
{
}

/// A 2xx response whose body is not the success type but is an error envelope
/// yields the failure from the envelope, not the error of the first decoding.
pub proof fn lemma_envelope_in_success_body_wins<T, D>(
    status: u16,
    success_error: D,
    envelope: ApiError,
)
    requires
        is_success_status(status),
    ensures
        Exchange::<T, D>::AwaitingStatus.next(Event::Status(status)).next(
            Event::SuccessDecoded(Err(success_error)),
        ).next(Event::EnvelopeDecoded(Some(envelope)))
            == Exchange::<T, D>::Finished(Err(PipelineError::Api(envelope))),
{
}

/// A 2xx response whose body is neither the success type nor an envelope
/// yields the error of decoding it as the success type.
pub proof fn lemma_undecodable_success_body<T, D>(status: u16, success_error: D)
    requires
        is_success_status(status),
    ensures
        Exchange::<T, D>::AwaitingStatus.next(Event::Status(status)).next(
            Event::SuccessDecoded(Err(success_error)),
        ).next(Event::EnvelopeDecoded(None))
            == Exchange::<T, D>::Finished(Err(PipelineError::Decode(success_error))),
{
}

/// On a failing status only the envelope is tried; where it decodes, its
/// failure is returned.
pub proof fn lemma_failure_envelope_is_returned<T, D>(status: u16, envelope: ApiError)
    requires
        !is_success_status(status),
    ensures
        Exchange::<T, D>::AwaitingStatus.next(Event::Status(status)) is DecodingEnvelope,
        Exchange::<T, D>::AwaitingStatus.next(Event::Status(status)).next(
            Event::EnvelopeDecoded(Some(envelope)),
        ) == Exchange::<T, D>::Finished(Err(PipelineError::Api(envelope))),
{
}

/// Status 401 with a body that is no envelope yields `Unauthorized`.
pub proof fn lemma_unauthorized_without_envelope<T, D>()
    ensures
        Exchange::<T, D>::AwaitingStatus.next(Event::Status(401)).next(
            Event::EnvelopeDecoded(None),
        ) == Exchange::<T, D>::Finished(Err(PipelineError::Api(ApiError::Unauthorized))),
{
}

/// Any other failing status with a body that is no envelope yields `Other`
/// with that exact status.
pub proof fn lemma_other_status_without_envelope<T, D>(status: u16)
    requires
        !is_success_status(status),
        status != 401,
    ensures
        Exchange::<T, D>::AwaitingStatus.next(Event::Status(status)).next(
            Event::EnvelopeDecoded(None),
        ) == Exchange::<T, D>::Finished(Err(PipelineError::Api(ApiError::Other(status)))),
{
}

} // verus!

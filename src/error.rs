//! The closed set of API failures that the pipeline reports, and the
//! structured error envelopes of the two providers.
use vstd::prelude::*;
use crate::text::{bool_string, bool_text, decimal, signed_decimal, signed_text, unsigned_text};

verus! {

/// A failure that the remote API reported, one variant per shape.
#[derive(Clone, Debug, PartialEq)]
pub enum ApiError {
    /// Status 401 and no structured error body.
    Unauthorized,
    /// Any other failing status and no structured error body.
    Other(u16),
    /// OpenSea's envelope, a bare success flag.
    OpenSeaApiError(OpenSeaApiError),
    /// Rarible's envelope, a status, code and message.
    RaribleServerError(RaribleApiError),
}

/// OpenSea's error envelope.
#[derive(Clone, Debug, PartialEq)]
pub struct OpenSeaApiError {
    pub success: bool,
}

/// Rarible's error envelope.
#[derive(Clone, Debug, PartialEq)]
pub struct RaribleApiError {
    pub status: i32,
    pub code: String,
    pub message: String,
}

/// `status: `S`, code: `C`, message: `M``, the text of a Rarible envelope.
pub open spec fn rarible_text(status: int, code: Seq<char>, message: Seq<char>) -> Seq<char> {
    "status: `"@ + signed_decimal(status) + "`, code: `"@ + code + "`, message: `"@ + message
        + "`"@
}

/// The text that describes an API failure.
pub open spec fn api_error_text(e: ApiError) -> Seq<char> {
    match e {
        ApiError::Unauthorized => "Unauthorized request to API"@,
        ApiError::Other(s) => "API reported error code "@ + decimal(s as nat),
        ApiError::OpenSeaApiError(o) => "OpenSea Server success "@ + bool_text(o.success),
        ApiError::RaribleServerError(r) => rarible_text(r.status as int, r.code@, r.message@),
    }
}

impl RaribleApiError {
    /// The envelope as text: its status, code and message.
    pub fn to_string(&self) -> (r: String)
        ensures
            r@ == rarible_text(self.status as int, self.code@, self.message@),
    {
        let mut s = String::from_str("status: `");
        let status = signed_text(self.status as i64);
        s.append(status.as_str());
        s.append("`, code: `");
        s.append(self.code.as_str());
        s.append("`, message: `");
        s.append(self.message.as_str());
        s.append("`");
        s
    }
}

impl ApiError {
    /// A human-readable description of the failure.
    pub fn to_string(&self) -> (r: String)
        ensures
            r@ == api_error_text(*self),
    {
        match self {
            ApiError::Unauthorized => String::from_str("Unauthorized request to API"),
            ApiError::Other(status) => {
                let mut s = String::from_str("API reported error code ");
                let digits = unsigned_text(*status as u64);
                s.append(digits.as_str());
                s
            },
            ApiError::OpenSeaApiError(err) => {
                let mut s = String::from_str("OpenSea Server success ");
                let flag = bool_string(err.success);
                s.append(flag.as_str());
                s
            },
            ApiError::RaribleServerError(err) => err.to_string(),
        }
    }
}

impl From<OpenSeaApiError> for ApiError {
    fn from(err: OpenSeaApiError) -> (r: ApiError)
        ensures
            r == ApiError::OpenSeaApiError(err),
    {
        ApiError::OpenSeaApiError(err)
    }
}

impl vstd::std_specs::convert::FromSpecImpl<OpenSeaApiError> for ApiError {
    open spec fn obeys_from_spec() -> bool {
        true
    }

    open spec fn from_spec(err: OpenSeaApiError) -> ApiError {
        ApiError::OpenSeaApiError(err)
    }
}

impl From<RaribleApiError> for ApiError {
    fn from(err: RaribleApiError) -> (r: ApiError)
        ensures
            r == ApiError::RaribleServerError(err),
    {
        ApiError::RaribleServerError(err)
    }
}

impl vstd::std_specs::convert::FromSpecImpl<RaribleApiError> for ApiError {
    open spec fn obeys_from_spec() -> bool {
        true
    }

    open spec fn from_spec(err: RaribleApiError) -> ApiError {
        ApiError::RaribleServerError(err)
    }
}

} // verus!

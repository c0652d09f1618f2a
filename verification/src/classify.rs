//! Classification of the solar-inverter cloud API's query responses.
//!
//! A response body is read as raw text and then tried against two fixed
//! provider schemas: the success envelope (`status`, optional `message`, an
//! optional `data` object that may nest the reflux station readings) and the
//! generic error envelope (`status`, `message`). The classifier here takes
//! the raw body together with the outcome of those two parse attempts and
//! decides, in a fixed order, what the response means:
//!
//! 1. a success envelope carrying the nested reflux readings is a success;
//! 2. otherwise a well-formed error envelope is either the provider's one
//!    and only session-expiry signal (`status` `"100"` with the exact
//!    message `"token verify error."`) or a generic provider error;
//! 3. otherwise a success envelope without the nested readings carried no
//!    usable data;
//! 4. otherwise the body matched neither schema and is kept verbatim,
//!    together with the parse error, for operator diagnosis.

use vstd::prelude::*;
use vstd::string::StringExecFns;

verus! {

/// The reflux station readings nested inside a successful response, reduced
/// to the fields the bridge republishes.
#[derive(Clone, Debug, PartialEq, Eq)]
pub struct RefluxStationData {
    pub bms_soc: String,
    pub bms_in_eq: String,
    pub bms_out_eq: String,
}

/// What the `data` field of a success envelope carried.
#[derive(Clone, Debug, PartialEq, Eq)]
pub enum DataPayload {
    /// `data` was absent or null.
    Missing,
    /// `data` was present but carried no reflux station readings.
    WithoutReflux,
    /// `data` nested the reflux station readings.
    WithReflux(RefluxStationData),
}

/// A body that parsed under the provider's success schema.
#[derive(Clone, Debug, PartialEq, Eq)]
pub struct SuccessEnvelope {
    pub status: String,
    pub message: Option<String>,
    pub data: DataPayload,
}

/// A body that parsed under the provider's generic error schema.
#[derive(Clone, Debug, PartialEq, Eq)]
pub struct ErrorEnvelope {
    pub status: String,
    pub message: String,
}

/// The classification of one fetch attempt, consumed once per attempt by the
/// poll-cycle orchestrator.
#[derive(Clone, Debug, PartialEq, Eq)]
pub enum FetchOutcome {
    /// A well-formed success envelope with the nested reflux readings.
    Success(RefluxStationData),
    /// The provider's one and only signal that the session token expired.
    AuthExpired,
    /// A well-formed error envelope that is not the expiry signal: its
    /// status and message.
    ProviderError(String, String),
    /// The request itself failed (network, timeout): the transport error
    /// rendered as text.
    TransportError(String),
    /// The body matched neither schema: the raw body, kept verbatim, and the
    /// parse error.
    MalformedResponse(String, String),
    /// A well-formed success envelope that carried no usable data.
    NoData,
}

/// The provider's only session-expiry signature: status `"100"` with the
/// exact message `"token verify error."`.
pub open spec fn spec_is_expiry_signature(status: Seq<char>, message: Seq<char>) -> bool {
    status == "100"@ && message == "token verify error."@
}

/// The classification decision, in the fixed order described at the top of
/// this module.
pub open spec fn spec_classify(
    body: String,
    success: Option<SuccessEnvelope>,
    error: Option<ErrorEnvelope>,
    parse_error: String,
) -> FetchOutcome {
    if success is Some && success->0.data is WithReflux {
        FetchOutcome::Success(success->0.data->WithReflux_0)
    } else if error is Some {
        if spec_is_expiry_signature(error->0.status@, error->0.message@) {
            FetchOutcome::AuthExpired
        } else {
            FetchOutcome::ProviderError(error->0.status, error->0.message)
        }
    } else if success is Some {
        FetchOutcome::NoData
    } else {
        FetchOutcome::MalformedResponse(body, parse_error)
    }
}

/// Classify one response body given the outcomes of the two schema parse
/// attempts: `success` and `error` hold the envelopes the body yielded under
/// the success and error schemas (absent where the parse failed), and
/// `parse_error` is the success-schema parse error, kept for diagnosis.
pub fn classify_response(
    body: String,
    success: Option<SuccessEnvelope>,
    error: Option<ErrorEnvelope>,
    parse_error: String,
) -> (r: FetchOutcome)
    ensures
        r == spec_classify(body, success, error, parse_error),
{
    let success_parsed = success.is_some();
    match success {
        Some(envelope) => match envelope.data {
            DataPayload::WithReflux(reflux) => {
                return FetchOutcome::Success(reflux);
            },
            _ => {},
        },
        None => {},
    }
    match error {
        Some(envelope) => {
            let expiry_status = String::from_str("100");
            let expiry_message = String::from_str("token verify error.");
            if envelope.status == expiry_status && envelope.message == expiry_message {
                FetchOutcome::AuthExpired
            } else {
                FetchOutcome::ProviderError(envelope.status, envelope.message)
            }
        },
        None => {
            if success_parsed {
                FetchOutcome::NoData
            } else {
                FetchOutcome::MalformedResponse(body, parse_error)
            }
        },
    }
}

} // verus!

//! The single-page-application fallback policy. Any unmatched path is
//! answered with the entry document, so the inner file responder's outcome
//! must be rewritten: a served document passes through untouched, while a
//! failure to produce it — an error, or a not-found status for the document
//! itself — becomes an internal-server-error response with a fixed generic
//! body, never a not-found response to the client.

use vstd::prelude::*;

verus! {

/// The status code of a successfully served document.
pub const STATUS_OK: u16 = 200;

/// The status code the inner file responder gives a missing document.
pub const STATUS_NOT_FOUND: u16 = 404;

/// The status code of the generic error response.
pub const STATUS_INTERNAL_ERROR: u16 = 500;

/// What the inner file responder came back with when asked for the entry
/// document: a response carrying some status, or no response at all.
#[derive(Clone, Copy, Debug, PartialEq, Eq, Structural)]
pub enum ServeOutcome {
    /// The responder produced a response with this status code.
    Response { status: u16 },
    /// The responder failed outright.
    Error,
}

/// What the server does with the inner responder's outcome.
#[derive(Clone, Copy, Debug, PartialEq, Eq, Structural)]
pub enum FallbackAction {
    /// Pass the inner response through to the client unchanged.
    Forward,
    /// Replace the outcome with the generic internal-server-error response.
    InternalError,
}

/// The fallback policy: a not-found status or an outright failure is
/// replaced with the generic error response; everything else passes through.
pub open spec fn spec_fallback_action(outcome: ServeOutcome) -> FallbackAction {
    match outcome {
        ServeOutcome::Response { status } => if status == STATUS_NOT_FOUND {
            FallbackAction::InternalError
        } else {
            FallbackAction::Forward
        },
        ServeOutcome::Error => FallbackAction::InternalError,
    }
}

/// Decides what to do with the inner file responder's outcome for a fallback
/// request: forward any response whose status is not the not-found status,
/// and answer a not-found status or a failure with the generic error.
pub fn fallback_action(outcome: ServeOutcome) -> (r: FallbackAction)
    ensures
        r == spec_fallback_action(outcome),
{
    match outcome {
        ServeOutcome::Response { status } => {
            if status == STATUS_NOT_FOUND {
                FallbackAction::InternalError
            } else {
                FallbackAction::Forward
            }
        },
        ServeOutcome::Error => FallbackAction::InternalError,
    }
}

/// The text of the generic error response's body.
pub open spec fn spec_error_body() -> Seq<char> {
    "Something went wrong..."@
}

/// The body sent with the generic internal-server-error response.
pub fn error_body() -> (r: &'static str)
    ensures
        r@ == spec_error_body(),
{
    "Something went wrong..."
}

/// The status code sent with the generic error response.
pub fn error_status() -> (r: u16)
    ensures
        r == STATUS_INTERNAL_ERROR,
{
    STATUS_INTERNAL_ERROR
}

/// A client of the fallback route never sees a not-found response: whatever
/// the inner responder's outcome, the action either forwards a response whose
/// status is not the not-found status, or replaces the outcome with the
/// generic error.
pub proof fn lemma_fallback_never_not_found(outcome: ServeOutcome)
    ensures
        spec_fallback_action(outcome) == FallbackAction::Forward ==> (outcome matches
            ServeOutcome::Response { status } && status != STATUS_NOT_FOUND),
        spec_fallback_action(outcome) == FallbackAction::InternalError <==> (outcome
            == ServeOutcome::Error || outcome == (ServeOutcome::Response {
            status: STATUS_NOT_FOUND,
        })),
{
}

/// A failure to read the entry document is answered, never propagated: the
/// action for an outright failure is the generic error, so the server stays
/// up and responds.
pub proof fn lemma_failure_is_answered()
    ensures
        spec_fallback_action(ServeOutcome::Error) == FallbackAction::InternalError,
        spec_fallback_action(ServeOutcome::Response { status: STATUS_NOT_FOUND })
            == FallbackAction::InternalError,
{
}

} // verus!

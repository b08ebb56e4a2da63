use vstd::prelude::*;
use crate::candidates::{Candidate, CandidateKind};

verus! {

/// Seconds that a probe may take before it counts as timed out.
pub const PROBE_TIMEOUT_SECS: u64 = 60;

/// The user agent that every probe sends.
pub fn user_agent() -> (r: &'static str)
    ensures
        r@ == "up-down-workers/1.0"@,
{
    "up-down-workers/1.0"
}

/// The verdict of one probe.
#[derive(Clone, Copy, Debug, PartialEq, Eq, Structural)]
pub enum ProbeStatus {
    Up,
    Down,
}

impl ProbeStatus {
    /// The name of the verdict as the response body writes it.
    pub fn as_str(&self) -> (r: &'static str)
        ensures
            *self == ProbeStatus::Up ==> r@ == "UP"@,
            *self == ProbeStatus::Down ==> r@ == "DOWN"@,
    {
        match self {
            ProbeStatus::Up => "UP",
            ProbeStatus::Down => "DOWN",
        }
    }
}

/// How one bounded-time HTTP call ended: a response with its status code, a
/// failure before any response, or the timer firing first.
#[derive(Clone, Debug)]
pub enum ProbeOutcome {
    Response(u16),
    TransportError(String),
    TimedOut,
}

/// The record of one probe.
#[derive(Clone, Debug)]
pub struct ProbeResult {
    pub kind: CandidateKind,
    pub url: String,
    pub status: ProbeStatus,
    pub status_code: Option<u16>,
    pub status_text: String,
    pub duration_ms: Option<u64>,
}

/// A response code that counts as up: 2xx or 3xx.
pub open spec fn is_up_code(code: u16) -> bool {
    200 <= code < 400
}

pub open spec fn fetch_error_text(cause: Seq<char>) -> Seq<char> {
    "Fetch to origin error: "@ + cause
}

pub open spec fn timeout_text() -> Seq<char> {
    "Request to origin timed-out after 60 secs."@
}

/// `r` is the record of probing `c` with outcome `o`, taking `d` milliseconds.
pub open spec fn is_probe_result(
    r: ProbeResult,
    c: Candidate,
    o: ProbeOutcome,
    d: Option<u64>,
) -> bool {
    &&& r.kind == c.kind
    &&& r.url@ == c.url@
    &&& r.duration_ms == d
    &&& match o {
        ProbeOutcome::Response(code) => {
            &&& r.status == (if is_up_code(code) { ProbeStatus::Up } else { ProbeStatus::Down })
            &&& r.status_code == Some(code)
            &&& r.status_text@ == Seq::<char>::empty()
        },
        ProbeOutcome::TransportError(cause) => {
            &&& r.status == ProbeStatus::Down
            &&& r.status_code is None
            &&& r.status_text@ == fetch_error_text(cause@)
        },
        ProbeOutcome::TimedOut => {
            &&& r.status == ProbeStatus::Down
            &&& r.status_code is None
            &&& r.status_text@ == timeout_text()
        },
    }
}

/// Up for a 2xx or 3xx response code, down for any other.
pub fn status_for_code(code: u16) -> (r: ProbeStatus)
    ensures
        r == ProbeStatus::Up <==> is_up_code(code),
{
    if 200 <= code && code < 400 {
        ProbeStatus::Up
    } else {
        ProbeStatus::Down
    }
}

/// The record of probing `candidate`, given how the call ended.
pub fn probe_result(candidate: &Candidate, outcome: ProbeOutcome, duration_ms: Option<u64>) -> (r:
    ProbeResult)
    ensures
        is_probe_result(r, *candidate, outcome, duration_ms),
{
    let url = candidate.url.clone();
    match outcome {
        ProbeOutcome::Response(code) => ProbeResult {
            kind: candidate.kind,
            url,
            status: status_for_code(code),
            status_code: Some(code),
            status_text: String::new(),
            duration_ms,
        },
        ProbeOutcome::TransportError(cause) => {
            proof {
                reveal_strlit("Fetch to origin error: ");
            }
            let mut text = String::from_str("Fetch to origin error: ");
            text.append(cause.as_str());
            ProbeResult {
                kind: candidate.kind,
                url,
                status: ProbeStatus::Down,
                status_code: None,
                status_text: text,
                duration_ms,
            }
        },
        ProbeOutcome::TimedOut => ProbeResult {
            kind: candidate.kind,
            url,
            status: ProbeStatus::Down,
            status_code: None,
            status_text: String::from_str("Request to origin timed-out after 60 secs."),
            duration_ms,
        },
    }
}

} // verus!

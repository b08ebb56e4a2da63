use vstd::prelude::*;
use crate::target::RequestError;

verus! {

/// The DNS-over-HTTPS JSON endpoint that the safety check asks.
pub open spec fn dns_query_base() -> Seq<char> {
    "https://cloudflare-dns.com/dns-query?name="@
}

/// The DNS-over-HTTPS query URL for `host`.
pub fn dns_query_url(host: &str) -> (r: String)
    ensures
        r@ == dns_query_base() + host@,
{
    let mut r = String::from_str("https://cloudflare-dns.com/dns-query?name=");
    r.append(host);
    r
}

/// The media type that the DNS-over-HTTPS JSON API answers in.
pub fn dns_accept() -> (r: &'static str)
    ensures
        r@ == "application/dns-json"@,
{
    "application/dns-json"
}

/// What the safety check decides: a definitive non-zero DNS status refuses
/// the request; no answer, or status 0, lets probing go on.
pub open spec fn gate_verdict(check: Option<u64>) -> Result<(), RequestError> {
    match check {
        Some(status) => if status != 0 {
            Err(RequestError::DomainCheckFailed(status))
        } else {
            Ok(())
        },
        None => Ok(()),
    }
}

/// The safety check's decision on the DNS status it got, or on `None` where
/// the lookup failed to execute or its answer could not be read.
pub fn domain_gate(check: Option<u64>) -> (r: Result<(), RequestError>)
    ensures
        r == gate_verdict(check),
{
    match check {
        Some(status) => if status != 0 {
            Err(RequestError::DomainCheckFailed(status))
        } else {
            Ok(())
        },
        None => Ok(()),
    }
}

/// The numeric `Status` field that serde_json reads from a DNS JSON answer.
pub uninterp spec fn dns_status_of(body: Seq<char>) -> Option<u64>;

/// Relies on serde_json::from_str, Value::get and Value::as_u64: the `Status`
/// member of the JSON object in `body`, if the body is JSON and that member
/// is an unsigned integer; a function of the text alone.
#[verifier::external_body]
fn dns_status(body: &str) -> (r: Option<u64>)
    ensures
        r == dns_status_of(body@),
{
    serde_json::from_str::<serde_json::Value>(body).ok().and_then(|v| v.get("Status").and_then(|s| s.as_u64()))
}

/// The DNS status read from the body of a DNS answer, `None` where the body
/// is not JSON or has no unsigned `Status` member.
pub fn dns_answer_status(body: &str) -> (r: Option<u64>)
    ensures
        r == dns_status_of(body@),
{
    dns_status(body)
}

/// The safety check's decision on the body of a DNS answer: an unreadable
/// answer lets probing go on.
pub fn check_dns_answer(body: &str) -> (r: Result<(), RequestError>)
    ensures
        r == gate_verdict(dns_status_of(body@)),
{
    domain_gate(dns_status(body))
}

/// Without a DNS status the request goes on; with status 0 it goes on too;
/// any other status refuses it, and the refusal carries that status.
pub proof fn lemma_gate_asymmetry(status: u64)
    ensures
        gate_verdict(None) == Ok::<(), RequestError>(()),
        gate_verdict(Some(0)) == Ok::<(), RequestError>(()),
        status != 0 ==> gate_verdict(Some(status)) == Err::<(), RequestError>(
            RequestError::DomainCheckFailed(status),
        ),
{
}

} // verus!

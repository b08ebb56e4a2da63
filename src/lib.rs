//! Reachability probing: target normalisation, probe candidates, the DNS
//! safety gate, probe classification, short-circuit aggregation and cache
//! header handling.
mod text;

pub mod aggregate;
pub mod cache;
pub mod candidates;
pub mod gate;
pub mod probe;
pub mod target;

pub use aggregate::{final_response, start_probing, Aggregation, FinalResponse};
pub use cache::{
    cache_ttl, fresh_response, hit_headers, miss_headers, parse_u32, served_from_cache,
    CachedResponse, Header, DEFAULT_CACHE_TTL,
};
pub use candidates::{candidates, candidates_from, origin_url, Candidate, CandidateKind};
pub use gate::{check_dns_answer, dns_answer_status, dns_query_url, domain_gate};
pub use probe::{probe_result, status_for_code, ProbeOutcome, ProbeResult, ProbeStatus};
pub use target::{add_default_scheme, normalize, target_from_parsed, RequestError, TargetUrl};
pub mod session;

pub use session::{Next, Phase, Session};

use vstd::prelude::*;

verus! {

/// Which part of the target a candidate URL was made from.
#[derive(Clone, Copy, Debug, PartialEq, Eq, Structural)]
pub enum CandidateKind {
    Host,
    Domain,
}

impl CandidateKind {
    /// The name of the kind as the response body writes it.
    pub fn as_str(&self) -> (r: &'static str)
        ensures
            *self == CandidateKind::Host ==> r@ == "host"@,
            *self == CandidateKind::Domain ==> r@ == "domain"@,
    {
        match self {
            CandidateKind::Host => "host",
            CandidateKind::Domain => "domain",
        }
    }
}

/// One URL to probe.
#[derive(Clone, Debug)]
pub struct Candidate {
    pub url: String,
    pub kind: CandidateKind,
}

impl Candidate {
    pub open spec fn view(&self) -> (Seq<char>, CandidateKind) {
        (self.url@, self.kind)
    }
}

pub open spec fn candidates_view(v: Seq<Candidate>) -> Seq<(Seq<char>, CandidateKind)> {
    v.map_values(|c: Candidate| c.view())
}

/// `scheme://name`.
pub open spec fn origin(scheme: Seq<char>, name: Seq<char>) -> Seq<char> {
    scheme + seq![':', '/', '/'] + name
}

/// The candidates for a host and its registrable domain: the host first, then
/// the domain where it has one whose URL differs from the host's.
pub open spec fn candidate_list(
    scheme: Seq<char>,
    host: Seq<char>,
    domain: Option<Seq<char>>,
) -> Seq<(Seq<char>, CandidateKind)> {
    let first = seq![(origin(scheme, host), CandidateKind::Host)];
    match domain {
        Some(d) => if origin(scheme, d) != origin(scheme, host) {
            first.push((origin(scheme, d), CandidateKind::Domain))
        } else {
            first
        },
        None => first,
    }
}

/// A host with no registrable domain, or one whose URL is the host's own,
/// gives one candidate, of kind `Host`; any other gives two, the host's
/// then the domain's.
pub proof fn lemma_candidate_dedup(scheme: Seq<char>, host: Seq<char>, domain: Option<Seq<char>>)
    ensures
        (domain is None || origin(scheme, domain->Some_0) == origin(scheme, host)) ==> (
        candidate_list(scheme, host, domain).len() == 1 && candidate_list(scheme, host, domain)[0]
            == (origin(scheme, host), CandidateKind::Host)),
        (domain is Some && origin(scheme, domain->Some_0) != origin(scheme, host)) ==> (
        candidate_list(scheme, host, domain).len() == 2 && candidate_list(scheme, host, domain)[0]
            == (origin(scheme, host), CandidateKind::Host) && candidate_list(scheme, host, domain)[1]
            == (origin(scheme, domain->Some_0), CandidateKind::Domain)),
{
}

/// Writes `scheme://name`.
pub fn origin_url(scheme: &str, name: &str) -> (r: String)
    ensures
        r@ == origin(scheme@, name@),
{
    proof {
        reveal_strlit("://");
    }
    let mut r = String::from_str(scheme);
    r.append("://");
    r.append(name);
    assert(r@ =~= origin(scheme@, name@));
    r
}

/// The registrable domain that `psl::domain_str` finds for a host name.
pub uninterp spec fn registrable_domain_of(host: Seq<char>) -> Option<Seq<char>>;

/// Relies on psl::domain_str: the registrable domain of a host name under the
/// public suffix list, a function of the name alone.
#[verifier::external_body]
fn registrable_domain(host: &str) -> (r: Option<String>)
    ensures
        r is None <==> registrable_domain_of(host@) is None,
        r is Some ==> registrable_domain_of(host@) == Some(r->Some_0@),
{
    psl::domain_str(host).map(|d| d.to_string())
}

/// The candidates for `host` when its registrable domain is `domain`.
pub fn candidates_from(scheme: &str, host: &str, domain: Option<&str>) -> (r: Vec<Candidate>)
    ensures
        candidates_view(r@) == candidate_list(
            scheme@,
            host@,
            match domain {
                Some(d) => Some(d@),
                None => None,
            },
        ),
{
    let host_url = origin_url(scheme, host);
    let mut r: Vec<Candidate> = Vec::new();
    r.push(Candidate { url: host_url.clone(), kind: CandidateKind::Host });
    if let Some(d) = domain {
        let domain_url = origin_url(scheme, d);
        if domain_url != host_url {
            r.push(Candidate { url: domain_url, kind: CandidateKind::Domain });
        }
    }
    assert(candidates_view(r@) =~= candidate_list(
        scheme@,
        host@,
        match domain {
            Some(d) => Some(d@),
            None => None,
        },
    ));
    r
}

/// The candidates for `host`: its own URL, then that of its registrable
/// domain under the public suffix list where that differs.
pub fn candidates(scheme: &str, host: &str) -> (r: Vec<Candidate>)
    ensures
        candidates_view(r@) == candidate_list(scheme@, host@, registrable_domain_of(host@)),
        1 <= r.len() <= 2,
        r[0].kind == CandidateKind::Host,
{
    let domain = registrable_domain(host);
    let r = match domain {
        Some(d) => candidates_from(scheme, host, Some(d.as_str())),
        None => candidates_from(scheme, host, None),
    };
    assert(candidates_view(r@).len() == r@.len());
    assert(candidates_view(r@)[0] == r@[0].view());
    r
}

} // verus!

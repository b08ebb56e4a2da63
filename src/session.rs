use vstd::prelude::*;
use crate::aggregate::{final_response, start_probing, Aggregation, FinalResponse};
use crate::cache::{served_from_cache, served_view, CachedResponse};
use crate::candidates::{candidate_list, candidates_view, registrable_domain_of};
use crate::gate::{domain_gate, gate_verdict};
use crate::aggregate::is_finished;
use crate::probe::{is_probe_result, ProbeOutcome, ProbeResult};
use crate::target::RequestError;

verus! {

/// Where a request stands.
#[derive(Clone, Copy, Debug, PartialEq, Eq, Structural)]
pub enum Phase {
    /// Waiting for the cache lookup of the normalised URL.
    AwaitCache,
    /// Waiting for the DNS safety check of the host.
    AwaitDomain,
    /// Waiting for the probe of the next candidate.
    Probing,
    /// Answered; nothing more is done.
    Finished,
}

/// What the request asks its runner to do next.
#[derive(Debug)]
pub enum Next {
    /// Ask the DNS safety check about the host.
    CheckDomain,
    /// Probe this URL.
    Probe(String),
    /// Serve this response from the cache, and store nothing.
    Serve(CachedResponse),
    /// Refuse the request with this error, and store nothing.
    Reject(RequestError),
    /// Answer with this freshly computed response, then store it.
    Answer(FinalResponse),
    /// Nothing: the step did not fit the phase.
    Idle,
}

/// One request, from the cache lookup to its answer.
pub struct Session {
    phase: Phase,
    href: String,
    probing: Aggregation,
}

impl Session {
    #[verifier::type_invariant]
    spec fn inv(&self) -> bool {
        &&& self.probing.well_formed()
        &&& self.phase == Phase::Probing ==> !self.probing.finished()
    }

    pub closed spec fn phase_spec(&self) -> Phase {
        self.phase
    }

    /// The normalised URL: the cache key and the requested URL of the answer.
    pub closed spec fn href_spec(&self) -> Seq<char> {
        self.href@
    }

    /// The probing of the candidates so far.
    pub closed spec fn probing_spec(&self) -> Aggregation {
        self.probing
    }

    /// Starts a request for the target with `scheme`, `host` and
    /// serialisation `href`: first the cache is asked.
    pub fn start(scheme: &str, host: &str, href: &str) -> (r: Session)
        ensures
            r.phase_spec() == Phase::AwaitCache,
            r.href_spec() == href@,
            r.probing_spec().well_formed(),
            candidates_view(r.probing_spec().candidate_seq()) == candidate_list(
                scheme@,
                host@,
                registrable_domain_of(host@),
            ),
            r.probing_spec().result_seq() == Seq::<ProbeResult>::empty(),
    {
        Session { phase: Phase::AwaitCache, href: String::from_str(href), probing: start_probing(scheme, host) }
    }

    /// The phase of the request.
    pub fn phase(&self) -> (r: Phase)
        ensures
            r == self.phase_spec(),
    {
        self.phase
    }

    /// Takes the answer of the cache: a stored response is served as a hit
    /// and ends the request, before any DNS check or probe; without one the
    /// DNS check comes next.
    pub fn on_cache_answer(self, cached: Option<CachedResponse>) -> (r: (Session, Next))
        ensures
            self.phase_spec() != Phase::AwaitCache ==> r.1 is Idle && r.0 == self,
            self.phase_spec() == Phase::AwaitCache && cached is Some ==> {
                &&& r.0.phase_spec() == Phase::Finished
                &&& r.1 is Serve
                &&& r.1->Serve_0.view() == served_view(cached->Some_0.view())
            },
            self.phase_spec() == Phase::AwaitCache && cached is None ==> {
                &&& r.0.phase_spec() == Phase::AwaitDomain
                &&& r.1 is CheckDomain
                &&& r.0.href_spec() == self.href_spec()
                &&& r.0.probing_spec() == self.probing_spec()
            },
    {
        proof {
            use_type_invariant(&self);
        }
        if self.phase != Phase::AwaitCache {
            return (self, Next::Idle);
        }
        match cached {
            Some(c) => {
                let Session { phase: _, href, probing } = self;
                (Session { phase: Phase::Finished, href, probing }, Next::Serve(served_from_cache(c)))
            },
            None => {
                let Session { phase: _, href, probing } = self;
                (Session { phase: Phase::AwaitDomain, href, probing }, Next::CheckDomain)
            },
        }
    }

    /// The step after the records so far: the next candidate's probe, or the
    /// answer once probing has stopped.
    fn advance(href: String, probing: Aggregation) -> (r: (Session, Next))
        ensures
            probing.well_formed(),
            !probing.finished() ==> {
                &&& r.0.phase_spec() == Phase::Probing
                &&& r.0.href_spec() == href@
                &&& r.0.probing_spec() == probing
                &&& r.1 is Probe
                &&& r.1->Probe_0@ == probing.candidate_seq()[probing.result_seq().len() as int].url@
            },
            probing.finished() ==> {
                &&& r.0.phase_spec() == Phase::Finished
                &&& r.1 is Answer
                &&& r.1->Answer_0.requested_url@ == href@
                &&& r.1->Answer_0.results@ == probing.result_seq()
            },
    {
        match probing.next_candidate() {
            Some(c) => {
                let url = c.url.clone();
                (Session { phase: Phase::Probing, href, probing }, Next::Probe(url))
            },
            None => {
                let answer = final_response(href.as_str(), probing);
                let rest = Aggregation::new(Vec::new());
                (Session { phase: Phase::Finished, href, probing: rest }, Next::Answer(answer))
            },
        }
    }

    /// Takes the DNS safety check's status, `None` where the check failed to
    /// run: a non-zero status refuses the request before any probe; otherwise
    /// the first candidate is probed.
    pub fn on_domain_answer(self, status: Option<u64>) -> (r: (Session, Next))
        ensures
            self.phase_spec() != Phase::AwaitDomain ==> r.1 is Idle && r.0 == self,
            self.phase_spec() == Phase::AwaitDomain && gate_verdict(status) is Err ==> {
                &&& r.0.phase_spec() == Phase::Finished
                &&& r.1 == Next::Reject(gate_verdict(status)->Err_0)
                &&& r.0.probing_spec().result_seq() == self.probing_spec().result_seq()
            },
            self.phase_spec() == Phase::AwaitDomain && gate_verdict(status) is Ok
                && self.probing_spec().result_seq().len() == 0
                && self.probing_spec().candidate_seq().len() > 0 ==> {
                &&& r.0.phase_spec() == Phase::Probing
                &&& r.0.probing_spec() == self.probing_spec()
                &&& r.1 is Probe
                &&& r.1->Probe_0@ == self.probing_spec().candidate_seq()[0].url@
            },
    {
        proof {
            use_type_invariant(&self);
        }
        if self.phase != Phase::AwaitDomain {
            return (self, Next::Idle);
        }
        let Session { phase: _, href, probing } = self;
        match domain_gate(status) {
            Err(e) => (Session { phase: Phase::Finished, href, probing }, Next::Reject(e)),
            Ok(()) => Session::advance(href, probing),
        }
    }

    /// Takes how the probe of the current candidate ended: the next
    /// candidate is probed unless this one is up or none is left, and then
    /// the answer holds the records in probe order.
    pub fn on_probe_done(self, outcome: ProbeOutcome, duration_ms: Option<u64>) -> (r: (
        Session,
        Next,
    ))
        ensures
            self.phase_spec() != Phase::Probing ==> r.1 is Idle && r.0 == self,
            self.phase_spec() == Phase::Probing ==> {
                let cands = self.probing_spec().candidate_seq();
                let done = self.probing_spec().result_seq();
                &&& !self.probing_spec().finished()
                &&& r.1 is Probe || r.1 is Answer
                &&& r.1 is Probe ==> {
                    let now = r.0.probing_spec().result_seq();
                    &&& r.0.phase_spec() == Phase::Probing
                    &&& r.0.href_spec() == self.href_spec()
                    &&& r.0.probing_spec().candidate_seq() == cands
                    &&& now.len() == done.len() + 1
                    &&& now.drop_last() == done
                    &&& is_probe_result(now.last(), cands[done.len() as int], outcome, duration_ms)
                    &&& !is_finished(cands.len(), now)
                    &&& r.1->Probe_0@ == cands[now.len() as int].url@
                }
                &&& r.1 is Answer ==> {
                    let now = r.1->Answer_0.results@;
                    &&& r.0.phase_spec() == Phase::Finished
                    &&& r.1->Answer_0.requested_url@ == self.href_spec()
                    &&& now.len() == done.len() + 1
                    &&& now.drop_last() == done
                    &&& is_probe_result(now.last(), cands[done.len() as int], outcome, duration_ms)
                    &&& is_finished(cands.len(), now)
                }
            },
    {
        proof {
            use_type_invariant(&self);
        }
        if self.phase != Phase::Probing {
            return (self, Next::Idle);
        }
        let Session { phase: _, href, probing } = self;
        let probing = probing.record(outcome, duration_ms);
        Session::advance(href, probing)
    }
}

} // verus!

use vstd::prelude::*;
use crate::candidates::{candidate_list, candidates, candidates_view, registrable_domain_of, Candidate};
use crate::probe::{is_probe_result, probe_result, ProbeOutcome, ProbeResult, ProbeStatus};

verus! {

/// Probing the candidates of one request, one at a time and in order, until
/// one is up or none is left.
pub struct Aggregation {
    candidates: Vec<Candidate>,
    results: Vec<ProbeResult>,
}

/// Whether probing stops after `results`: every candidate has a record, or
/// the last record is up.
pub open spec fn is_finished(n_candidates: nat, results: Seq<ProbeResult>) -> bool {
    results.len() >= n_candidates || (results.len() > 0 && results.last().status
        == ProbeStatus::Up)
}

impl Aggregation {
    /// The candidates, in the order in which they are probed.
    pub closed spec fn candidate_seq(&self) -> Seq<Candidate> {
        self.candidates@
    }

    /// The records so far, in probe order.
    pub closed spec fn result_seq(&self) -> Seq<ProbeResult> {
        self.results@
    }

    pub open spec fn finished(&self) -> bool {
        is_finished(self.candidate_seq().len(), self.result_seq())
    }

    /// Each record belongs to the candidate at its position, and every record
    /// but the last is down.
    pub open spec fn well_formed(&self) -> bool {
        &&& self.result_seq().len() <= self.candidate_seq().len()
        &&& forall|i: int|
            0 <= i < self.result_seq().len() ==> (#[trigger] self.result_seq()[i]).url@
                == self.candidate_seq()[i].url@ && self.result_seq()[i].kind
                == self.candidate_seq()[i].kind
        &&& forall|i: int|
            0 <= i < self.result_seq().len() - 1 ==> (#[trigger] self.result_seq()[i]).status
                == ProbeStatus::Down
    }

    #[verifier::type_invariant]
    spec fn inv(&self) -> bool {
        self.well_formed()
    }

    /// Starts probing `candidates`, with no record yet.
    pub fn new(candidates: Vec<Candidate>) -> (r: Aggregation)
        ensures
            r.candidate_seq() == candidates@,
            r.result_seq() == Seq::<ProbeResult>::empty(),
            r.well_formed(),
    {
        Aggregation { candidates, results: Vec::new() }
    }

    /// Whether probing has stopped.
    pub fn is_done(&self) -> (r: bool)
        ensures
            r == self.finished(),
            self.well_formed(),
    {
        proof {
            use_type_invariant(self);
        }
        let n = self.results.len();
        n >= self.candidates.len() || (n > 0 && self.results[n - 1].status == ProbeStatus::Up)
    }

    /// The candidate to probe next, unless probing has stopped.
    pub fn next_candidate(&self) -> (r: Option<&Candidate>)
        ensures
            r is None <==> self.finished(),
            r is Some ==> *r->Some_0 == self.candidate_seq()[self.result_seq().len() as int],
            self.well_formed(),
    {
        if self.is_done() {
            None
        } else {
            Some(&self.candidates[self.results.len()])
        }
    }

    /// Records how the probe of the next candidate ended; once probing has
    /// stopped, nothing changes.
    pub fn record(self, outcome: ProbeOutcome, duration_ms: Option<u64>) -> (r: Aggregation)
        ensures
            self.well_formed(),
            r.well_formed(),
            r.candidate_seq() == self.candidate_seq(),
            self.finished() ==> r.result_seq() == self.result_seq(),
            !self.finished() ==> {
                &&& r.result_seq().len() == self.result_seq().len() + 1
                &&& r.result_seq().drop_last() == self.result_seq()
                &&& is_probe_result(
                    r.result_seq().last(),
                    self.candidate_seq()[self.result_seq().len() as int],
                    outcome,
                    duration_ms,
                )
            },
    {
        proof {
            use_type_invariant(&self);
        }
        if self.is_done() {
            self
        } else {
            let Aggregation { candidates, results } = self;
            let mut results = results;
            let next = probe_result(&candidates[results.len()], outcome, duration_ms);
            results.push(next);
            assert(results@.drop_last() =~= self.results@);
            let r = Aggregation { candidates, results };
            r
        }
    }

    /// The records, in probe order.
    pub fn into_results(self) -> (r: Vec<ProbeResult>)
        ensures
            r@ == self.result_seq(),
    {
        self.results
    }
}

/// Once the host's probe is up no other candidate is probed: the records
/// then hold that one result and probing has stopped.
pub proof fn lemma_short_circuit(a: &Aggregation)
    requires
        a.well_formed(),
        a.result_seq().len() >= 1,
        a.result_seq()[0].status == ProbeStatus::Up,
    ensures
        a.result_seq().len() == 1,
        a.finished(),
{
    if a.result_seq().len() > 1 {
        assert(a.result_seq()[0].status == ProbeStatus::Down);
    }
}

/// Probing stops with at most as many records as candidates, and every
/// candidate is probed unless one is up.
pub proof fn lemma_all_probed_unless_up(a: &Aggregation)
    requires
        a.well_formed(),
        a.finished(),
    ensures
        a.result_seq().len() <= a.candidate_seq().len(),
        a.result_seq().len() < a.candidate_seq().len() ==> a.result_seq().last().status
            == ProbeStatus::Up,
{
}

/// Starts probing the candidates of `host`: its own URL, then that of its
/// registrable domain where that differs.
pub fn start_probing(scheme: &str, host: &str) -> (r: Aggregation)
    ensures
        r.well_formed(),
        candidates_view(r.candidate_seq()) == candidate_list(
            scheme@,
            host@,
            registrable_domain_of(host@),
        ),
        r.result_seq() == Seq::<ProbeResult>::empty(),
{
    Aggregation::new(candidates(scheme, host))
}

/// The answer to a request: the normalised target and the probe records.
#[derive(Clone, Debug)]
pub struct FinalResponse {
    pub requested_url: String,
    pub results: Vec<ProbeResult>,
}

/// The answer for `requested_url` once probing has run.
pub fn final_response(requested_url: &str, a: Aggregation) -> (r: FinalResponse)
    ensures
        r.requested_url@ == requested_url@,
        r.results@ == a.result_seq(),
{
    FinalResponse { requested_url: String::from_str(requested_url), results: a.into_results() }
}

} // verus!

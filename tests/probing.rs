use up_down::{
    add_default_scheme, cache_ttl, candidates, candidates_from, check_dns_answer, dns_query_url,
    domain_gate, final_response, fresh_response, hit_headers, miss_headers, normalize,
    parse_u32, probe_result, served_from_cache, start_probing, status_for_code,
    target_from_parsed, Aggregation, Candidate, CandidateKind, Next, Phase, ProbeOutcome,
    ProbeStatus, RequestError, Session, TargetUrl, DEFAULT_CACHE_TTL,
};

fn header(name: &str, value: &str) -> (String, String) {
    (name.to_string(), value.to_string())
}

fn candidate(url: &str, kind: CandidateKind) -> Candidate {
    Candidate { url: url.to_string(), kind }
}

#[test]
fn bare_host_gets_https() {
    assert_eq!(add_default_scheme("example.com"), "https://example.com");
}

#[test]
fn bare_host_starting_with_http_gets_https() {
    assert_eq!(add_default_scheme("httpbin.org"), "https://httpbin.org");
    assert_eq!(add_default_scheme("http.example"), "https://http.example");
    let t = normalize("httpbin.org").unwrap();
    assert_eq!(t.href, "https://httpbin.org/");
    assert_eq!(t.host.as_deref(), Some("httpbin.org"));
}

#[test]
fn scheme_in_any_case_is_kept() {
    assert_eq!(add_default_scheme("HTTPS://example.com"), "HTTPS://example.com");
    assert_eq!(add_default_scheme("Http://example.com"), "Http://example.com");
    assert_eq!(normalize("HTTPS://example.com").unwrap().href, "https://example.com/");
}

#[test]
fn absolute_url_is_kept() {
    assert_eq!(add_default_scheme("https://example.com"), "https://example.com");
    assert_eq!(add_default_scheme("http://example.com/a?b=c"), "http://example.com/a?b=c");
}

#[test]
fn default_scheme_is_idempotent() {
    let once = add_default_scheme("sub.example.co.uk/path");
    assert_eq!(add_default_scheme(&once), once);
}

#[test]
fn normalize_bare_host() {
    let t = normalize("example.com").unwrap();
    assert_eq!(t.scheme, "https");
    assert_eq!(t.host.as_deref(), Some("example.com"));
    assert_eq!(t.href, "https://example.com/");
}

#[test]
fn normalize_is_idempotent_on_its_output() {
    let t = normalize("Example.COM/a").unwrap();
    let again = normalize(&t.href).unwrap();
    assert_eq!(again.href, t.href);
    assert_eq!(again.host, t.host);
}

#[test]
fn normalize_rejects_unparsable() {
    assert_eq!(normalize("").unwrap_err(), RequestError::InvalidUrl);
    assert_eq!(normalize("https://exa mple.com").unwrap_err(), RequestError::InvalidUrl);
}

#[test]
fn parsed_without_host_is_missing_host() {
    let t = TargetUrl {
        scheme: "mailto".to_string(),
        host: None,
        href: "mailto:someone@example.com".to_string(),
    };
    assert_eq!(target_from_parsed(Some(t)).unwrap_err(), RequestError::MissingHost);
    assert_eq!(target_from_parsed(None).unwrap_err(), RequestError::InvalidUrl);
}

#[test]
fn normalize_absolute_url_with_host() {
    let t = normalize("http://sub.example.co.uk/x?y=1").unwrap();
    assert_eq!(t.scheme, "http");
    assert_eq!(t.host.as_deref(), Some("sub.example.co.uk"));
    assert_eq!(t.href, "http://sub.example.co.uk/x?y=1");
}

#[test]
fn registrable_host_gives_one_candidate() {
    let c = candidates("https", "example.com");
    assert_eq!(c.len(), 1);
    assert_eq!(c[0].url, "https://example.com");
    assert_eq!(c[0].kind, CandidateKind::Host);
}

#[test]
fn subdomain_gives_host_then_domain() {
    let c = candidates("https", "sub.example.co.uk");
    assert_eq!(c.len(), 2);
    assert_eq!(c[0].url, "https://sub.example.co.uk");
    assert_eq!(c[0].kind, CandidateKind::Host);
    assert_eq!(c[1].url, "https://example.co.uk");
    assert_eq!(c[1].kind, CandidateKind::Domain);
}

#[test]
fn host_without_registrable_domain_gives_one_candidate() {
    let c = candidates("http", "localhost");
    assert_eq!(c.len(), 1);
    assert_eq!(c[0].url, "http://localhost");
}

#[test]
fn candidates_from_given_domain() {
    assert_eq!(candidates_from("https", "a.b.com", None).len(), 1);
    assert_eq!(candidates_from("https", "b.com", Some("b.com")).len(), 1);
    let c = candidates_from("http", "a.b.com", Some("b.com"));
    assert_eq!(c.len(), 2);
    assert_eq!(c[1].url, "http://b.com");
    assert_eq!(c[1].kind, CandidateKind::Domain);
}

#[test]
fn kind_and_status_names() {
    assert_eq!(CandidateKind::Host.as_str(), "host");
    assert_eq!(CandidateKind::Domain.as_str(), "domain");
    assert_eq!(ProbeStatus::Up.as_str(), "UP");
    assert_eq!(ProbeStatus::Down.as_str(), "DOWN");
}

#[test]
fn status_code_bounds() {
    assert_eq!(status_for_code(199), ProbeStatus::Down);
    assert_eq!(status_for_code(200), ProbeStatus::Up);
    assert_eq!(status_for_code(301), ProbeStatus::Up);
    assert_eq!(status_for_code(399), ProbeStatus::Up);
    assert_eq!(status_for_code(400), ProbeStatus::Down);
    assert_eq!(status_for_code(503), ProbeStatus::Down);
}

#[test]
fn response_outcome_record() {
    let c = candidate("https://example.com", CandidateKind::Host);
    let r = probe_result(&c, ProbeOutcome::Response(404), None);
    assert_eq!(r.status, ProbeStatus::Down);
    assert_eq!(r.status_code, Some(404));
    assert_eq!(r.status_text, "");
    assert_eq!(r.url, "https://example.com");
    assert_eq!(r.kind, CandidateKind::Host);
    assert_eq!(r.duration_ms, None);
}

#[test]
fn transport_error_record() {
    let c = candidate("https://example.com", CandidateKind::Domain);
    let r = probe_result(&c, ProbeOutcome::TransportError("connection refused".to_string()), Some(5));
    assert_eq!(r.status, ProbeStatus::Down);
    assert_eq!(r.status_code, None);
    assert_eq!(r.status_text, "Fetch to origin error: connection refused");
    assert_eq!(r.kind, CandidateKind::Domain);
    assert_eq!(r.duration_ms, Some(5));
}

#[test]
fn timeout_record() {
    let c = candidate("https://slow.example", CandidateKind::Host);
    let r = probe_result(&c, ProbeOutcome::TimedOut, None);
    assert_eq!(r.status, ProbeStatus::Down);
    assert_eq!(r.status_code, None);
    assert_eq!(r.status_text, "Request to origin timed-out after 60 secs.");
}

fn two_candidates() -> Vec<Candidate> {
    vec![
        candidate("https://sub.example.co.uk", CandidateKind::Host),
        candidate("https://example.co.uk", CandidateKind::Domain),
    ]
}

#[test]
fn host_up_short_circuits() {
    let a = Aggregation::new(two_candidates());
    assert_eq!(a.next_candidate().unwrap().url, "https://sub.example.co.uk");
    let a = a.record(ProbeOutcome::Response(200), None);
    assert!(a.is_done());
    assert!(a.next_candidate().is_none());
    let results = a.into_results();
    assert_eq!(results.len(), 1);
    assert_eq!(results[0].status, ProbeStatus::Up);
}

#[test]
fn host_down_probes_domain() {
    let a = Aggregation::new(two_candidates());
    let a = a.record(ProbeOutcome::TimedOut, None);
    assert!(!a.is_done());
    assert_eq!(a.next_candidate().unwrap().kind, CandidateKind::Domain);
    let a = a.record(ProbeOutcome::Response(204), None);
    assert!(a.is_done());
    let results = a.into_results();
    assert_eq!(results.len(), 2);
    assert_eq!(results[0].status, ProbeStatus::Down);
    assert_eq!(results[1].status, ProbeStatus::Up);
    assert_eq!(results[1].url, "https://example.co.uk");
}

#[test]
fn all_down_probes_all() {
    let a = Aggregation::new(two_candidates());
    let a = a.record(ProbeOutcome::Response(500), None);
    let a = a.record(ProbeOutcome::TransportError("reset".to_string()), None);
    assert!(a.is_done());
    let a = a.record(ProbeOutcome::Response(200), None);
    let results = a.into_results();
    assert_eq!(results.len(), 2);
    assert_eq!(results[1].status_text, "Fetch to origin error: reset");
}

#[test]
fn gate_fails_open_without_status() {
    assert_eq!(domain_gate(None), Ok(()));
    assert_eq!(check_dns_answer("not json"), Ok(()));
    assert_eq!(check_dns_answer("{\"Answer\": []}"), Ok(()));
}

#[test]
fn gate_passes_status_zero() {
    assert_eq!(domain_gate(Some(0)), Ok(()));
    assert_eq!(check_dns_answer("{\"Status\": 0, \"TC\": false}"), Ok(()));
}

#[test]
fn gate_refuses_nonzero_status() {
    assert_eq!(domain_gate(Some(3)), Err(RequestError::DomainCheckFailed(3)));
    let e = check_dns_answer("{\"Status\": 2}").unwrap_err();
    assert_eq!(e, RequestError::DomainCheckFailed(2));
    assert_eq!(e.http_status(), 400);
    assert_eq!(e.message(), "Request does not pass domain check [2].");
    assert_eq!(
        RequestError::DomainCheckFailed(1234).message(),
        "Request does not pass domain check [1234]."
    );
}

#[test]
fn error_messages() {
    assert_eq!(RequestError::MissingHost.message(), "Host is missing.");
    assert_eq!(RequestError::MissingHost.http_status(), 500);
    assert_eq!(RequestError::InvalidUrl.http_status(), 500);
    assert_eq!(RequestError::InvalidUrl.message(), "Invalid URL.");
}

#[test]
fn dns_query_for_host() {
    assert_eq!(
        dns_query_url("example.com"),
        "https://cloudflare-dns.com/dns-query?name=example.com"
    );
}

#[test]
fn ttl_defaults_and_parses() {
    assert_eq!(DEFAULT_CACHE_TTL, 600);
    assert_eq!(cache_ttl(None), 600);
    assert_eq!(cache_ttl(Some("300")), 300);
    assert_eq!(cache_ttl(Some("+7")), 7);
    assert_eq!(cache_ttl(Some("abc")), 600);
    assert_eq!(cache_ttl(Some("")), 600);
    assert_eq!(cache_ttl(Some("-1")), 600);
    assert_eq!(cache_ttl(Some("4294967296")), 600);
    assert_eq!(cache_ttl(Some("4294967295")), 4294967295);
}

#[test]
fn parse_u32_matches_std() {
    for s in ["0", "007", "+", "1 ", "99999999999", "42", "+0", "++1"] {
        assert_eq!(parse_u32(s), s.parse::<u32>().ok());
    }
}

#[test]
fn miss_headers_carry_ttl() {
    assert_eq!(
        miss_headers(600),
        vec![header("Cache-Control", "max-age=600"), header("X-Worker-Cache", "MISS")]
    );
    assert_eq!(miss_headers(0)[0].1, "max-age=0");
}

#[test]
fn hit_headers_replace_cache_status() {
    let stored = vec![
        header("content-type", "application/json"),
        header("x-worker-cache", "MISS"),
        header("cache-control", "max-age=600"),
    ];
    assert_eq!(
        hit_headers(&stored),
        vec![
            header("content-type", "application/json"),
            header("cache-control", "max-age=600"),
            header("X-Worker-Cache", "HIT"),
        ]
    );
}

#[test]
fn second_request_is_a_hit_with_same_body() {
    let body = "{\"requested_url\":\"https://example.com/\",\"results\":[]}".to_string();
    let first = fresh_response(body.clone(), 600);
    assert_eq!(first.status, 200);
    assert_eq!(first.headers[1], header("X-Worker-Cache", "MISS"));
    let second = served_from_cache(first.clone());
    assert_eq!(second.body, body);
    assert_eq!(second.status, 200);
    assert_eq!(
        second.headers,
        vec![header("Cache-Control", "max-age=600"), header("X-Worker-Cache", "HIT")]
    );
}

#[test]
fn end_to_end_example_com() {
    let target = normalize("example.com").unwrap();
    assert_eq!(target.href, "https://example.com/");
    let host = target.host.clone().unwrap();
    let a = start_probing(&target.scheme, &host);
    let next = a.next_candidate().unwrap().clone();
    assert_eq!(next.url, "https://example.com");
    assert_eq!(next.kind, CandidateKind::Host);
    let a = a.record(ProbeOutcome::Response(200), Some(37));
    assert!(a.next_candidate().is_none());
    let response = final_response(&target.href, a);
    assert_eq!(response.requested_url, "https://example.com/");
    assert_eq!(response.results.len(), 1);
    let r = &response.results[0];
    assert_eq!(r.kind.as_str(), "host");
    assert_eq!(r.url, "https://example.com");
    assert_eq!(r.status.as_str(), "UP");
    assert_eq!(r.status_code, Some(200));
    assert_eq!(r.status_text, "");
    assert_eq!(r.duration_ms, Some(37));
    assert_eq!(miss_headers(600)[1], header("X-Worker-Cache", "MISS"));
}

#[test]
fn session_cache_hit_serves_stored_and_stops() {
    let s = Session::start("https", "example.com", "https://example.com/");
    assert_eq!(s.phase(), Phase::AwaitCache);
    let stored = fresh_response("{}".to_string(), 600);
    let (s, next) = s.on_cache_answer(Some(stored));
    assert_eq!(s.phase(), Phase::Finished);
    match next {
        Next::Serve(r) => {
            assert_eq!(r.body, "{}");
            assert_eq!(r.headers[1], header("X-Worker-Cache", "HIT"));
        }
        other => panic!("expected a served hit, got {:?}", other),
    }
    let (s, next) = s.on_domain_answer(None);
    assert!(matches!(next, Next::Idle));
    let (_, next) = s.on_probe_done(ProbeOutcome::Response(200), None);
    assert!(matches!(next, Next::Idle));
}

#[test]
fn session_domain_refusal_stops_before_probing() {
    let s = Session::start("https", "example.com", "https://example.com/");
    let (s, next) = s.on_cache_answer(None);
    assert!(matches!(next, Next::CheckDomain));
    assert_eq!(s.phase(), Phase::AwaitDomain);
    let (s, next) = s.on_domain_answer(Some(3));
    assert_eq!(s.phase(), Phase::Finished);
    match next {
        Next::Reject(e) => {
            assert_eq!(e, RequestError::DomainCheckFailed(3));
            assert_eq!(e.http_status(), 400);
            assert_eq!(e.message(), "Request does not pass domain check [3].");
        }
        other => panic!("expected a refusal, got {:?}", other),
    }
    let (_, next) = s.on_probe_done(ProbeOutcome::Response(200), None);
    assert!(matches!(next, Next::Idle));
}

#[test]
fn session_failed_dns_check_goes_on_to_probe() {
    let s = Session::start("https", "sub.example.co.uk", "https://sub.example.co.uk/");
    let (s, _) = s.on_cache_answer(None);
    let (s, next) = s.on_domain_answer(None);
    assert_eq!(s.phase(), Phase::Probing);
    match next {
        Next::Probe(url) => assert_eq!(url, "https://sub.example.co.uk"),
        other => panic!("expected a probe, got {:?}", other),
    }
    let (s, next) = s.on_probe_done(ProbeOutcome::TimedOut, None);
    match next {
        Next::Probe(url) => assert_eq!(url, "https://example.co.uk"),
        other => panic!("expected a second probe, got {:?}", other),
    }
    let (s, next) = s.on_probe_done(ProbeOutcome::Response(200), Some(9));
    assert_eq!(s.phase(), Phase::Finished);
    match next {
        Next::Answer(f) => {
            assert_eq!(f.requested_url, "https://sub.example.co.uk/");
            assert_eq!(f.results.len(), 2);
            assert_eq!(f.results[0].status, ProbeStatus::Down);
            assert_eq!(f.results[1].status, ProbeStatus::Up);
            assert_eq!(f.results[1].kind, CandidateKind::Domain);
        }
        other => panic!("expected the answer, got {:?}", other),
    }
}

#[test]
fn session_host_up_answers_after_one_probe() {
    let s = Session::start("https", "example.com", "https://example.com/");
    let (s, _) = s.on_cache_answer(None);
    let (s, next) = s.on_domain_answer(Some(0));
    assert!(matches!(next, Next::Probe(_)));
    let (_, next) = s.on_probe_done(ProbeOutcome::Response(200), Some(12));
    match next {
        Next::Answer(f) => {
            assert_eq!(f.results.len(), 1);
            assert_eq!(f.results[0].url, "https://example.com");
            assert_eq!(f.results[0].status_code, Some(200));
        }
        other => panic!("expected the answer, got {:?}", other),
    }
}

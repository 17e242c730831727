use vstd::prelude::*;
use vstd::string::*;

use crate::outcome::{passes, reports, Diagnostic, EndpointError, Outcome, ProbeMode};
use crate::service::{
    declared_endpoints, declared_names, lemma_declared_names_distinct, plan_view, service_id,
    Microservice,
};

verus! {

/// The record of probing one microservice.
pub struct ProbeResult {
    /// Identifier of the service, such as `peach-network`.
    pub microservice: String,
    /// Installed version of the service; empty when it is not known.
    pub version: String,
    /// Endpoints that failed, in the order they were probed.
    pub failures: Vec<String>,
    /// Endpoints that behaved as expected, in the order they were probed.
    pub successes: Vec<String>,
    /// Whether every probed endpoint behaved as expected.
    pub is_running: bool,
}

/// The mathematical content of a [`ProbeResult`].
pub struct ProbeResultView {
    pub microservice: Seq<char>,
    pub version: Seq<char>,
    pub failures: Seq<Seq<char>>,
    pub successes: Seq<Seq<char>>,
    pub is_running: bool,
}

/// The character sequences of a list of names.
pub open spec fn names(v: Seq<String>) -> Seq<Seq<char>> {
    v.map_values(|s: String| s@)
}

impl View for ProbeResult {
    type V = ProbeResultView;

    open spec fn view(&self) -> ProbeResultView {
        ProbeResultView {
            microservice: self.microservice@,
            version: self.version@,
            failures: names(self.failures@),
            successes: names(self.successes@),
            is_running: self.is_running,
        }
    }
}

impl ProbeResultView {
    /// A service is reported running exactly when none of its endpoints failed.
    pub open spec fn wf(self) -> bool {
        self.is_running == (self.failures.len() == 0)
    }
}

/// A fresh record for `microservice`: nothing probed, no version known.
pub open spec fn fresh(microservice: Seq<char>) -> ProbeResultView {
    ProbeResultView {
        microservice,
        version: Seq::empty(),
        failures: Seq::empty(),
        successes: Seq::empty(),
        is_running: true,
    }
}

/// `r` after the endpoint `name` was judged healthy or not.
pub open spec fn record(r: ProbeResultView, name: Seq<char>, healthy: bool) -> ProbeResultView {
    if healthy {
        ProbeResultView { successes: r.successes.push(name), ..r }
    } else {
        ProbeResultView { failures: r.failures.push(name), is_running: false, ..r }
    }
}

/// `r` after the first `n` endpoints of `plan` were judged on `outcomes`,
/// one outcome per endpoint, in order.
pub open spec fn run(
    r: ProbeResultView,
    plan: Seq<(Seq<char>, ProbeMode)>,
    outcomes: Seq<Outcome>,
    n: int,
) -> ProbeResultView
    decreases n,
{
    if n <= 0 {
        r
    } else {
        record(run(r, plan, outcomes, n - 1), plan[n - 1].0, passes(outcomes[n - 1], plan[n - 1].1))
    }
}

/// The record of probing `service`, whose installed version is `version`,
/// when its endpoints gave `outcomes` in probing order.
pub open spec fn probed(service: Microservice, version: Seq<char>, outcomes: Seq<Outcome>) -> ProbeResultView {
    run(
        ProbeResultView { version, ..fresh(service_id(service)) },
        declared_endpoints(service),
        outcomes,
        declared_endpoints(service).len() as int,
    )
}

impl ProbeResult {
    /// An empty record for `microservice`.
    pub fn new(microservice: String) -> (r: ProbeResult)
        ensures
            r@ == fresh(microservice@),
            r@.wf(),
    {
        let r = ProbeResult {
            microservice,
            failures: Vec::new(),
            successes: Vec::new(),
            is_running: true,
            version: String::new(),
        };
        assert(r@.failures =~= Seq::empty());
        assert(r@.successes =~= Seq::empty());
        r
    }

    /// The installed version for a report: `unknown` when it is not known.
    pub fn version_label(&self) -> (r: String)
        ensures
            r@ == if self.version@.len() == 0 {
                "unknown"@
            } else {
                self.version@
            },
    {
        if self.version.unicode_len() == 0 {
            "unknown".to_string()
        } else {
            self.version.clone()
        }
    }

    /// Appends `name` to the successes or, when `healthy` is false, to the
    /// failures.
    fn append(&mut self, name: &str, healthy: bool)
        ensures
            final(self)@ == record(old(self)@, name@, healthy),
    {
        if healthy {
            self.successes.push(name.to_string());
            assert(names(self.successes@) =~= names(old(self).successes@).push(name@));
        } else {
            self.failures.push(name.to_string());
            self.is_running = false;
            assert(names(self.failures@) =~= names(old(self).failures@).push(name@));
        }
    }
}

/// Probes the microservices and keeps one record per probed service.
pub struct PeachProbe {
    /// One record per probed service, in the order they were probed.
    pub results: Vec<ProbeResult>,
    /// Whether healthy endpoints are reported too.
    pub verbose: bool,
}

impl PeachProbe {
    /// Every record of the run says it is running exactly when it has no failures.
    pub open spec fn wf(&self) -> bool {
        forall|i: int| 0 <= i < self.results@.len() ==> (#[trigger] self.results@[i])@.wf()
    }

    /// A probe with no records yet.
    pub fn new(verbose: bool) -> (p: PeachProbe)
        ensures
            p.results@.len() == 0,
            p.verbose == verbose,
            p.wf(),
    {
        PeachProbe { results: Vec::new(), verbose }
    }

    /// Whether every probed service had all of its endpoints behave as
    /// expected.
    pub fn all_running(&self) -> (r: bool)
        ensures
            r == forall|i: int| 0 <= i < self.results@.len() ==> (#[trigger] self.results@[i])@.failures.len() == 0,
    {
        let mut i: usize = 0;
        while i < self.results.len()
            invariant
                i <= self.results@.len(),
                forall|j: int| 0 <= j < i ==> (#[trigger] self.results@[j])@.failures.len() == 0,
            decreases self.results@.len() - i,
        {
            if self.results[i].failures.len() != 0 {
                return false;
            }
            i = i + 1;
        }
        true
    }

    /// Records the outcome of a plain endpoint: healthy when the call
    /// succeeded, failed on any error.
    pub fn probe_peach_endpoint<T>(
        &mut self,
        endpoint_result: Result<T, EndpointError>,
        endpoint_name: &str,
        result: &mut ProbeResult,
    ) -> (d: Option<Diagnostic>)
        ensures
            *final(self) == *old(self),
            final(result)@ == record(old(result)@, endpoint_name@, endpoint_result is Ok),
            reports(d, endpoint_name@, ProbeMode::Plain, endpoint_result, old(self).verbose),
    {
        match endpoint_result {
            Ok(_) => {
                result.append(endpoint_name, true);
                if self.verbose {
                    Some(Diagnostic::Online { endpoint: endpoint_name.to_string() })
                } else {
                    None
                }
            },
            Err(error) => {
                result.append(endpoint_name, false);
                Some(Diagnostic::Offline { endpoint: endpoint_name.to_string(), error })
            },
        }
    }

    /// Records the outcome of an endpoint that is healthy only when it refuses
    /// the request with a protocol error of `expected_error_code`.
    pub fn probe_assert_error_endpoint<T>(
        &mut self,
        endpoint_result: Result<T, EndpointError>,
        endpoint_name: &str,
        expected_error_code: i64,
        result: &mut ProbeResult,
    ) -> (d: Option<Diagnostic>)
        ensures
            *final(self) == *old(self),
            final(result)@ == record(
                old(result)@,
                endpoint_name@,
                passes(endpoint_result, ProbeMode::AssertError { expected_code: expected_error_code }),
            ),
            reports(
                d,
                endpoint_name@,
                ProbeMode::AssertError { expected_code: expected_error_code },
                endpoint_result,
                old(self).verbose,
            ),
    {
        match endpoint_result {
            Ok(_) => {
                result.append(endpoint_name, false);
                Some(Diagnostic::ShouldNotSucceed { endpoint: endpoint_name.to_string() })
            },
            Err(error) => {
                let expected = match &error {
                    EndpointError::Protocol { code, .. } => *code == expected_error_code,
                    _ => false,
                };
                if expected {
                    result.append(endpoint_name, true);
                    if self.verbose {
                        Some(Diagnostic::Online { endpoint: endpoint_name.to_string() })
                    } else {
                        None
                    }
                } else {
                    result.append(endpoint_name, false);
                    Some(
                        Diagnostic::UnexpectedError {
                            endpoint: endpoint_name.to_string(),
                            expected_code: expected_error_code,
                            error,
                        },
                    )
                }
            },
        }
    }
}

impl PeachProbe {
    /// Probes `service`: judges the outcome of each of its endpoints, given in
    /// probing order, and adds the service's record to the run.
    /// Returns what each endpoint reports, in the same order.
    pub fn probe_service(&mut self, service: Microservice, version: String, outcomes: Vec<Outcome>) -> (diagnostics: Vec<Option<Diagnostic>>)
        requires
            outcomes.len() == declared_endpoints(service).len(),
        ensures
            old(self).wf() ==> final(self).wf(),
            final(self).results@.last()@.wf(),
            final(self).verbose == old(self).verbose,
            final(self).results@ == old(self).results@.push(final(self).results@.last()),
            final(self).results@.last()@ == probed(service, version@, outcomes@),
            diagnostics@.len() == outcomes@.len(),
            forall|i: int| 0 <= i < outcomes@.len() ==> reports(
                #[trigger] diagnostics@[i],
                declared_endpoints(service)[i].0,
                declared_endpoints(service)[i].1,
                outcomes@[i],
                old(self).verbose,
            ),
    {
        let ghost all = outcomes@;
        let ghost plan_spec = declared_endpoints(service);
        let mut result = ProbeResult::new(service.id());
        result.version = version;
        let ghost base = result@;
        let plan = service.endpoints();
        let mut rest = outcomes;
        let mut diagnostics: Vec<Option<Diagnostic>> = Vec::new();
        let n = plan.len();
        let mut i: usize = 0;
        proof {
            lemma_run_wf(base, plan_spec, all, 0);
        }
        while i < n
            invariant
                *self == *old(self),
                n == plan@.len() == plan_spec.len() == all.len(),
                plan_view(plan@) == plan_spec,
                plan_spec == declared_endpoints(service),
                i <= n,
                rest@ == all.skip(i as int),
                result@ == run(base, plan_spec, all, i as int),
                result@.wf(),
                base.wf(),
                diagnostics@.len() == i,
                forall|j: int| 0 <= j < i ==> reports(
                    #[trigger] diagnostics@[j],
                    plan_spec[j].0,
                    plan_spec[j].1,
                    all[j],
                    self.verbose,
                ),
            decreases n - i,
        {
            let outcome = rest.remove(0);
            assert(outcome == all[i as int]);
            assert(rest@ =~= all.skip(i + 1));
            let entry = &plan[i];
            assert(plan_view(plan@)[i as int] == (entry.name@, entry.mode));
            let name = entry.name.as_str();
            let d = match entry.mode {
                ProbeMode::Plain => self.probe_peach_endpoint(outcome, name, &mut result),
                ProbeMode::AssertError { expected_code } => self.probe_assert_error_endpoint(
                    outcome,
                    name,
                    expected_code,
                    &mut result,
                ),
            };
            diagnostics.push(d);
            i = i + 1;
            proof {
                lemma_run_wf(base, plan_spec, all, i as int);
            }
        }
        self.results.push(result);
        assert(self.results@ =~= old(self).results@.push(self.results@.last()));
        assert forall|j: int| old(self).wf() && 0 <= j < self.results@.len() implies (#[trigger] self.results@[j])@.wf() by {
            if j < old(self).results@.len() {
                assert(self.results@[j] == old(self).results@[j]);
            }
        }
        diagnostics
    }

    /// Probes the statistics service, whose endpoints gave `outcomes`.
    pub fn peach_stats(&mut self, outcomes: Vec<Outcome>) -> (diagnostics: Vec<Option<Diagnostic>>)
        requires
            outcomes.len() == declared_endpoints(Microservice::PeachStats).len(),
        ensures
            old(self).wf() ==> final(self).wf(),
            final(self).results@.last()@.wf(),
            final(self).verbose == old(self).verbose,
            final(self).results@ == old(self).results@.push(final(self).results@.last()),
            final(self).results@.last()@ == probed(Microservice::PeachStats, Seq::empty(), outcomes@),
            diagnostics@.len() == outcomes@.len(),
            forall|i: int| 0 <= i < outcomes@.len() ==> reports(
                #[trigger] diagnostics@[i],
                declared_endpoints(Microservice::PeachStats)[i].0,
                declared_endpoints(Microservice::PeachStats)[i].1,
                outcomes@[i],
                old(self).verbose,
            ),
    {
        self.probe_service(Microservice::PeachStats, String::new(), outcomes)
    }

    /// Probes the network service, whose endpoints gave `outcomes`.
    pub fn peach_network(&mut self, outcomes: Vec<Outcome>) -> (diagnostics: Vec<Option<Diagnostic>>)
        requires
            outcomes.len() == declared_endpoints(Microservice::PeachNetwork).len(),
        ensures
            old(self).wf() ==> final(self).wf(),
            final(self).results@.last()@.wf(),
            final(self).verbose == old(self).verbose,
            final(self).results@ == old(self).results@.push(final(self).results@.last()),
            final(self).results@.last()@ == probed(Microservice::PeachNetwork, Seq::empty(), outcomes@),
            diagnostics@.len() == outcomes@.len(),
            forall|i: int| 0 <= i < outcomes@.len() ==> reports(
                #[trigger] diagnostics@[i],
                declared_endpoints(Microservice::PeachNetwork)[i].0,
                declared_endpoints(Microservice::PeachNetwork)[i].1,
                outcomes@[i],
                old(self).verbose,
            ),
    {
        self.probe_service(Microservice::PeachNetwork, String::new(), outcomes)
    }

    /// Probes the display service, whose installed version is `version`
    /// (empty when unknown) and whose endpoints gave `outcomes`.
    pub fn peach_oled(&mut self, version: String, outcomes: Vec<Outcome>) -> (diagnostics: Vec<Option<Diagnostic>>)
        requires
            outcomes.len() == declared_endpoints(Microservice::PeachOled).len(),
        ensures
            old(self).wf() ==> final(self).wf(),
            final(self).results@.last()@.wf(),
            final(self).verbose == old(self).verbose,
            final(self).results@ == old(self).results@.push(final(self).results@.last()),
            final(self).results@.last()@ == probed(Microservice::PeachOled, version@, outcomes@),
            diagnostics@.len() == outcomes@.len(),
            forall|i: int| 0 <= i < outcomes@.len() ==> reports(
                #[trigger] diagnostics@[i],
                declared_endpoints(Microservice::PeachOled)[i].0,
                declared_endpoints(Microservice::PeachOled)[i].1,
                outcomes@[i],
                old(self).verbose,
            ),
    {
        self.probe_service(Microservice::PeachOled, version, outcomes)
    }
}

/// Judging endpoints one by one keeps a record well formed.
proof fn lemma_run_wf(r: ProbeResultView, plan: Seq<(Seq<char>, ProbeMode)>, outcomes: Seq<Outcome>, n: int)
    requires
        r.wf(),
    ensures
        run(r, plan, outcomes, n).wf(),
    decreases n,
{
    if n > 0 {
        lemma_run_wf(r, plan, outcomes, n - 1);
    }
}

/// Judging endpoints one by one from empty lists files each endpoint that
/// passed under the successes and each other under the failures.
proof fn lemma_run_members(
    r: ProbeResultView,
    plan: Seq<(Seq<char>, ProbeMode)>,
    outcomes: Seq<Outcome>,
    n: int,
)
    requires
        r.successes.len() == 0,
        r.failures.len() == 0,
        0 <= n <= plan.len(),
        n <= outcomes.len(),
    ensures
        forall|x: Seq<char>| #[trigger] run(r, plan, outcomes, n).successes.contains(x) <==> exists|k: int|
            0 <= k < n && plan[k].0 == x && passes(outcomes[k], plan[k].1),
        forall|x: Seq<char>| #[trigger] run(r, plan, outcomes, n).failures.contains(x) <==> exists|k: int|
            0 <= k < n && plan[k].0 == x && !passes(outcomes[k], plan[k].1),
        run(r, plan, outcomes, n).successes.len() + run(r, plan, outcomes, n).failures.len() == n,
    decreases n,
{
    if n > 0 {
        lemma_run_members(r, plan, outcomes, n - 1);
        let prev = run(r, plan, outcomes, n - 1);
        let cur = run(r, plan, outcomes, n);
        let name = plan[n - 1].0;
        let ok = passes(outcomes[n - 1], plan[n - 1].1);
        assert forall|x: Seq<char>| #[trigger] cur.successes.contains(x) <==> exists|k: int|
            0 <= k < n && plan[k].0 == x && passes(outcomes[k], plan[k].1) by {
            if cur.successes.contains(x) {
                if ok && x == name {
                    assert(0 <= n - 1 < n && plan[n - 1].0 == x && passes(outcomes[n - 1], plan[n - 1].1));
                } else {
                    if ok {
                        let idx = choose|idx: int| 0 <= idx < cur.successes.len() && cur.successes[idx] == x;
                        assert(prev.successes[idx] == x);
                    }
                    assert(prev.successes.contains(x));
                }
            }
            if exists|k: int| 0 <= k < n && plan[k].0 == x && passes(outcomes[k], plan[k].1) {
                let k = choose|k: int| 0 <= k < n && plan[k].0 == x && passes(outcomes[k], plan[k].1);
                if k == n - 1 {
                    assert(cur.successes[cur.successes.len() - 1] == x);
                } else {
                    assert(prev.successes.contains(x));
                    let idx = choose|idx: int| 0 <= idx < prev.successes.len() && prev.successes[idx] == x;
                    assert(cur.successes[idx] == x);
                }
            }
        }
        assert forall|x: Seq<char>| #[trigger] cur.failures.contains(x) <==> exists|k: int|
            0 <= k < n && plan[k].0 == x && !passes(outcomes[k], plan[k].1) by {
            if cur.failures.contains(x) {
                if !ok && x == name {
                    assert(0 <= n - 1 < n && plan[n - 1].0 == x && !passes(outcomes[n - 1], plan[n - 1].1));
                } else {
                    if !ok {
                        let idx = choose|idx: int| 0 <= idx < cur.failures.len() && cur.failures[idx] == x;
                        assert(prev.failures[idx] == x);
                    }
                    assert(prev.failures.contains(x));
                }
            }
            if exists|k: int| 0 <= k < n && plan[k].0 == x && !passes(outcomes[k], plan[k].1) {
                let k = choose|k: int| 0 <= k < n && plan[k].0 == x && !passes(outcomes[k], plan[k].1);
                if k == n - 1 {
                    assert(cur.failures[cur.failures.len() - 1] == x);
                } else {
                    assert(prev.failures.contains(x));
                    let idx = choose|idx: int| 0 <= idx < prev.failures.len() && prev.failures[idx] == x;
                    assert(cur.failures[idx] == x);
                }
            }
        }
    }
}

/// Once a service has been probed, no endpoint is both a success and a
/// failure, and the successes and failures together are exactly the
/// endpoints declared for the service, each filed once.
pub proof fn lemma_probe_partitions(service: Microservice, version: Seq<char>, outcomes: Seq<Outcome>)
    requires
        outcomes.len() == declared_endpoints(service).len(),
    ensures
        forall|x: Seq<char>|
            !(#[trigger] probed(service, version, outcomes).successes.contains(x) && probed(
                service,
                version,
                outcomes,
            ).failures.contains(x)),
        forall|x: Seq<char>|
            #[trigger] declared_names(service).contains(x) <==> (probed(
                service,
                version,
                outcomes,
            ).successes.contains(x) || probed(service, version, outcomes).failures.contains(x)),
        probed(service, version, outcomes).successes.len() + probed(
            service,
            version,
            outcomes,
        ).failures.len() == declared_endpoints(service).len(),
{
    let plan = declared_endpoints(service);
    let base = ProbeResultView { version, ..fresh(service_id(service)) };
    let r = probed(service, version, outcomes);
    let names = declared_names(service);
    lemma_run_members(base, plan, outcomes, plan.len() as int);
    lemma_declared_names_distinct(service);
    assert forall|x: Seq<char>| !(#[trigger] r.successes.contains(x) && r.failures.contains(x)) by {
        if r.successes.contains(x) && r.failures.contains(x) {
            let k1 = choose|k: int| 0 <= k < plan.len() && plan[k].0 == x && passes(outcomes[k], plan[k].1);
            let k2 = choose|k: int| 0 <= k < plan.len() && plan[k].0 == x && !passes(outcomes[k], plan[k].1);
            assert(names[k1] == x && names[k2] == x);
        }
    }
    assert forall|x: Seq<char>| #[trigger] names.contains(x) <==> (r.successes.contains(x) || r.failures.contains(x)) by {
        if names.contains(x) {
            let k = choose|k: int| 0 <= k < names.len() && names[k] == x;
            assert(plan[k].0 == x);
            if passes(outcomes[k], plan[k].1) {
                assert(r.successes.contains(x));
            } else {
                assert(r.failures.contains(x));
            }
        }
        if r.successes.contains(x) {
            let k = choose|k: int| 0 <= k < plan.len() && plan[k].0 == x && passes(outcomes[k], plan[k].1);
            assert(names[k] == x);
        }
        if r.failures.contains(x) {
            let k = choose|k: int| 0 <= k < plan.len() && plan[k].0 == x && !passes(outcomes[k], plan[k].1);
            assert(names[k] == x);
        }
    }
}

/// Judging the same outcome a second time, in the same mode, files the
/// endpoint under the same list as the first time.
pub proof fn lemma_reclassification_agrees<T>(
    r: ProbeResultView,
    name: Seq<char>,
    outcome: Result<T, EndpointError>,
    mode: ProbeMode,
)
    ensures
        ({
            let once = record(r, name, passes(outcome, mode));
            let twice = record(once, name, passes(outcome, mode));
            &&& passes(outcome, mode) ==> once.successes == r.successes.push(name)
                && twice.successes == once.successes.push(name) && twice.failures == r.failures
            &&& !passes(outcome, mode) ==> once.failures == r.failures.push(name)
                && twice.failures == once.failures.push(name) && twice.successes == r.successes
        }),
{
}

} // verus!

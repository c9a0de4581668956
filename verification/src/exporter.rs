//! Outcome tracking and response selection for the HTTP surface.
//!
//! The exporter serves a landing page, a readiness signal backed by the
//! token cache, and the metrics route. Whether a scrape succeeded is
//! recorded as a metric of its own, kept across scrapes, so that the
//! metrics route always has content to serve: a failing scrape is visible
//! in the outcome counter, never as a failing response.

use vstd::prelude::*;
use crate::scrape::{Sample, ScrapeError};
use crate::token::{Token, TokenError, token_usable};

verus! {

/// Whether one scrape attempt succeeded.
#[derive(Clone, Copy, Debug, Hash, PartialEq, Eq)]
pub enum Outcome {
    Success,
    Failure,
}

impl Outcome {
    pub open spec fn spec_encode(&self) -> Seq<char> {
        match self {
            Outcome::Success => "success"@,
            Outcome::Failure => "failure"@,
        }
    }

    /// The label value under which this outcome is exposed.
    pub fn encode(&self) -> (r: &'static str)
        ensures
            r@ == self.spec_encode(),
    {
        match self {
            Outcome::Success => "success",
            Outcome::Failure => "failure",
        }
    }
}

/// The label set of the scrape-status metric: the outcome alone.
#[derive(Clone, Copy, Debug, Hash, PartialEq, Eq)]
pub struct SuccessMetricLabels {
    pub outcome: Outcome,
}

/// A counter bump that wraps, as the underlying atomic counter does.
pub open spec fn spec_bump(c: u64) -> u64 {
    if c == u64::MAX {
        0
    } else {
        (c + 1) as u64
    }
}

/// The scrape-status metric: one counter per outcome. It lives for the
/// whole process, so its counts survive across scrapes.
pub struct SuccessMetric {
    pub success: u64,
    pub failure: u64,
}

/// The counter state after one more scrape with the given outcome.
pub open spec fn spec_record(pre: SuccessMetric, outcome: Outcome) -> SuccessMetric {
    match outcome {
        Outcome::Success => SuccessMetric { success: spec_bump(pre.success), failure: pre.failure },
        Outcome::Failure => SuccessMetric { success: pre.success, failure: spec_bump(pre.failure) },
    }
}

impl SuccessMetric {
    /// Fresh counters: no scrape has been recorded yet.
    pub fn new() -> (r: Self)
        ensures
            r.success == 0,
            r.failure == 0,
    {
        SuccessMetric { success: 0, failure: 0 }
    }

    /// The count recorded for one outcome.
    pub fn get(&self, outcome: Outcome) -> (c: u64)
        ensures
            outcome == Outcome::Success ==> c == self.success,
            outcome == Outcome::Failure ==> c == self.failure,
    {
        match outcome {
            Outcome::Success => self.success,
            Outcome::Failure => self.failure,
        }
    }
}

/// The outcome a scrape result is recorded under.
pub open spec fn spec_outcome_of(scrape_ok: bool) -> Outcome {
    if scrape_ok {
        Outcome::Success
    } else {
        Outcome::Failure
    }
}

/// What the metrics route serves besides the persistent metrics: the
/// recorded outcome, and the domain samples only when the scrape succeeded.
pub struct MetricsOutput {
    pub outcome: Outcome,
    /// The samples of a successful scrape; absent after a failure, when the
    /// persistent metrics are served alone — never a partial snapshot.
    pub domain_samples: Option<Vec<Sample>>,
}

/// Record one scrape attempt and decide what the metrics route serves: on
/// success the fresh snapshot joins the persistent metrics, on failure the
/// persistent metrics stand alone. Every attempt bumps exactly one outcome
/// counter; no scrape outcome prevents a response.
pub fn get_metrics(scrape_result: Result<Vec<Sample>, ScrapeError>, success_metric: &mut
    SuccessMetric) -> (out: MetricsOutput)
    ensures
        out.outcome == spec_outcome_of(scrape_result is Ok),
        scrape_result matches Ok(v) ==> out.domain_samples == Some(v),
        scrape_result is Err ==> out.domain_samples is None,
        *final(success_metric) == spec_record(*old(success_metric), out.outcome),
{
    match scrape_result {
        Ok(samples) => {
            if success_metric.success == u64::MAX {
                success_metric.success = 0;
            } else {
                success_metric.success = success_metric.success + 1;
            }
            MetricsOutput { outcome: Outcome::Success, domain_samples: Some(samples) }
        },
        Err(_) => {
            if success_metric.failure == u64::MAX {
                success_metric.failure = 0;
            } else {
                success_metric.failure = success_metric.failure + 1;
            }
            MetricsOutput { outcome: Outcome::Failure, domain_samples: None }
        },
    }
}

/// The response status of the metrics route: 200 whenever the registries
/// could be encoded, 500 only when encoding itself failed.
pub open spec fn spec_output_status(encode_ok: bool) -> u16 {
    if encode_ok {
        200
    } else {
        500
    }
}

/// The content type of a successful metrics response.
pub fn metrics_content_type() -> (r: &'static str)
    ensures
        r@ == "application/openmetrics-text; version=1.0.0; charset=utf-8"@,
{
    "application/openmetrics-text; version=1.0.0; charset=utf-8"
}

/// Turn the encoded exposition into the metrics response: the text with
/// status 200, or — only when encoding failed — the error with status 500.
pub fn output_metrics(encoded: Result<String, String>) -> (r: (u16, String))
    ensures
        r.0 == spec_output_status(encoded is Ok),
        encoded matches Ok(body) ==> r.1 == body,
        encoded matches Err(msg) ==> r.1@ == "Metrics output failed: "@ + msg@,
{
    match encoded {
        Ok(body) => (200, body),
        Err(msg) => {
            let mut text = String::from_str("Metrics output failed: ");
            text.append(msg.as_str());
            (500, text)
        },
    }
}

/// What the readiness check reports for a given read of the token cache.
pub open spec fn spec_ready_message(usable: bool) -> Result<Seq<char>, Seq<char>> {
    if usable {
        Ok("Ok"@)
    } else {
        Err("Unavailable: "@ + TokenError::NoToken.spec_message())
    }
}

/// Whether the scraper is ready to go: the readiness text when a token
/// read succeeded, the prefixed error text otherwise.
pub fn ready(token_result: Result<String, TokenError>) -> (r: Result<String, String>)
    ensures
        token_result is Ok ==> (r matches Ok(m) && m@ == "Ok"@),
        token_result matches Err(e) ==> (r matches Err(msg) && msg@ == "Unavailable: "@
            + e.spec_message()),
{
    match token_result {
        Ok(_) => Ok(String::from_str("Ok")),
        Err(e) => {
            let mut msg = String::from_str("Unavailable: ");
            msg.append(e.message());
            Err(msg)
        },
    }
}

/// The status route's response for a readiness report.
pub open spec fn spec_status_of(r: Result<Seq<char>, Seq<char>>) -> (u16, Seq<char>) {
    match r {
        Ok(m) => (200, m),
        Err(e) => (503, e),
    }
}

/// The status route: 200 with the readiness text while the scraper is
/// ready, 503 with the error text otherwise.
pub fn status(ready_result: Result<String, String>) -> (r: (u16, String))
    ensures
        ready_result matches Ok(m) ==> r.0 == 200 && r.1 == m,
        ready_result matches Err(e) ==> r.0 == 503 && r.1 == e,
{
    match ready_result {
        Ok(m) => (200, m),
        Err(e) => (503, e),
    }
}

pub open spec fn spec_home_page(name: Seq<char>) -> Seq<char> {
    "<html><head><title>"@ + name + " Exporter</title><body><h1>"@ + name + " Exporter</h1>"@
        + "<br /><p><a href=\"/status\">Exporter status</a></p>"@
        + "<p><a href=\"/metrics\">Metrics</a></p></body></html>"@
}

/// The static landing page: it names the exporter and links the status and
/// metrics routes.
pub fn home_page(name: &str) -> (r: String)
    ensures
        r@ == spec_home_page(name@),
{
    let mut s = String::from_str("<html><head><title>");
    s.append(name);
    s.append(" Exporter</title><body><h1>");
    s.append(name);
    s.append(" Exporter</h1>");
    s.append("<br /><p><a href=\"/status\">Exporter status</a></p>");
    s.append("<p><a href=\"/metrics\">Metrics</a></p></body></html>");
    proof {
        assert(s@ =~= spec_home_page(name@));
    }
    s
}

/// The metrics route is never failed by a failing scrape: every scrape
/// attempt bumps exactly one outcome counter — so the scrape-status metric
/// is always part of the response, and always changes — and the response
/// status is 200 exactly when encoding succeeded, whatever the scrape did.
pub proof fn lemma_metrics_always_served(pre: SuccessMetric, scrape_ok: bool, encode_ok: bool)
    ensures
        spec_output_status(encode_ok) == 200 <==> encode_ok,
        scrape_ok ==> spec_record(pre, spec_outcome_of(scrape_ok)) == (SuccessMetric {
            success: spec_bump(pre.success),
            failure: pre.failure,
        }),
        !scrape_ok ==> spec_record(pre, spec_outcome_of(scrape_ok)) == (SuccessMetric {
            success: pre.success,
            failure: spec_bump(pre.failure),
        }),
        spec_record(pre, spec_outcome_of(scrape_ok)) != pre,
{
}

/// The status route is idempotent: two reads of the same cache state with
/// no refresh in between get the same response, provided the token did not
/// expire between them.
pub proof fn lemma_status_idempotent(slot: Option<Token>, now1: u64, now2: u64)
    requires
        now1 <= now2,
        token_usable(slot, now2) || !token_usable(slot, now1),
    ensures
        spec_status_of(spec_ready_message(token_usable(slot, now1))) == spec_status_of(
            spec_ready_message(token_usable(slot, now2)),
        ),
{
}

} // verus!

//! Requests, decisions and responses exchanged with a human approver.
use vstd::prelude::*;

use crate::text::{opt_view, owned};

verus! {

/// Controls what notice is sent when a provider hits its timeout budget.
///
/// - `Final`: user-visible timeout, the CLI exits with code 2.
/// - `Escalated`: soft timeout during failover; the primary cleans up and
///   the orchestrator hands off to the secondary provider.
#[derive(Debug, Clone, Copy, PartialEq, Eq, Structural)]
pub enum TimeoutKind {
    Final,
    Escalated,
}

impl Default for TimeoutKind {
    fn default() -> (k: Self)
        ensures
            k == TimeoutKind::Final,
    {
        TimeoutKind::Final
    }
}

/// What an approver is asked to decide, and how long each step may take.
pub struct FeedbackRequest {
    pub title: String,
    pub body: String,
    pub timeout_secs: u64,
    pub reject_feedback_timeout_secs: u64,
    pub timeout_kind: TimeoutKind,
}

impl FeedbackRequest {
    /// The same request with another time budget and timeout kind.
    pub fn with_budget(&self, timeout_secs: u64, timeout_kind: TimeoutKind) -> (r: Self)
        ensures
            r.title == self.title,
            r.body == self.body,
            r.reject_feedback_timeout_secs == self.reject_feedback_timeout_secs,
            r.timeout_secs == timeout_secs,
            r.timeout_kind == timeout_kind,
    {
        FeedbackRequest {
            title: self.title.clone(),
            body: self.body.clone(),
            timeout_secs,
            reject_feedback_timeout_secs: self.reject_feedback_timeout_secs,
            timeout_kind,
        }
    }
}

/// The outcome of a request.
#[derive(Debug, Clone, Copy, PartialEq, Eq, Structural)]
pub enum Decision {
    Approved,
    Rejected,
    Timeout,
}

impl Decision {
    /// The lowercase name used in the JSON output: `approved`, `rejected`
    /// or `timeout`.
    pub fn as_str(self) -> (r: &'static str)
        ensures
            r@ == spec_decision_name(self),
    {
        match self {
            Decision::Approved => "approved",
            Decision::Rejected => "rejected",
            Decision::Timeout => "timeout",
        }
    }
}

/// The lowercase name of a decision.
pub open spec fn spec_decision_name(d: Decision) -> Seq<char> {
    match d {
        Decision::Approved => "approved"@,
        Decision::Rejected => "rejected"@,
        Decision::Timeout => "timeout"@,
    }
}

/// A point in time: whole seconds since the Unix epoch and the nanoseconds
/// past that second.
#[derive(Debug, Clone, Copy, PartialEq, Eq, Structural)]
pub struct Timestamp {
    pub secs: i64,
    pub nanos: u32,
}

/// The system clock's reading, carried through opaquely.
#[verifier::external_type_specification]
#[verifier::external_body]
pub struct ExSystemTime(std::time::SystemTime);

/// `std::time::SystemTime::now`: the system clock's reading. It depends on
/// the time, so nothing is said of it.
#[verifier::external_body]
fn system_time_now() -> std::time::SystemTime {
    std::time::SystemTime::now()
}

/// `std::time::SystemTime::duration_since`, measured from the Unix epoch:
/// the time elapsed since 1970, or `None` when `t` is earlier. Nothing more
/// is said, as it depends on `t`, which is opaque.
#[verifier::external_body]
fn since_unix_epoch(t: &std::time::SystemTime) -> Option<std::time::Duration> {
    match t.duration_since(std::time::UNIX_EPOCH) {
        Ok(d) => Some(d),
        Err(_) => None,
    }
}

/// `std::time::Duration::as_secs`: the whole seconds of a duration. Nothing
/// is said of them, as the duration is opaque.
#[verifier::external_body]
fn duration_secs(d: &std::time::Duration) -> u64 {
    d.as_secs()
}

/// `std::time::Duration::subsec_nanos`: the nanoseconds past the whole
/// seconds, which the documentation says are always below one second.
#[verifier::external_body]
fn duration_subsec_nanos(d: &std::time::Duration) -> (n: u32)
    ensures
        n < 1_000_000_000,
{
    d.subsec_nanos()
}

/// The timestamp of a clock reading of `secs` seconds and `nanos`
/// nanoseconds after the Unix epoch; `None` when the seconds leave the
/// range of an `i64`.
pub fn timestamp_from(secs: u64, nanos: u32) -> (t: Option<Timestamp>)
    ensures
        secs <= i64::MAX ==> t == Some(Timestamp { secs: secs as i64, nanos }),
        secs > i64::MAX ==> t is None,
{
    if secs > i64::MAX as u64 {
        None
    } else {
        Some(Timestamp { secs: secs as i64, nanos })
    }
}

/// The current time from the system clock, as `timestamp_from` gives it
/// for the clock's reading; `None` when the clock reads before the Unix
/// epoch or so far after it that the seconds leave the range of an `i64`.
pub fn now() -> (t: Option<Timestamp>)
    ensures
        t matches Some(ts) ==> ts.secs >= 0 && ts.nanos < 1_000_000_000,
{
    let clock = system_time_now();
    match since_unix_epoch(&clock) {
        Some(d) => timestamp_from(duration_secs(&d), duration_subsec_nanos(&d)),
        None => None,
    }
}

/// The answer to a request.
pub struct FeedbackResponse {
    pub decision: Decision,
    pub user: String,
    pub user_id: i64,
    pub feedback: Option<String>,
    pub timestamp: Timestamp,
    pub request_title: String,
    /// Which provider actually produced this response.
    pub provider: Option<String>,
    /// If the decision came from a secondary provider after the primary
    /// escalated, the primary provider name is recorded here.
    pub escalated_from: Option<String>,
}

/// The process exit code that signals a decision.
pub open spec fn spec_exit_code(d: Decision) -> i32 {
    match d {
        Decision::Approved => 0,
        Decision::Rejected => 1,
        Decision::Timeout => 2,
    }
}

/// Whether `r` is the timeout answer to the request titled `title`, taken
/// at `timestamp`: no user, user id 0, no feedback, no provider and no
/// escalation recorded.
pub open spec fn is_timeout_response(r: FeedbackResponse, title: Seq<char>, timestamp: Timestamp) -> bool {
    &&& r.decision == Decision::Timeout
    &&& r.user@ == Seq::<char>::empty()
    &&& r.user_id == 0
    &&& r.feedback is None
    &&& r.timestamp == timestamp
    &&& r.request_title@ == title
    &&& r.provider is None
    &&& r.escalated_from is None
}

/// Whether `r` records `decision` by `user` (id `user_id`) with `feedback`
/// on the request titled `title`, produced by `provider` at `timestamp`,
/// with no escalation recorded.
pub open spec fn is_decided_response(
    r: FeedbackResponse,
    decision: Decision,
    user: Seq<char>,
    user_id: i64,
    feedback: Option<Seq<char>>,
    title: Seq<char>,
    provider: Seq<char>,
    timestamp: Timestamp,
) -> bool {
    &&& r.decision == decision
    &&& r.user@ == user
    &&& r.user_id == user_id
    &&& opt_view(r.feedback) == feedback
    &&& r.timestamp == timestamp
    &&& r.request_title@ == title
    &&& opt_view(r.provider) == Some(provider)
    &&& r.escalated_from is None
}

impl FeedbackResponse {
    /// The timeout answer to the request titled `title`, at `timestamp`.
    pub fn timeout_at(title: &str, timestamp: Timestamp) -> (r: Self)
        ensures
            is_timeout_response(r, title@, timestamp),
    {
        FeedbackResponse {
            decision: Decision::Timeout,
            user: String::new(),
            user_id: 0,
            feedback: None,
            timestamp,
            request_title: owned(title),
            provider: None,
            escalated_from: None,
        }
    }

    /// The timeout answer to the request titled `title`, stamped with the
    /// current time; `None` when the clock cannot give it (see `now`).
    pub fn timeout(title: &str) -> (r: Option<Self>)
        ensures
            r matches Some(resp) ==> is_timeout_response(resp, title@, resp.timestamp)
                && resp.timestamp.secs >= 0 && resp.timestamp.nanos < 1_000_000_000,
    {
        match now() {
            Some(ts) => Some(Self::timeout_at(title, ts)),
            None => None,
        }
    }

    /// A decision taken by an approver, reported by `provider`.
    pub fn decided(
        decision: Decision,
        user: String,
        user_id: i64,
        feedback: Option<String>,
        title: &str,
        provider: &str,
        timestamp: Timestamp,
    ) -> (r: Self)
        ensures
            is_decided_response(
                r,
                decision,
                user@,
                user_id,
                opt_view(feedback),
                title@,
                provider@,
                timestamp,
            ),
    {
        FeedbackResponse {
            decision,
            user,
            user_id,
            feedback,
            timestamp,
            request_title: owned(title),
            provider: Some(owned(provider)),
            escalated_from: None,
        }
    }

    /// The same response, reported by `provider`.
    pub fn with_provider(self, provider: &str) -> (r: Self)
        ensures
            r.decision == self.decision,
            r.user == self.user,
            r.user_id == self.user_id,
            r.feedback == self.feedback,
            r.timestamp == self.timestamp,
            r.request_title == self.request_title,
            opt_view(r.provider) == Some(provider@),
            r.escalated_from == self.escalated_from,
    {
        let mut r = self;
        r.provider = Some(owned(provider));
        r
    }

    /// The exit code that signals this response: 0 approved, 1 rejected,
    /// 2 timeout.
    pub fn exit_code(&self) -> (code: i32)
        ensures
            code == spec_exit_code(self.decision),
    {
        match self.decision {
            Decision::Approved => 0,
            Decision::Rejected => 1,
            Decision::Timeout => 2,
        }
    }
}

/// Distinct decisions are signalled by distinct exit codes, and the code
/// alone tells whether an approver approved.
pub proof fn lemma_exit_codes_distinguish(a: Decision, b: Decision)
    ensures
        spec_exit_code(a) == spec_exit_code(b) <==> a == b,
        spec_exit_code(a) == 0 <==> a == Decision::Approved,
        0 <= spec_exit_code(a) <= 2,
{
}

} // verus!

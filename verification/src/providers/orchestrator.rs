//! Which providers carry a request, with what budget each, and what is
//! reported when the primary escalates to the secondary.
use vstd::prelude::*;

use super::{build, built_from, spec_build, BuiltProvider};
use crate::config::{spec_check_provider, spec_validate, Config, ConfigError, ConfigErrorView};
use crate::text::{opt_view, owned};
use crate::types::{Decision, FeedbackRequest, FeedbackResponse, TimeoutKind};

verus! {

/// The providers to use: the primary first, and optionally a secondary
/// that takes over when the primary's budget runs out.
pub struct Plan {
    pub primary: BuiltProvider,
    pub primary_name: String,
    pub secondary: Option<BuiltProvider>,
    pub secondary_name: Option<String>,
    /// How long to wait on the primary before escalating (0 when there is
    /// no secondary).
    pub escalate_after_secs: u64,
}

/// How long to wait on the primary before escalating: the configured
/// delay, else half of `default_timeout`, and at least one second.
pub open spec fn spec_escalate_after(cfg: &Config) -> u64 {
    let after = match cfg.escalate_after_secs {
        Some(a) => a,
        None => (cfg.default_timeout / 2) as u64,
    };
    if after < 1 {
        1
    } else {
        after
    }
}

/// Whether `p` is the plan for `cfg`, with primary `primary`, the given
/// secondary, and escalation delay `after`.
pub open spec fn plan_is(p: Plan, cfg: &Config, primary: Seq<char>, secondary: Option<Seq<char>>, after: u64) -> bool {
    &&& p.primary_name@ == primary
    &&& built_from(p.primary, cfg, primary)
    &&& opt_view(p.secondary_name) == secondary
    &&& p.escalate_after_secs == after
    &&& match secondary {
        Some(s) => p.secondary matches Some(b) && built_from(b, cfg, s),
        None => p.secondary is None,
    }
}

/// Whether `r` is the given plan, or the error of a machine that cannot
/// provide an HTTP client.
pub open spec fn plan_or_client_error(
    r: Result<Plan, ConfigError>,
    cfg: &Config,
    primary: Seq<char>,
    secondary: Option<Seq<char>>,
    after: u64,
) -> bool {
    match r {
        Ok(p) => plan_is(p, cfg, primary, secondary, after),
        Err(e) => e@ == ConfigErrorView::HttpClientUnavailable,
    }
}

/// What planning gives: the plan it builds, or the error it stops at. Only
/// a machine that cannot provide an HTTP client makes it fail beyond the
/// configuration's own errors.
pub open spec fn spec_plan(cfg: &Config, override_primary: Option<Seq<char>>, r: Result<Plan, ConfigError>) -> bool {
    match override_primary {
        Some(name) => match spec_check_provider(cfg, name) {
            Err(e) => r matches Err(x) && x@ == e,
            Ok(_) => plan_or_client_error(r, cfg, name, None, 0),
        },
        None => match spec_build(cfg, cfg.default_provider@) {
            Err(e) => r matches Err(x) && x@ == e,
            Ok(_) => match cfg.failover_provider {
                None => plan_or_client_error(r, cfg, cfg.default_provider@, None, 0),
                Some(fp) => match spec_build(cfg, fp@) {
                    Err(e) => r matches Err(x) && (x@ == e || x@
                        == ConfigErrorView::HttpClientUnavailable),
                    Ok(_) => plan_or_client_error(
                        r,
                        cfg,
                        cfg.default_provider@,
                        Some(fp@),
                        spec_escalate_after(cfg),
                    ),
                },
            },
        },
    }
}

/// Decides which providers carry a request.
///
/// - If `override_primary` is set, only that provider runs (no failover).
/// - Otherwise, `default_provider` is the primary and `failover_provider`
///   the optional secondary.
pub fn plan(config: &Config, override_primary: Option<&str>) -> (r: Result<Plan, ConfigError>)
    ensures
        spec_plan(
            config,
            match override_primary {
                Some(n) => Some(n@),
                None => None,
            },
            r,
        ),
{
    if let Some(name) = override_primary {
        let checked = config.validate_provider(name);
        if let Err(e) = checked {
            return Err(e);
        }
        proof {
            reveal_strlit("telegram");
            reveal_strlit("discord");
            assert("telegram"@.len() != "discord"@.len());
        }
        let primary = match build(name, config) {
            Ok(p) => p,
            Err(e) => return Err(e),
        };
        return Ok(
            Plan {
                primary,
                primary_name: owned(name),
                secondary: None,
                secondary_name: None,
                escalate_after_secs: 0,
            },
        );
    }
    let primary_name = config.default_provider.clone();
    let primary = match build(primary_name.as_str(), config) {
        Ok(p) => p,
        Err(e) => return Err(e),
    };
    match &config.failover_provider {
        Some(fp) => {
            let configured = match config.escalate_after_secs {
                Some(a) => a,
                None => config.default_timeout / 2,
            };
            let after = if configured < 1 {
                1
            } else {
                configured
            };
            let secondary = match build(fp.as_str(), config) {
                Ok(p) => p,
                Err(e) => return Err(e),
            };
            Ok(
                Plan {
                    primary,
                    primary_name,
                    secondary: Some(secondary),
                    secondary_name: Some(fp.clone()),
                    escalate_after_secs: after,
                },
            )
        },
        None => Ok(
            Plan {
                primary,
                primary_name,
                secondary: None,
                secondary_name: None,
                escalate_after_secs: 0,
            },
        ),
    }
}

/// The primary's budget: the escalation delay capped by the total when
/// there is a secondary, else the whole total.
pub open spec fn spec_primary_budget(has_secondary: bool, escalate_after: u64, total: u64) -> u64 {
    if has_secondary {
        if escalate_after < total {
            escalate_after
        } else {
            total
        }
    } else {
        total
    }
}

/// The secondary's budget: whatever the primary left of the total.
pub open spec fn spec_secondary_budget(has_secondary: bool, escalate_after: u64, total: u64) -> u64 {
    (total - spec_primary_budget(has_secondary, escalate_after, total)) as u64
}

/// The timeout kind of the primary: a soft handoff when a secondary
/// waits, else final.
pub open spec fn spec_primary_kind(has_secondary: bool) -> TimeoutKind {
    if has_secondary {
        TimeoutKind::Escalated
    } else {
        TimeoutKind::Final
    }
}

/// `request` with another budget and kind, all else unchanged.
pub open spec fn rebudgeted(r: FeedbackRequest, request: FeedbackRequest, secs: u64, kind: TimeoutKind) -> bool {
    &&& r.title == request.title
    &&& r.body == request.body
    &&& r.reject_feedback_timeout_secs == request.reject_feedback_timeout_secs
    &&& r.timeout_secs == secs
    &&& r.timeout_kind == kind
}

/// What comes after the primary's answer.
pub enum RunStep {
    /// The answer is final.
    Finished(FeedbackResponse),
    /// The primary timed out and a secondary waits: send it this request.
    Escalate(FeedbackRequest),
}

impl Plan {
    /// The primary's budget out of `total_timeout` seconds.
    pub fn primary_budget(&self, total_timeout: u64) -> (b: u64)
        ensures
            b == spec_primary_budget(self.secondary is Some, self.escalate_after_secs, total_timeout),
    {
        if self.secondary.is_some() {
            if self.escalate_after_secs < total_timeout {
                self.escalate_after_secs
            } else {
                total_timeout
            }
        } else {
            total_timeout
        }
    }

    /// The request sent to the primary.
    pub fn primary_request(&self, total_timeout: u64, request: &FeedbackRequest) -> (r: FeedbackRequest)
        ensures
            rebudgeted(
                r,
                *request,
                spec_primary_budget(self.secondary is Some, self.escalate_after_secs, total_timeout),
                spec_primary_kind(self.secondary is Some),
            ),
    {
        let budget = self.primary_budget(total_timeout);
        let kind = if self.secondary.is_some() {
            TimeoutKind::Escalated
        } else {
            TimeoutKind::Final
        };
        request.with_budget(budget, kind)
    }

    /// What follows the primary's answer `resp`: any decision other than a
    /// timeout is final, and so is a timeout when no secondary waits;
    /// otherwise the secondary gets the rest of the budget, as a final
    /// timeout.
    pub fn after_primary(&self, total_timeout: u64, request: &FeedbackRequest, resp: FeedbackResponse) -> (s: RunStep)
        ensures
            resp.decision != Decision::Timeout || self.secondary is None ==> s == RunStep::Finished(
                resp,
            ),
            resp.decision == Decision::Timeout && self.secondary is Some ==> (s matches RunStep::Escalate(
                r,
            ) && rebudgeted(
                r,
                *request,
                spec_secondary_budget(true, self.escalate_after_secs, total_timeout),
                TimeoutKind::Final,
            )),
    {
        if resp.decision != Decision::Timeout || self.secondary.is_none() {
            return RunStep::Finished(resp);
        }
        let primary_budget = self.primary_budget(total_timeout);
        let remaining = total_timeout - primary_budget;
        RunStep::Escalate(request.with_budget(remaining, TimeoutKind::Final))
    }

    /// The secondary's answer, with the primary recorded as the provider it
    /// escalated from (unless the answer already names one).
    pub fn finish_escalated(&self, resp: FeedbackResponse) -> (r: FeedbackResponse)
        ensures
            r.decision == resp.decision,
            r.user == resp.user,
            r.user_id == resp.user_id,
            r.feedback == resp.feedback,
            r.timestamp == resp.timestamp,
            r.request_title == resp.request_title,
            r.provider == resp.provider,
            resp.escalated_from is None ==> opt_view(r.escalated_from) == Some(
                self.primary_name@,
            ),
            resp.escalated_from is Some ==> r.escalated_from == resp.escalated_from,
    {
        let mut r = resp;
        if r.escalated_from.is_none() {
            r.escalated_from = Some(self.primary_name.clone());
        }
        r
    }
}

/// The total budget is split between the providers: the primary never gets
/// more than the total, and with a secondary the two budgets add up to the
/// total; without one the primary owns it all.
pub proof fn lemma_budget_split(has_secondary: bool, escalate_after: u64, total: u64)
    ensures
        spec_primary_budget(has_secondary, escalate_after, total) <= total,
        spec_primary_budget(has_secondary, escalate_after, total) + spec_secondary_budget(
            has_secondary,
            escalate_after,
            total,
        ) == total,
        !has_secondary ==> spec_primary_budget(has_secondary, escalate_after, total) == total,
        has_secondary && escalate_after <= total ==> spec_primary_budget(
            has_secondary,
            escalate_after,
            total,
        ) == escalate_after,
{
}

/// With a validated failover configuration and the configured total
/// budget, the secondary is always left a non-zero budget, provided the
/// total is at least two seconds.
pub proof fn lemma_failover_budget_nonzero(cfg: &Config)
    requires
        spec_validate(cfg) is Ok,
        cfg.failover_provider is Some,
        cfg.default_timeout >= 2,
    ensures
        spec_secondary_budget(true, spec_escalate_after(cfg), cfg.default_timeout) > 0,
        spec_primary_budget(true, spec_escalate_after(cfg), cfg.default_timeout) > 0,
{
}

/// A plan made with an override runs that provider alone; a plan made
/// without one runs the default provider, with the failover provider as
/// the only possible secondary.
pub proof fn lemma_plan_shape(cfg: &Config, override_primary: Option<Seq<char>>, r: Result<Plan, ConfigError>)
    requires
        spec_plan(cfg, override_primary, r),
        r is Ok,
    ensures
        override_primary matches Some(n) ==> r->Ok_0.primary_name@ == n
            && r->Ok_0.secondary is None,
        override_primary is None ==> r->Ok_0.primary_name@ == cfg.default_provider@ && opt_view(
            r->Ok_0.secondary_name,
        ) == opt_view(cfg.failover_provider),
        r->Ok_0.secondary is Some <==> r->Ok_0.secondary_name is Some,
{
}

/// A plan with a secondary waits on the primary for exactly the configured
/// escalation delay when one of at least a second is set; half of
/// `default_timeout` (at least one second) only when none is set; and one
/// second when the configured delay is zero.
pub proof fn lemma_plan_escalation_delay(cfg: &Config, r: Result<Plan, ConfigError>)
    requires
        spec_plan(cfg, None, r),
        r matches Ok(p) && p.secondary is Some,
    ensures
        cfg.escalate_after_secs is Some && cfg.escalate_after_secs->0 >= 1 ==> r->Ok_0.escalate_after_secs
            == cfg.escalate_after_secs->0,
        cfg.escalate_after_secs == Some(0u64) ==> r->Ok_0.escalate_after_secs == 1,
        cfg.escalate_after_secs is None ==> r->Ok_0.escalate_after_secs == (if cfg.default_timeout
            / 2 >= 1 {
            cfg.default_timeout / 2
        } else {
            1
        }),
{
}

} // verus!

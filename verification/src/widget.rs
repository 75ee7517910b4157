//! The response of one request: what the remote side gave, or why it gave
//! nothing, beside the local totals, which are always there.

use vstd::prelude::*;
use crate::activity::log_of;
use crate::activity::read_stats_cache;
use crate::activity::LogRead;
use crate::aggregate::calculate_token_stats;
use crate::aggregate::stats_on;
use crate::aggregate::TokenStats;
use crate::calendar::ends_with_utc_offset;
use crate::calendar::utc_timestamp;
use crate::calendar::CalendarDate;
use crate::credential::CredentialError;
use crate::quota::quota_request;
use crate::quota::QuotaError;
use crate::quota::QuotaRequest;
use crate::quota::UsageApiResponse;
use crate::quota::UsageWindow;
use crate::quota::API_VERSION;
use crate::quota::BEARER_PREFIX;
use crate::quota::USAGE_URL;
use crate::session::cache_after_resolution;
use crate::session::SessionCache;

verus! {

/// One quota window as the widget shows it.
#[derive(Debug, Clone)]
pub struct UsageMetric<U> {
    /// The provider's utilization reading, as it came.
    pub percent: U,
    pub resets_at: String,
}

/// What the widget is given for one request.
#[derive(Debug, Clone)]
pub struct WidgetData<U> {
    pub five_hour: Option<UsageMetric<U>>,
    pub seven_day: Option<UsageMetric<U>>,
    pub seven_day_sonnet: Option<UsageMetric<U>>,
    pub seven_day_opus: Option<UsageMetric<U>>,
    pub token_stats: TokenStats,
    /// When the response was put together.
    pub last_updated: String,
    /// Why there are no quota windows, where the remote side gave none.
    pub error: Option<String>,
}

/// How the remote half of a request ended.
#[derive(Debug, Clone)]
pub enum RemoteOutcome<U> {
    /// No credential could be had, so nothing was fetched.
    CredentialFailed(CredentialError),
    /// The endpoint gave its usage windows.
    Fetched(UsageApiResponse<U>),
    /// The fetch failed.
    FetchFailed(QuotaError),
}

/// A window as the widget shows it: the reading and the reset time, both
/// unchanged.
pub open spec fn metric_of<U>(window: Option<UsageWindow<U>>) -> Option<UsageMetric<U>> {
    match window {
        Some(w) => Some(UsageMetric { percent: w.utilization, resets_at: w.resets_at }),
        None => None,
    }
}

/// The text of the response's error: none where the windows were fetched,
/// else the message of what failed.
pub open spec fn error_of<U>(outcome: RemoteOutcome<U>) -> Option<Seq<char>> {
    match outcome {
        RemoteOutcome::CredentialFailed(error) => Some(error@.hint()),
        RemoteOutcome::Fetched(_) => None,
        RemoteOutcome::FetchFailed(error) => Some(error@.message()),
    }
}

/// Whether the windows and the error of `data` are those that belong to
/// `outcome`: each window that was fetched, and no other; the error's
/// message where nothing was fetched, and then no window at all.
pub open spec fn shows_outcome<U>(data: WidgetData<U>, outcome: RemoteOutcome<U>) -> bool {
    &&& match outcome {
        RemoteOutcome::Fetched(usage) => {
            &&& data.five_hour == metric_of(usage.five_hour)
            &&& data.seven_day == metric_of(usage.seven_day)
            &&& data.seven_day_sonnet == metric_of(usage.seven_day_sonnet)
            &&& data.seven_day_opus == metric_of(usage.seven_day_opus)
        },
        _ => {
            &&& data.five_hour is None
            &&& data.seven_day is None
            &&& data.seven_day_sonnet is None
            &&& data.seven_day_opus is None
        },
    }
    &&& match error_of(outcome) {
        Some(text) => data.error matches Some(message) && message@ == text,
        None => data.error is None,
    }
}

/// Whether an outcome shows that the endpoint refused the credential.
pub open spec fn refuses_credential<U>(outcome: RemoteOutcome<U>) -> bool {
    outcome matches RemoteOutcome::FetchFailed(error) && error@.is_auth_failure()
}

/// What the cache holds after a request that ended with `outcome`: nothing
/// where the credential was refused, else what it held before.
pub open spec fn cache_after_outcome<U>(
    before: Option<Seq<char>>,
    outcome: RemoteOutcome<U>,
) -> Option<Seq<char>> {
    if refuses_credential(outcome) {
        None
    } else {
        before
    }
}

/// Whether `request` is the request that fetches the usage windows with
/// `token`.
pub open spec fn is_request_for(token: Seq<char>, request: QuotaRequest) -> bool {
    &&& request.url@ == USAGE_URL@
    &&& request.authorization@ == BEARER_PREFIX@ + token
    &&& request.api_version@ == API_VERSION@
}

/// The first step of a request: the credential, from the cache or, where
/// the cache is empty, from `resolver`; then the request to send with it.
/// Where no credential can be had, the resolver's error comes back, and the
/// request ends with `RemoteOutcome::CredentialFailed`.
pub fn begin_request<F: FnOnce() -> Result<String, CredentialError>>(
    cache: &mut SessionCache,
    resolver: F,
) -> (step: Result<QuotaRequest, CredentialError>)
    requires
        call_requires(resolver, ()),
    ensures
        match old(cache)@ {
            Some(token) => {
                &&& step matches Ok(request)
                &&& is_request_for(token, request)
                &&& final(cache)@ == old(cache)@
            },
            None => exists|resolved: Result<String, CredentialError>|
                {
                    &&& call_ensures(resolver, (), resolved)
                    &&& final(cache)@ == cache_after_resolution(old(cache)@, resolved)
                    &&& match resolved {
                        Ok(token) => step matches Ok(request) && is_request_for(token@, request),
                        Err(error) => step == Err::<QuotaRequest, CredentialError>(error),
                    }
                },
        },
{
    match cache.get_or_resolve(resolver) {
        Ok(token) => Ok(quota_request(token.as_str())),
        Err(error) => Err(error),
    }
}

/// Drops the cached credential where the endpoint refused it, so that the
/// next request resolves it anew. Every other outcome leaves the cache as
/// it is: a network that is down says nothing about the credential.
pub fn settle<U>(cache: &mut SessionCache, outcome: &RemoteOutcome<U>)
    ensures
        final(cache)@ == cache_after_outcome(old(cache)@, *outcome),
{
    match outcome {
        RemoteOutcome::FetchFailed(error) => {
            if error.is_auth_failure() {
                cache.invalidate();
            }
        },
        _ => {},
    }
}

/// A window as the widget shows it.
fn to_metric<U>(window: Option<UsageWindow<U>>) -> (metric: Option<UsageMetric<U>>)
    ensures
        metric == metric_of(window),
{
    match window {
        Some(w) => Some(UsageMetric { percent: w.utilization, resets_at: w.resets_at }),
        None => None,
    }
}

/// Puts the response together from the outcome of the remote half, the
/// local totals and the time of the response.
pub fn build_response<U>(
    outcome: RemoteOutcome<U>,
    token_stats: TokenStats,
    last_updated: String,
) -> (data: WidgetData<U>)
    ensures
        shows_outcome(data, outcome),
        data.token_stats == token_stats,
        data.last_updated == last_updated,
{
    match outcome {
        RemoteOutcome::Fetched(usage) => WidgetData {
            five_hour: to_metric(usage.five_hour),
            seven_day: to_metric(usage.seven_day),
            seven_day_sonnet: to_metric(usage.seven_day_sonnet),
            seven_day_opus: to_metric(usage.seven_day_opus),
            token_stats,
            last_updated,
            error: None,
        },
        RemoteOutcome::CredentialFailed(error) => WidgetData {
            five_hour: None,
            seven_day: None,
            seven_day_sonnet: None,
            seven_day_opus: None,
            token_stats,
            last_updated,
            error: Some(error.message()),
        },
        RemoteOutcome::FetchFailed(error) => WidgetData {
            five_hour: None,
            seven_day: None,
            seven_day_sonnet: None,
            seven_day_opus: None,
            token_stats,
            last_updated,
            error: Some(error.message()),
        },
    }
}

/// The last step of a request, and the one that always gives a response:
/// whatever the remote half and the reading of the log came to, the widget
/// gets the local totals of the current day, and beside them the quota
/// windows or the reason why there are none.
///
/// The cached credential is dropped where the endpoint refused it. A log
/// that is missing or cannot be used counts as empty. The totals are those
/// of the day that the clock shows, and the response is stamped with the
/// time at which it is put together, after everything else is done, as a
/// text with the offset of UTC.
pub fn get_usage_data<U>(cache: &mut SessionCache, outcome: RemoteOutcome<U>, log: LogRead) -> (data:
    WidgetData<U>)
    ensures
        final(cache)@ == cache_after_outcome(old(cache)@, outcome),
        shows_outcome(data, outcome),
        exists|now: CalendarDate| stats_on(log_of(log), now) == Some(data.token_stats),
        ends_with_utc_offset(data.last_updated@),
{
    settle(cache, &outcome);
    let stats_cache = read_stats_cache(log);
    let token_stats = calculate_token_stats(&stats_cache);
    let now = utc_timestamp();
    build_response(outcome, token_stats, now)
}

/// A response to fetched windows shows each window that the provider
/// reported, with its reading and its reset time unchanged, shows no window
/// that the provider left out, and carries no error. So where only the
/// five-hour window was reported, only that one is shown.
pub proof fn lemma_fetched_windows_pass_through<U>(data: WidgetData<U>, usage: UsageApiResponse<U>)
    requires
        shows_outcome(data, RemoteOutcome::Fetched(usage)),
    ensures
        data.error is None,
        usage.five_hour matches Some(w) ==> data.five_hour matches Some(m) && m.percent
            == w.utilization && m.resets_at == w.resets_at,
        usage.five_hour is None <==> data.five_hour is None,
        usage.seven_day matches Some(w) ==> data.seven_day matches Some(m) && m.percent
            == w.utilization && m.resets_at == w.resets_at,
        usage.seven_day is None <==> data.seven_day is None,
        usage.seven_day_sonnet matches Some(w) ==> data.seven_day_sonnet matches Some(m)
            && m.percent == w.utilization && m.resets_at == w.resets_at,
        usage.seven_day_sonnet is None <==> data.seven_day_sonnet is None,
        usage.seven_day_opus matches Some(w) ==> data.seven_day_opus matches Some(m) && m.percent
            == w.utilization && m.resets_at == w.resets_at,
        usage.seven_day_opus is None <==> data.seven_day_opus is None,
{
}

/// A response to a failure of the remote half shows no window and carries
/// the failure's message.
pub proof fn lemma_failure_shows_error<U>(data: WidgetData<U>, outcome: RemoteOutcome<U>)
    requires
        shows_outcome(data, outcome),
        !(outcome is Fetched),
    ensures
        data.five_hour is None,
        data.seven_day is None,
        data.seven_day_sonnet is None,
        data.seven_day_opus is None,
        data.error matches Some(message) && Some(message@) == error_of(outcome),
{
}

/// A refusal of the credential, status 401 or 403, empties the cache, so
/// that on the next request `get_or_resolve` returns what the resolver
/// returns. No other outcome touches the cache: not a failure of the
/// network, not another status, not a body that does not decode.
pub proof fn lemma_only_refusal_drops_credential<U>(
    before: Option<Seq<char>>,
    outcome: RemoteOutcome<U>,
)
    ensures
        outcome matches RemoteOutcome::FetchFailed(QuotaError::HttpStatus { code, .. }) && (code
            == 401 || code == 403) ==> cache_after_outcome(before, outcome) is None,
        outcome matches RemoteOutcome::FetchFailed(QuotaError::HttpStatus { code, .. }) && code
            != 401 && code != 403 ==> cache_after_outcome(before, outcome) == before,
        outcome matches RemoteOutcome::FetchFailed(QuotaError::Transport { .. })
            ==> cache_after_outcome(before, outcome) == before,
        outcome matches RemoteOutcome::FetchFailed(QuotaError::DecodeError { .. })
            ==> cache_after_outcome(before, outcome) == before,
        outcome is Fetched ==> cache_after_outcome(before, outcome) == before,
        outcome is CredentialFailed ==> cache_after_outcome(before, outcome) == before,
        forall|resolved: Result<String, CredentialError>|
            refuses_credential(outcome) ==> #[trigger] cache_after_resolution(
                cache_after_outcome(before, outcome),
                resolved,
            ) == match resolved {
                Ok(token) => Some(token@),
                Err(_) => None,
            },
{
}

} // verus!

//! The aggregation policy: which providers one dashboard request calls, and
//! how their replies become one composite result.
//!
//! A reply is what the transport handed back for one call: `Ok(body)` with
//! the raw body, whatever the status, or `Err(cause)` when the request did not
//! complete.
use vstd::prelude::*;

use crate::error::{AdapterError, AdapterErrorView, Provider};
use crate::github::{decode_user, user_of, user_url, user_url_spec, zen_url, zen_url_spec, GithubUser, GithubUserView};
use crate::wakatime_client::{decode_stats, stats_of, stats_url, stats_url_spec, WakatimeStats, WakatimeStatsView};

verus! {

/// The life score shown on the dashboard; supplied from outside, not computed.
pub const LIFE_SCORE: u8 = 88;

/// The quote shown when the quote provider could not be reached.
pub open spec fn fallback_quote_spec() -> Seq<char> {
    "Connecting to the matrix..."@
}

/// The quote shown when the quote provider could not be reached.
pub fn fallback_quote() -> (r: String)
    ensures
        r@ == fallback_quote_spec(),
{
    String::from_str("Connecting to the matrix...")
}

/// The mathematical value of a transport reply.
pub open spec fn reply_view(r: Result<String, String>) -> Result<Seq<char>, Seq<char>> {
    match r {
        Ok(b) => Ok(b@),
        Err(c) => Err(c@),
    }
}

/// The mathematical value of a reply that may not have been asked for.
pub open spec fn optional_reply_view(r: Option<Result<String, String>>) -> Option<Result<Seq<char>, Seq<char>>> {
    match r {
        Some(x) => Some(reply_view(x)),
        None => None,
    }
}

/// What the profile provider's reply yields.
pub open spec fn profile_outcome(reply: Result<Seq<char>, Seq<char>>) -> Result<GithubUserView, AdapterErrorView> {
    match reply {
        Err(c) => Err(AdapterErrorView::Transport(c)),
        Ok(b) => match user_of(b) {
            Some(u) => Ok(u),
            None => Err(AdapterErrorView::MalformedResponse),
        },
    }
}

/// What the time-tracking provider's reply yields.
pub open spec fn stats_outcome(reply: Result<Seq<char>, Seq<char>>) -> Result<WakatimeStatsView, AdapterErrorView> {
    match reply {
        Err(c) => Err(AdapterErrorView::Transport(c)),
        Ok(b) => stats_of(b),
    }
}

/// Turns the profile provider's reply into a profile or an error.
pub fn fetch_user_from(reply: Result<String, String>) -> (r: Result<GithubUser, AdapterError>)
    ensures
        match r {
            Ok(u) => profile_outcome(reply_view(reply)) == Ok::<GithubUserView, AdapterErrorView>(u@),
            Err(e) => profile_outcome(reply_view(reply)) == Err::<GithubUserView, AdapterErrorView>(e@),
        },
{
    match reply {
        Err(c) => Err(AdapterError::Transport(c)),
        Ok(b) => decode_user(b.as_str()),
    }
}

/// Turns the time-tracking provider's reply into statistics or an error.
pub fn fetch_coding_hours_from(reply: Result<String, String>) -> (r: Result<WakatimeStats, AdapterError>)
    ensures
        match r {
            Ok(s) => stats_outcome(reply_view(reply)) == Ok::<WakatimeStatsView, AdapterErrorView>(s@),
            Err(e) => stats_outcome(reply_view(reply)) == Err::<WakatimeStatsView, AdapterErrorView>(e@),
        },
{
    match reply {
        Err(c) => Err(AdapterError::Transport(c)),
        Ok(b) => decode_stats(b.as_str()),
    }
}

/// Why a dashboard request was refused.
#[derive(Clone, Copy, Debug, PartialEq, Eq, Structural)]
pub enum RequestError {
    /// The profile handle was empty.
    EmptyUsername,
}

/// One dashboard request: a profile handle and, optionally, a time-tracking
/// key. Without a key the time-tracking provider is not called at all.
pub struct DashboardRequest {
    github_username: String,
    wakatime_key: Option<String>,
}

impl DashboardRequest {
    pub closed spec fn username(&self) -> Seq<char> {
        self.github_username@
    }

    pub closed spec fn key(&self) -> Option<Seq<char>> {
        match self.wakatime_key {
            Some(k) => Some(k@),
            None => None,
        }
    }

    pub open spec fn wf(&self) -> bool {
        self.username().len() > 0
    }

    /// A request for `github_username`; refused when the handle is empty.
    pub fn new(github_username: String, wakatime_key: Option<String>) -> (r: Result<DashboardRequest, RequestError>)
        ensures
            github_username@.len() == 0 <==> r == Err::<DashboardRequest, RequestError>(RequestError::EmptyUsername),
            r matches Ok(q) ==> q.wf() && q.username() == github_username@ && q.key() == match wakatime_key {
                Some(k) => Some(k@),
                None => None::<Seq<char>>,
            },
    {
        if github_username.as_str().is_empty() {
            Err(RequestError::EmptyUsername)
        } else {
            Ok(DashboardRequest { github_username, wakatime_key })
        }
    }

    /// The provider calls this request makes, in the order they are listed.
    pub fn plan(&self) -> (r: Vec<ProviderRequest>)
        ensures
            r@.map_values(|p: ProviderRequest| p@) == planned(self.username(), self.key()),
    {
        let mut v: Vec<ProviderRequest> = Vec::new();
        v.push(ProviderRequest { provider: Provider::Profile, url: user_url(self.github_username.as_str()) });
        v.push(ProviderRequest { provider: Provider::Quote, url: zen_url() });
        match &self.wakatime_key {
            Some(k) => {
                v.push(ProviderRequest { provider: Provider::TimeTracking, url: stats_url(k.as_str()) });
            },
            None => {},
        }
        assert(v@.map_values(|p: ProviderRequest| p@) =~= planned(self.username(), self.key()));
        v
    }
}

/// One call to make: which provider, and the address to fetch.
pub struct ProviderRequest {
    pub provider: Provider,
    pub url: String,
}

impl View for ProviderRequest {
    type V = (Provider, Seq<char>);

    open spec fn view(&self) -> (Provider, Seq<char>) {
        (self.provider, self.url@)
    }
}

/// The calls for a handle and an optional key: the profile and the quote
/// always, the time tracker only when a key is given.
pub open spec fn planned(username: Seq<char>, key: Option<Seq<char>>) -> Seq<(Provider, Seq<char>)> {
    let base = seq![(Provider::Profile, user_url_spec(username)), (Provider::Quote, zen_url_spec())];
    match key {
        Some(k) => base.push((Provider::TimeTracking, stats_url_spec(k))),
        None => base,
    }
}

/// The composite result of one aggregation.
#[derive(Debug)]
pub struct FullDashboardStats {
    pub life_score: u8,
    pub github_user: Option<GithubUser>,
    pub wakatime_stats: Option<WakatimeStats>,
    pub zen_quote: String,
}

/// The mathematical value of a [`FullDashboardStats`].
pub struct DashboardView {
    pub life_score: u8,
    pub github_user: Option<GithubUserView>,
    pub wakatime_stats: Option<WakatimeStatsView>,
    pub zen_quote: Seq<char>,
}

impl View for FullDashboardStats {
    type V = DashboardView;

    open spec fn view(&self) -> DashboardView {
        DashboardView {
            life_score: self.life_score,
            github_user: match self.github_user {
                Some(u) => Some(u@),
                None => None,
            },
            wakatime_stats: match self.wakatime_stats {
                Some(s) => Some(s@),
                None => None,
            },
            zen_quote: self.zen_quote@,
        }
    }
}

/// The dashboard that the three replies give. A failed provider leaves its
/// field empty (the quote falls back to a fixed text); a provider that was
/// not asked (`None`) leaves its field empty too.
pub open spec fn dashboard_of(
    profile: Result<Seq<char>, Seq<char>>,
    stats: Option<Result<Seq<char>, Seq<char>>>,
    quote: Result<Seq<char>, Seq<char>>,
) -> DashboardView {
    DashboardView {
        life_score: LIFE_SCORE,
        github_user: match profile_outcome(profile) {
            Ok(u) => Some(u),
            Err(_) => None,
        },
        wakatime_stats: match stats {
            Some(reply) => match stats_outcome(reply) {
                Ok(s) => Some(s),
                Err(_) => None,
            },
            None => None,
        },
        zen_quote: match quote {
            Ok(q) => q,
            Err(_) => fallback_quote_spec(),
        },
    }
}

/// Assembles the dashboard from the replies of the scheduled providers;
/// `stats` is `None` when the time tracker was not asked. Never fails.
pub fn assemble(
    profile: Result<String, String>,
    stats: Option<Result<String, String>>,
    quote: Result<String, String>,
) -> (r: FullDashboardStats)
    ensures
        r@ == dashboard_of(reply_view(profile), optional_reply_view(stats), reply_view(quote)),
{
    let github_user = match fetch_user_from(profile) {
        Ok(u) => Some(u),
        Err(_) => None,
    };
    let wakatime_stats = match stats {
        Some(reply) => match fetch_coding_hours_from(reply) {
            Ok(s) => Some(s),
            Err(_) => None,
        },
        None => None,
    };
    let zen_quote = match quote {
        Ok(q) => q,
        Err(_) => fallback_quote(),
    };
    FullDashboardStats { life_score: LIFE_SCORE, github_user, wakatime_stats, zen_quote }
}

/// When every provider answers with a body in its expected shape, every field
/// of the dashboard is filled, and the quote is the quote provider's text
/// rather than the fallback (unless that text happens to be the fallback).
pub proof fn lemma_all_sources_populated(profile: Seq<char>, stats: Seq<char>, quote: Seq<char>)
    requires
        user_of(profile) is Some,
        stats_of(stats) is Ok,
        quote != fallback_quote_spec(),
    ensures
        ({
            let d = dashboard_of(Ok(profile), Some(Ok(stats)), Ok(quote));
            &&& d.github_user == user_of(profile)
            &&& d.wakatime_stats == Some(stats_of(stats)->Ok_0)
            &&& d.zen_quote == quote
            &&& d.zen_quote != fallback_quote_spec()
        }),
{
}

/// Each field of the dashboard depends on its own provider's reply alone: the
/// profile is empty exactly when the profile reply failed, the statistics are
/// empty exactly when the tracker was skipped or failed, and the quote is the
/// fallback exactly when the quote reply failed. Whatever fails, a dashboard
/// is produced.
pub proof fn lemma_failures_isolated(
    profile: Result<Seq<char>, Seq<char>>,
    stats: Option<Result<Seq<char>, Seq<char>>>,
    quote: Result<Seq<char>, Seq<char>>,
)
    ensures
        ({
            let d = dashboard_of(profile, stats, quote);
            &&& d.life_score == LIFE_SCORE
            &&& (d.github_user is None <==> profile_outcome(profile) is Err)
            &&& (d.wakatime_stats is None <==> (stats is None || stats_outcome(stats->Some_0) is Err))
            &&& (quote is Err ==> d.zen_quote == fallback_quote_spec())
            &&& (quote matches Ok(q) ==> d.zen_quote == q)
        }),
{
}

/// Without a time-tracking key no call to the time tracker is planned, and
/// the dashboard then has no statistics, whatever the other replies were.
pub proof fn lemma_skip_makes_no_call(
    username: Seq<char>,
    profile: Result<Seq<char>, Seq<char>>,
    quote: Result<Seq<char>, Seq<char>>,
)
    ensures
        forall|i: int| 0 <= i < planned(username, None).len() ==> (#[trigger] planned(username, None)[i]).0 != Provider::TimeTracking,
        dashboard_of(profile, None, quote).wakatime_stats is None,
{
}

/// With a key, exactly one call to the time tracker is planned, to the
/// statistics address for that key.
pub proof fn lemma_key_makes_one_call(username: Seq<char>, key: Seq<char>)
    ensures
        planned(username, Some(key)).len() == 3,
        planned(username, Some(key))[2] == (Provider::TimeTracking, stats_url_spec(key)),
        forall|i: int| 0 <= i < 2 ==> (#[trigger] planned(username, Some(key))[i]).0 != Provider::TimeTracking,
{
}

} // verus!

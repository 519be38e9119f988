//! The coding-time tracking provider: its request and its reply.
use vstd::prelude::*;

use crate::error::{AdapterError, AdapterErrorView};
use crate::json::{
    absent_or_null, decimal, decimal_text, json_len, json_null, json_number, json_parses,
    json_present, json_str, len_at, number_at, str_at, JsonDoc,
};

verus! {

/// One language's part of the tracked time.
#[derive(Debug)]
pub struct Language {
    pub name: String,
    /// Share of the total, 0 to 100, as the decimal text of a JSON number.
    pub percent: String,
    /// Human-readable duration, such as "1 hr 30 mins".
    pub text: String,
}

/// Tracked coding time over the last seven days.
#[derive(Debug)]
pub struct WakatimeStats {
    pub human_readable_total: String,
    /// Total duration in seconds, as the decimal text of a JSON number.
    pub total_seconds: String,
    pub languages: Vec<Language>,
}

/// The mathematical value of a [`Language`].
pub struct LanguageView {
    pub name: Seq<char>,
    pub percent: Seq<char>,
    pub text: Seq<char>,
}

/// The mathematical value of a [`WakatimeStats`].
pub struct WakatimeStatsView {
    pub human_readable_total: Seq<char>,
    pub total_seconds: Seq<char>,
    pub languages: Seq<LanguageView>,
}

impl View for Language {
    type V = LanguageView;

    open spec fn view(&self) -> LanguageView {
        LanguageView { name: self.name@, percent: self.percent@, text: self.text@ }
    }
}

impl View for WakatimeStats {
    type V = WakatimeStatsView;

    open spec fn view(&self) -> WakatimeStatsView {
        WakatimeStatsView {
            human_readable_total: self.human_readable_total@,
            total_seconds: self.total_seconds@,
            languages: self.languages@.map_values(|l: Language| l@),
        }
    }
}

/// The address of the last seven days' statistics for `api_key`.
pub open spec fn stats_url_spec(api_key: Seq<char>) -> Seq<char> {
    "https://wakatime.com/api/v1/users/current/stats/last_7_days?api_key="@ + api_key
}

/// The pointer to field `field` (written "/name") of the `i`-th language entry.
pub open spec fn language_ptr(i: nat, field: Seq<char>) -> Seq<char> {
    "/data/languages/"@ + decimal(i) + field
}

/// The `i`-th language entry, when it has all its fields.
pub open spec fn language_at(text: Seq<char>, i: nat) -> Option<LanguageView> {
    match (
        json_str(text, language_ptr(i, "/name"@)),
        json_number(text, language_ptr(i, "/percent"@)),
        json_str(text, language_ptr(i, "/text"@)),
    ) {
        (Some(name), Some(percent), Some(t)) => Some(LanguageView { name, percent, text: t }),
        _ => None,
    }
}

/// The language breakdown: empty when absent or `null`; otherwise an array
/// whose entries all decode, or else a decode failure (`None`).
pub open spec fn languages_of(text: Seq<char>) -> Option<Seq<LanguageView>> {
    if !json_present(text, "/data/languages"@) || json_null(text, "/data/languages"@) {
        Some(Seq::empty())
    } else {
        match json_len(text, "/data/languages"@) {
            Some(n) => if forall|i: nat| i < n ==> (#[trigger] language_at(text, i)) is Some {
                Some(Seq::new(n, |i: int| language_at(text, i as nat)->Some_0))
            } else {
                None
            },
            None => None,
        }
    }
}

/// What a statistics reply body decodes to. An `error` string at the top
/// level is the provider's own error and is recognised before the success
/// shape is looked at.
pub open spec fn stats_of(text: Seq<char>) -> Result<WakatimeStatsView, AdapterErrorView> {
    if !json_parses(text) {
        Err(AdapterErrorView::MalformedResponse)
    } else {
        match json_str(text, "/error"@) {
            Some(m) => Err(AdapterErrorView::ProviderReportedError(m)),
            None => match (
                json_str(text, "/data/human_readable_total"@),
                json_number(text, "/data/total_seconds"@),
                languages_of(text),
            ) {
                (Some(h), Some(s), Some(l)) => Ok(
                    WakatimeStatsView { human_readable_total: h, total_seconds: s, languages: l },
                ),
                _ => Err(AdapterErrorView::MalformedResponse),
            },
        }
    }
}

/// The address of the last seven days' statistics for `api_key`.
pub fn stats_url(api_key: &str) -> (r: String)
    ensures
        r@ == stats_url_spec(api_key@),
{
    let mut url = String::from_str(
        "https://wakatime.com/api/v1/users/current/stats/last_7_days?api_key=",
    );
    url.append(api_key);
    url
}

fn language_field_ptr(i: usize, field: &str) -> (r: String)
    ensures
        r@ == language_ptr(i as nat, field@),
{
    let mut p = String::from_str("/data/languages/");
    let idx = decimal_text(i);
    p.append(idx.as_str());
    p.append(field);
    p
}

fn decode_language(doc: &JsonDoc, i: usize) -> (r: Option<Language>)
    ensures
        match r {
            Some(l) => language_at(doc.text(), i as nat) == Some(l@),
            None => language_at(doc.text(), i as nat) is None,
        },
{
    let name = str_at(doc, language_field_ptr(i, "/name").as_str());
    let percent = number_at(doc, language_field_ptr(i, "/percent").as_str());
    let text = str_at(doc, language_field_ptr(i, "/text").as_str());
    match (name, percent, text) {
        (Some(name), Some(percent), Some(text)) => Some(Language { name, percent, text }),
        _ => None,
    }
}

fn decode_languages(doc: &JsonDoc) -> (r: Option<Vec<Language>>)
    ensures
        match r {
            Some(v) => languages_of(doc.text()) == Some(v@.map_values(|l: Language| l@)),
            None => languages_of(doc.text()) is None,
        },
{
    let ghost text = doc.text();
    if absent_or_null(doc, "/data/languages") {
        let v: Vec<Language> = Vec::new();
        assert(v@.map_values(|l: Language| l@) =~= Seq::empty());
        return Some(v);
    }
    let n = match len_at(doc, "/data/languages") {
        Some(n) => n,
        None => return None,
    };
    let mut v: Vec<Language> = Vec::new();
    let mut i: usize = 0;
    while i < n
        invariant
            text == doc.text(),
            json_present(text, "/data/languages"@),
            !json_null(text, "/data/languages"@),
            json_len(text, "/data/languages"@) == Some(n as nat),
            i <= n,
            v@.len() == i,
            forall|j: int| 0 <= j < i ==> language_at(text, j as nat) == Some(#[trigger] v@[j]@),
        decreases n - i,
    {
        match decode_language(doc, i) {
            Some(l) => v.push(l),
            None => {
                assert(!(forall|k: nat| k < n ==> (#[trigger] language_at(text, k)) is Some)) by {
                    assert(language_at(text, i as nat) is None);
                }
                return None;
            },
        }
        i = i + 1;
    }
    assert(forall|k: nat| k < n ==> (#[trigger] language_at(text, k)) is Some) by {
        assert forall|k: nat| k < n implies (#[trigger] language_at(text, k)) is Some by {
            assert(language_at(text, k as int as nat) == Some(v@[k as int]@));
        }
    }
    assert(v@.map_values(|l: Language| l@) =~= Seq::new(
        n as nat,
        |k: int| language_at(text, k as nat)->Some_0,
    ));
    Some(v)
}

/// Decodes a statistics reply body.
pub fn decode_stats(body: &str) -> (r: Result<WakatimeStats, AdapterError>)
    ensures
        match r {
            Ok(s) => stats_of(body@) == Ok::<WakatimeStatsView, AdapterErrorView>(s@),
            Err(e) => stats_of(body@) == Err::<WakatimeStatsView, AdapterErrorView>(e@),
        },
{
    let doc = match JsonDoc::parse(body) {
        Some(d) => d,
        None => return Err(AdapterError::MalformedResponse),
    };
    match str_at(&doc, "/error") {
        Some(m) => return Err(AdapterError::ProviderReportedError(m)),
        None => {},
    }
    let total = str_at(&doc, "/data/human_readable_total");
    let seconds = number_at(&doc, "/data/total_seconds");
    let languages = decode_languages(&doc);
    match (total, seconds, languages) {
        (Some(human_readable_total), Some(total_seconds), Some(languages)) => {
            Ok(WakatimeStats { human_readable_total, total_seconds, languages })
        },
        _ => Err(AdapterError::MalformedResponse),
    }
}

/// A body that parses and holds an `error` string at the top level is the
/// provider's own error with that message, never a malformed response, even
/// though it lacks the success shape.
pub proof fn lemma_reported_error_first(text: Seq<char>, message: Seq<char>)
    requires
        json_parses(text),
        json_str(text, "/error"@) == Some(message),
    ensures
        stats_of(text) == Err::<WakatimeStatsView, AdapterErrorView>(AdapterErrorView::ProviderReportedError(message)),
        stats_of(text) != Err::<WakatimeStatsView, AdapterErrorView>(AdapterErrorView::MalformedResponse),
{
}

} // verus!

use lifestats::error::{AdapterError, Provider};
use lifestats::github::{decode_user, user_url, zen_url};
use lifestats::json::decimal_text;
use lifestats::wakatime_client::{decode_stats, stats_url};

const OCTOCAT: &str = r#"{"login":"octocat","name":"The Octocat","avatar_url":"https://avatars.githubusercontent.com/u/583231?v=4","public_repos":8,"followers":9999,"following":9,"company":"@github"}"#;

#[test]
fn profile_url_appends_handle() {
    assert_eq!(user_url("octocat"), "https://api.github.com/users/octocat");
}

#[test]
fn quote_url_is_fixed() {
    assert_eq!(zen_url(), "https://api.github.com/zen");
}

#[test]
fn stats_url_carries_key() {
    assert_eq!(
        stats_url("abc123"),
        "https://wakatime.com/api/v1/users/current/stats/last_7_days?api_key=abc123"
    );
}

#[test]
fn decimal_text_of_indices() {
    assert_eq!(decimal_text(0), "0");
    assert_eq!(decimal_text(7), "7");
    assert_eq!(decimal_text(10), "10");
    assert_eq!(decimal_text(1234), "1234");
    assert_eq!(decimal_text(usize::MAX), usize::MAX.to_string());
}

#[test]
fn profile_decodes_all_fields() {
    let u = decode_user(OCTOCAT).unwrap();
    assert_eq!(u.login, "octocat");
    assert_eq!(u.name.as_deref(), Some("The Octocat"));
    assert_eq!(u.avatar_url, "https://avatars.githubusercontent.com/u/583231?v=4");
    assert_eq!(u.public_repos, 8);
    assert_eq!(u.followers, 9999);
    assert_eq!(u.following, 9);
}

#[test]
fn profile_name_null_or_missing_is_none() {
    let with_null = r#"{"login":"a","name":null,"avatar_url":"x","public_repos":0,"followers":0,"following":0}"#;
    assert!(decode_user(with_null).unwrap().name.is_none());
    let missing = r#"{"login":"a","avatar_url":"x","public_repos":0,"followers":0,"following":0}"#;
    assert!(decode_user(missing).unwrap().name.is_none());
}

#[test]
fn profile_missing_login_is_malformed() {
    let body = r#"{"name":"n","avatar_url":"x","public_repos":0,"followers":0,"following":0}"#;
    assert!(matches!(decode_user(body), Err(AdapterError::MalformedResponse)));
}

#[test]
fn profile_wrong_types_are_malformed() {
    let name_number = r#"{"login":"a","name":5,"avatar_url":"x","public_repos":0,"followers":0,"following":0}"#;
    assert!(matches!(decode_user(name_number), Err(AdapterError::MalformedResponse)));
    let negative = r#"{"login":"a","avatar_url":"x","public_repos":-1,"followers":0,"following":0}"#;
    assert!(matches!(decode_user(negative), Err(AdapterError::MalformedResponse)));
    let fraction = r#"{"login":"a","avatar_url":"x","public_repos":1.5,"followers":0,"following":0}"#;
    assert!(matches!(decode_user(fraction), Err(AdapterError::MalformedResponse)));
}

#[test]
fn profile_count_range_is_u32() {
    let max = r#"{"login":"a","avatar_url":"x","public_repos":4294967295,"followers":0,"following":0}"#;
    assert_eq!(decode_user(max).unwrap().public_repos, u32::MAX);
    let over = r#"{"login":"a","avatar_url":"x","public_repos":4294967296,"followers":0,"following":0}"#;
    assert!(matches!(decode_user(over), Err(AdapterError::MalformedResponse)));
}

#[test]
fn profile_not_json_is_malformed() {
    assert!(matches!(decode_user("Not Found"), Err(AdapterError::MalformedResponse)));
    assert!(matches!(decode_user(""), Err(AdapterError::MalformedResponse)));
    assert!(matches!(decode_user("[1,2]"), Err(AdapterError::MalformedResponse)));
}

#[test]
fn stats_error_payload_is_reported_error() {
    match decode_stats(r#"{"error":"Invalid API Key."}"#) {
        Err(AdapterError::ProviderReportedError(m)) => assert_eq!(m, "Invalid API Key."),
        other => panic!("unexpected {:?}", other),
    }
}

#[test]
fn stats_error_wins_over_success_shape() {
    let body = r#"{"error":"Rate limited","data":{"human_readable_total":"1 hr","total_seconds":3600}}"#;
    match decode_stats(body) {
        Err(AdapterError::ProviderReportedError(m)) => assert_eq!(m, "Rate limited"),
        other => panic!("unexpected {:?}", other),
    }
}

#[test]
fn stats_without_languages_decode_to_empty_breakdown() {
    let body = r#"{"data":{"human_readable_total":"6 hrs 24 mins","total_seconds":23040}}"#;
    let s = decode_stats(body).unwrap();
    assert_eq!(s.human_readable_total, "6 hrs 24 mins");
    assert_eq!(s.total_seconds, "23040");
    assert!(s.languages.is_empty());
    let null_langs = r#"{"data":{"human_readable_total":"1 min","total_seconds":60,"languages":null}}"#;
    assert!(decode_stats(null_langs).unwrap().languages.is_empty());
}

#[test]
fn stats_with_languages_keep_their_order() {
    let body = r#"{"data":{"human_readable_total":"2 hrs","total_seconds":7200.5,"languages":[
        {"name":"Rust","percent":75.25,"text":"1 hr 30 mins"},
        {"name":"TOML","percent":24.75,"text":"30 mins"}]}}"#;
    let s = decode_stats(body).unwrap();
    assert_eq!(s.total_seconds, "7200.5");
    assert_eq!(s.languages.len(), 2);
    assert_eq!(s.languages[0].name, "Rust");
    assert_eq!(s.languages[0].percent, "75.25");
    assert_eq!(s.languages[0].text, "1 hr 30 mins");
    assert_eq!(s.languages[1].name, "TOML");
    assert_eq!(s.languages[1].percent, "24.75");
}

#[test]
fn stats_with_many_languages_use_multi_digit_indices() {
    let mut entries = Vec::new();
    for i in 0..12 {
        entries.push(format!(r#"{{"name":"L{}","percent":{},"text":"{} mins"}}"#, i, i, i));
    }
    let body = format!(
        r#"{{"data":{{"human_readable_total":"x","total_seconds":1,"languages":[{}]}}}}"#,
        entries.join(",")
    );
    let s = decode_stats(&body).unwrap();
    assert_eq!(s.languages.len(), 12);
    assert_eq!(s.languages[11].name, "L11");
    assert_eq!(s.languages[11].percent, "11");
}

#[test]
fn stats_bad_language_entry_is_malformed() {
    let body = r#"{"data":{"human_readable_total":"x","total_seconds":1,"languages":[{"name":"Rust","text":"1 min"}]}}"#;
    assert!(matches!(decode_stats(body), Err(AdapterError::MalformedResponse)));
    let not_array = r#"{"data":{"human_readable_total":"x","total_seconds":1,"languages":"Rust"}}"#;
    assert!(matches!(decode_stats(not_array), Err(AdapterError::MalformedResponse)));
}

#[test]
fn stats_missing_total_is_malformed() {
    let body = r#"{"data":{"total_seconds":1}}"#;
    assert!(matches!(decode_stats(body), Err(AdapterError::MalformedResponse)));
    let text_seconds = r#"{"data":{"human_readable_total":"x","total_seconds":"1"}}"#;
    assert!(matches!(decode_stats(text_seconds), Err(AdapterError::MalformedResponse)));
}

#[test]
fn stats_not_json_is_malformed() {
    assert!(matches!(decode_stats("<html>"), Err(AdapterError::MalformedResponse)));
}

#[test]
fn error_messages_are_readable() {
    assert_eq!(AdapterError::Transport("dns".to_string()).message(), "Request failed: dns");
    assert_eq!(
        AdapterError::MalformedResponse.message(),
        "Unexpected response from the provider"
    );
    assert_eq!(
        AdapterError::ProviderReportedError("Invalid API Key.".to_string()).message(),
        "Provider reported an error: Invalid API Key."
    );
    assert_ne!(Provider::Profile, Provider::Quote);
}

//! The code-hosting profile provider: its request and its reply.
use vstd::prelude::*;

use crate::error::{AdapterError, AdapterErrorView};
use crate::json::{
    absent_or_null, json_null, json_parses, json_present, json_str, json_u64, str_at, u64_at, JsonDoc,
};

verus! {

/// A user's public profile.
#[derive(Debug)]
pub struct GithubUser {
    pub login: String,
    pub name: Option<String>,
    pub avatar_url: String,
    pub public_repos: u32,
    pub followers: u32,
    pub following: u32,
}

/// The mathematical value of a [`GithubUser`].
pub struct GithubUserView {
    pub login: Seq<char>,
    pub name: Option<Seq<char>>,
    pub avatar_url: Seq<char>,
    pub public_repos: u32,
    pub followers: u32,
    pub following: u32,
}

impl View for GithubUser {
    type V = GithubUserView;

    open spec fn view(&self) -> GithubUserView {
        GithubUserView {
            login: self.login@,
            name: match self.name {
                Some(n) => Some(n@),
                None => None,
            },
            avatar_url: self.avatar_url@,
            public_repos: self.public_repos,
            followers: self.followers,
            following: self.following,
        }
    }
}

/// The address of the profile of `username`.
pub open spec fn user_url_spec(username: Seq<char>) -> Seq<char> {
    "https://api.github.com/users/"@ + username
}

/// The address of the quote endpoint.
pub open spec fn zen_url_spec() -> Seq<char> {
    "https://api.github.com/zen"@
}

/// A count field: an integer in the range of a u32.
pub open spec fn count_of(n: Option<u64>) -> Option<u32> {
    match n {
        Some(v) => if v <= u32::MAX {
            Some(v as u32)
        } else {
            None
        },
        None => None,
    }
}

/// An optional string field: absent or `null` gives `Some(None)`, a string
/// gives `Some(Some(s))`, anything else is a decode failure (`None`).
pub open spec fn optional_str(text: Seq<char>, ptr: Seq<char>) -> Option<Option<Seq<char>>> {
    if !json_present(text, ptr) || json_null(text, ptr) {
        Some(None)
    } else {
        match json_str(text, ptr) {
            Some(s) => Some(Some(s)),
            None => None,
        }
    }
}

/// The profile that a reply body holds, or `None` when the body is not JSON
/// or lacks a required field of the right type.
pub open spec fn user_of(text: Seq<char>) -> Option<GithubUserView> {
    if !json_parses(text) {
        None
    } else {
        match (
            json_str(text, "/login"@),
            optional_str(text, "/name"@),
            json_str(text, "/avatar_url"@),
            count_of(json_u64(text, "/public_repos"@)),
            count_of(json_u64(text, "/followers"@)),
            count_of(json_u64(text, "/following"@)),
        ) {
            (Some(login), Some(name), Some(avatar_url), Some(repos), Some(followers), Some(following)) => {
                Some(
                    GithubUserView {
                        login,
                        name,
                        avatar_url,
                        public_repos: repos,
                        followers,
                        following,
                    },
                )
            },
            _ => None,
        }
    }
}

/// The address of the profile of `username`.
pub fn user_url(username: &str) -> (r: String)
    ensures
        r@ == user_url_spec(username@),
{
    let mut url = String::from_str("https://api.github.com/users/");
    url.append(username);
    url
}

/// The address of the quote endpoint.
pub fn zen_url() -> (r: String)
    ensures
        r@ == zen_url_spec(),
{
    String::from_str("https://api.github.com/zen")
}

fn count_at(doc: &JsonDoc, ptr: &str) -> (r: Option<u32>)
    ensures
        r == count_of(json_u64(doc.text(), ptr@)),
{
    match u64_at(doc, ptr) {
        Some(v) => if v <= u32::MAX as u64 {
            Some(v as u32)
        } else {
            None
        },
        None => None,
    }
}

fn optional_str_at(doc: &JsonDoc, ptr: &str) -> (r: Option<Option<String>>)
    ensures
        match r {
            Some(Some(s)) => optional_str(doc.text(), ptr@) == Some(Some(s@)),
            Some(None) => optional_str(doc.text(), ptr@) == Some(None::<Seq<char>>),
            None => optional_str(doc.text(), ptr@) is None,
        },
{
    if absent_or_null(doc, ptr) {
        Some(None)
    } else {
        match str_at(doc, ptr) {
            Some(s) => Some(Some(s)),
            None => None,
        }
    }
}

/// Decodes a profile reply body.
pub fn decode_user(body: &str) -> (r: Result<GithubUser, AdapterError>)
    ensures
        match r {
            Ok(u) => user_of(body@) == Some(u@),
            Err(e) => user_of(body@) is None && e@ == AdapterErrorView::MalformedResponse,
        },
{
    let doc = match JsonDoc::parse(body) {
        Some(d) => d,
        None => return Err(AdapterError::MalformedResponse),
    };
    let login = str_at(&doc, "/login");
    let name = optional_str_at(&doc, "/name");
    let avatar_url = str_at(&doc, "/avatar_url");
    let repos = count_at(&doc, "/public_repos");
    let followers = count_at(&doc, "/followers");
    let following = count_at(&doc, "/following");
    match (login, name, avatar_url, repos, followers, following) {
        (Some(login), Some(name), Some(avatar_url), Some(public_repos), Some(followers), Some(following)) => {
            Ok(GithubUser { login, name, avatar_url, public_repos, followers, following })
        },
        _ => Err(AdapterError::MalformedResponse),
    }
}

} // verus!

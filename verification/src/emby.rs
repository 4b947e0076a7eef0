//! The endpoints of the media server.

use vstd::prelude::*;
use vstd::string::*;
use crate::network::{push_field, HttpMethod, NetworkTask};
use crate::telegram::api::USER_AGENT;
use crate::telegram::message::field_texts;
use crate::text::join2;

verus! {

/// Where the media server lives and the key it wants.
#[derive(Debug)]
pub struct EmbyConfig {
    pub base_url: String,
    pub api_key: String,
}

/// A call of the media server's API.
#[derive(Debug)]
pub enum EmbyAPI {
    /// The record of one user.
    GetUser { user_id: String },
}

/// The headers of a call to the server at `base_url`.
pub open spec fn emby_headers(base_url: Seq<char>) -> Seq<(Seq<char>, Seq<char>)> {
    seq![
        ("accept"@, "application/json"@),
        ("origin"@, base_url),
        ("referer"@, base_url + "/"@),
        ("user-agent"@, USER_AGENT@),
    ]
}

impl EmbyAPI {
    /// The base address of the server.
    pub fn base_url(&self, config: &EmbyConfig) -> (r: String)
        ensures
            r == config.base_url,
    {
        config.base_url.clone()
    }

    /// The endpoint of the call.
    pub open spec fn spec_path(&self) -> Seq<char> {
        match self {
            EmbyAPI::GetUser { user_id } => "emby/Users/"@ + user_id@,
        }
    }

    /// The endpoint of the call.
    pub fn path(&self) -> (r: String)
        ensures
            r@ == self.spec_path(),
    {
        match self {
            EmbyAPI::GetUser { user_id } => join2("emby/Users/", user_id.as_str()),
        }
    }

    /// Every call is a GET.
    pub fn method(&self) -> (r: HttpMethod)
        ensures
            r == HttpMethod::Get,
    {
        HttpMethod::Get
    }

    /// The payload of the call: the key as a query parameter.
    pub fn task(&self, config: &EmbyConfig) -> (r: NetworkTask)
        ensures
            r matches NetworkTask::RequestParameters(params) && field_texts(params@) == seq![
                ("api_key"@, config.api_key@),
            ],
    {
        let mut params: Vec<(String, String)> = Vec::new();
        push_field(&mut params, "api_key", config.api_key.clone());
        proof {
            assert(field_texts(params@) =~= seq![("api_key"@, config.api_key@)]);
        }
        NetworkTask::RequestParameters(params)
    }

    /// The headers of the call.
    pub fn headers(&self, config: &EmbyConfig) -> (r: Vec<(String, String)>)
        ensures
            field_texts(r@) == emby_headers(config.base_url@),
    {
        let mut r: Vec<(String, String)> = Vec::new();
        r.push((String::from_str("accept"), String::from_str("application/json")));
        r.push((String::from_str("origin"), config.base_url.clone()));
        r.push((String::from_str("referer"), join2(config.base_url.as_str(), "/")));
        r.push((String::from_str("user-agent"), String::from_str(USER_AGENT)));
        proof {
            assert(field_texts(r@) =~= emby_headers(config.base_url@));
        }
        r
    }
}

} // verus!

use vstd::prelude::*;
use vstd::string::StringExecFns;

use crate::feature_requester::ReqwestFeatureRequester;

verus! {

#[verifier::external_type_specification]
#[verifier::external_body]
pub struct ExUrlParseError(url::ParseError);

/// Whether the text is a URL that `url::Url::parse` accepts.
pub uninterp spec fn url_parses(s: Seq<char>) -> bool;

/// Relies on url::Url::parse: whether it succeeds depends on the text alone.
#[verifier::external_body]
fn parse_url(s: &str) -> (r: Result<url::Url, url::ParseError>)
    ensures
        r is Ok <==> url_parses(s@),
{
    url::Url::parse(s)
}

/// The header that carries the application tags.
pub const LAUNCHDARKLY_TAGS_HEADER: &'static str = "X-LaunchDarkly-Tags";

/// The path of the snapshot endpoint, relative to the base URL.
pub const LATEST_ALL_PATH: &'static str = "/sdk/latest-all";

/// Failure to build a feature requester.
#[derive(Debug)]
pub enum BuildError {
    /// A configuration setting is invalid.
    InvalidConfig(String),
}

/// The full snapshot URL for a base URL.
pub open spec fn snapshot_url(base: Seq<char>) -> Seq<char> {
    base + LATEST_ALL_PATH@
}

/// Builds feature requesters for one base URL and credential.
pub struct ReqwestFeatureRequesterBuilder {
    url: String,
    sdk_key: String,
}

impl ReqwestFeatureRequesterBuilder {
    pub closed spec fn spec_url(&self) -> Seq<char> {
        self.url@
    }

    pub closed spec fn spec_sdk_key(&self) -> Seq<char> {
        self.sdk_key@
    }

    pub fn new(url: &str, sdk_key: &str) -> (r: Self)
        ensures
            r.spec_url() == url@,
            r.spec_sdk_key() == sdk_key@,
    {
        Self { url: url.to_owned(), sdk_key: sdk_key.to_owned() }
    }

    /// Builds a requester for `<base>/sdk/latest-all`, sending `tags`, when
    /// given, under the tags header; fails with `InvalidConfig` exactly when
    /// that URL does not parse.
    pub fn build(&self, tags: Option<String>) -> (r: Result<ReqwestFeatureRequester, BuildError>)
        ensures
            r is Err <==> !url_parses(snapshot_url(self.spec_url())),
            r is Ok ==> {
                let f = r->Ok_0;
                &&& f.spec_cache() is None
                &&& f.spec_sdk_key() == self.spec_sdk_key()
                &&& tags is None ==> f.spec_default_headers().len() == 0
                &&& tags is Some ==> {
                    &&& f.spec_default_headers().len() == 1
                    &&& f.spec_default_headers()[0].0@ == LAUNCHDARKLY_TAGS_HEADER@
                    &&& f.spec_default_headers()[0].1 == tags->0
                }
            },
    {
        let full = self.url.clone().concat(LATEST_ALL_PATH);
        let url = match parse_url(full.as_str()) {
            Ok(url) => url,
            Err(_) => {
                return Err(BuildError::InvalidConfig("Invalid base url provided".to_owned()));
            },
        };
        let mut headers: Vec<(String, String)> = Vec::new();
        if let Some(tags) = tags {
            headers.push((LAUNCHDARKLY_TAGS_HEADER.to_owned(), tags));
        }
        Ok(ReqwestFeatureRequester::new(headers, url, self.sdk_key.clone()))
    }
}

} // verus!

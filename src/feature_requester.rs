use vstd::prelude::*;

use crate::headers::{base_headers, header_views, push_all_headers, push_base_headers};
use crate::http_status::{
    is_http_error_recoverable,
    is_http_success,
    spec_is_http_error_recoverable,
    spec_is_http_success,
};

verus! {

#[verifier::external_type_specification]
#[verifier::external_body]
pub struct ExUrl(url::Url);

#[verifier::external_type_specification]
#[verifier::external_body]
pub struct ExJsonValue(serde_json::Value);

/// Relies on the derived `Clone` of `serde_json::Value`: a deep copy, equal to the source.
pub assume_specification[ <serde_json::Value as Clone>::clone ](v: &serde_json::Value) -> (r:
    serde_json::Value)
    ensures
        r == *v,
;

/// Whether serde_json reads the bytes as one JSON value.
pub uninterp spec fn json_parses(body: Seq<u8>) -> bool;

/// Relies on serde_json::from_slice into `serde_json::Value`: whether it succeeds
/// depends on the bytes alone.
#[verifier::external_body]
fn parse_snapshot(body: &[u8]) -> (r: Option<serde_json::Value>)
    ensures
        r is Some <==> json_parses(body@),
{
    serde_json::from_slice::<serde_json::Value>(body).ok()
}

/// Why a snapshot fetch failed: worth retrying later, or not.
#[derive(Debug, PartialEq, Eq, Structural, Clone, Copy)]
pub enum FeatureRequesterError {
    Temporary,
    Permanent,
}

/// The last snapshot received together with the validator token that came with it.
#[derive(Debug)]
pub struct CachedEntry {
    pub data: serde_json::Value,
    pub etag: String,
}

/// What the transport made of one conditional GET of the snapshot.
pub enum FetchOutcome {
    /// No response was received at all.
    TransportError,
    /// A response arrived; `etag` is empty when the header was missing.
    Response { status: u16, etag: String, body: Vec<u8> },
}

/// The error a fetch reports for a status that is neither cached nor successful.
pub open spec fn status_error(status: u16) -> FeatureRequesterError {
    if spec_is_http_error_recoverable(status) {
        FeatureRequesterError::Temporary
    } else {
        FeatureRequesterError::Permanent
    }
}

/// How one fetch, given what the transport returned, relates the requester
/// before, the requester after and the result.
pub open spec fn fetch_step(
    before: ReqwestFeatureRequester,
    outcome: FetchOutcome,
    after: ReqwestFeatureRequester,
    r: Result<serde_json::Value, FeatureRequesterError>,
) -> bool {
    &&& after.spec_default_headers() == before.spec_default_headers()
    &&& after.spec_url() == before.spec_url()
    &&& after.spec_sdk_key() == before.spec_sdk_key()
    &&& match outcome {
        FetchOutcome::TransportError => {
            &&& r == Err::<serde_json::Value, _>(FeatureRequesterError::Temporary)
            &&& after.spec_cache() == before.spec_cache()
        },
        FetchOutcome::Response { status, etag, body } => {
            if status == 304 && before.spec_cache() is Some {
                &&& r == Ok::<_, FeatureRequesterError>(before.spec_cache()->0.data)
                &&& after.spec_cache() == before.spec_cache()
            } else if spec_is_http_success(status) {
                if json_parses(body@) {
                    &&& r is Ok
                    &&& etag@.len() > 0 ==> after.spec_cache() == Some(
                        CachedEntry { data: r->Ok_0, etag },
                    )
                    &&& etag@.len() == 0 ==> after.spec_cache() == before.spec_cache()
                } else {
                    &&& r == Err::<serde_json::Value, _>(FeatureRequesterError::Permanent)
                    &&& after.spec_cache() == before.spec_cache()
                }
            } else {
                &&& r == Err::<serde_json::Value, _>(status_error(status))
                &&& after.spec_cache() == before.spec_cache()
            }
        },
    }
}

/// Whether the transport answered "not modified".
pub open spec fn is_not_modified(outcome: FetchOutcome) -> bool {
    outcome matches FetchOutcome::Response { status, .. } && status == 304
}

/// Once a snapshot is cached, any run of fetches that all come back "not
/// modified" leaves the cache exactly as it was, and every one of them returns
/// the cached snapshot.
pub proof fn lemma_not_modified_is_idempotent(
    states: Seq<ReqwestFeatureRequester>,
    outcomes: Seq<FetchOutcome>,
    results: Seq<Result<serde_json::Value, FeatureRequesterError>>,
)
    requires
        states.len() == outcomes.len() + 1,
        results.len() == outcomes.len(),
        states[0].spec_cache() is Some,
        forall|i: int| 0 <= i < outcomes.len() ==> is_not_modified(#[trigger] outcomes[i]),
        forall|i: int|
            0 <= i < outcomes.len() ==> #[trigger] fetch_step(
                states[i],
                outcomes[i],
                states[i + 1],
                results[i],
            ),
    ensures
        forall|i: int| 0 <= i < states.len() ==> #[trigger] states[i].spec_cache() == states[0].spec_cache(),
        forall|i: int|
            0 <= i < results.len() ==> #[trigger] results[i] == Ok::<_, FeatureRequesterError>(
                states[0].spec_cache()->0.data,
            ),
    decreases outcomes.len(),
{
    if outcomes.len() > 0 {
        let n = outcomes.len() - 1;
        assert(fetch_step(states[n], outcomes[n], states[n + 1], results[n]));
        lemma_not_modified_is_idempotent(
            states.drop_last(),
            outcomes.drop_last(),
            results.drop_last(),
        );
        assert(states.drop_last()[n] == states[n]);
        assert(is_not_modified(outcomes[n]));
        assert forall|i: int| 0 <= i < states.len() implies #[trigger] states[i].spec_cache()
            == states[0].spec_cache() by {
            if i < states.len() - 1 {
                assert(states.drop_last()[i] == states[i]);
            }
        }
        assert forall|i: int| 0 <= i < results.len() implies #[trigger] results[i] == Ok::<
            _,
            FeatureRequesterError,
        >(states[0].spec_cache()->0.data) by {
            if i < results.len() - 1 {
                assert(results.drop_last()[i] == results[i]);
            }
        }
    }
}

/// The cache changes only on a successful response whose body parses and
/// that carries a validator, and then it holds exactly the returned snapshot
/// with that validator; a failed or "not modified" fetch never touches it.
pub proof fn lemma_cache_changes_only_on_parsed_success(
    before: ReqwestFeatureRequester,
    outcome: FetchOutcome,
    after: ReqwestFeatureRequester,
    r: Result<serde_json::Value, FeatureRequesterError>,
)
    requires
        fetch_step(before, outcome, after, r),
    ensures
        after.spec_cache() != before.spec_cache() ==> {
            &&& outcome matches FetchOutcome::Response { status, etag, body }
            &&& spec_is_http_success(status)
            &&& json_parses(body@)
            &&& etag@.len() > 0
            &&& after.spec_cache() == Some(CachedEntry { data: r->Ok_0, etag })
        },
        r is Err ==> after.spec_cache() == before.spec_cache(),
{
}

/// Polls the full flag and segment snapshot, caching it under its validator token.
pub struct ReqwestFeatureRequester {
    default_headers: Vec<(String, String)>,
    url: url::Url,
    sdk_key: String,
    cache: Option<CachedEntry>,
}

impl ReqwestFeatureRequester {
    pub closed spec fn spec_cache(&self) -> Option<CachedEntry> {
        self.cache
    }

    pub closed spec fn spec_default_headers(&self) -> Seq<(String, String)> {
        self.default_headers@
    }

    pub closed spec fn spec_url(&self) -> url::Url {
        self.url
    }

    pub closed spec fn spec_sdk_key(&self) -> Seq<char> {
        self.sdk_key@
    }

    /// The headers added to every request, in order.
    pub fn default_headers(&self) -> (r: &Vec<(String, String)>)
        ensures
            r@ == self.spec_default_headers(),
    {
        &self.default_headers
    }

    /// The snapshot endpoint.
    pub fn url(&self) -> (r: &url::Url)
        ensures
            *r == self.spec_url(),
    {
        &self.url
    }

    /// The credential sent as `Authorization`.
    pub fn sdk_key(&self) -> (r: &str)
        ensures
            r@ == self.spec_sdk_key(),
    {
        self.sdk_key.as_str()
    }

    pub fn new(default_headers: Vec<(String, String)>, url: url::Url, sdk_key: String) -> (r: Self)
        ensures
            r.spec_cache() is None,
            r.spec_default_headers() == default_headers@,
            r.spec_url() == url,
            r.spec_sdk_key() == sdk_key@,
    {
        Self { default_headers, url, sdk_key, cache: None }
    }

    /// The cached snapshot and its validator token, if any.
    pub fn cache(&self) -> (r: &Option<CachedEntry>)
        ensures
            *r == self.spec_cache(),
    {
        &self.cache
    }

    /// The validator to send as `If-None-Match`, if a snapshot is cached.
    pub fn validator(&self) -> (r: Option<String>)
        ensures
            r is None <==> self.spec_cache() is None,
            r is Some ==> r->0@ == self.spec_cache()->0.etag@,
    {
        match &self.cache {
            Some(entry) => Some(entry.etag.clone()),
            None => None,
        }
    }

    /// The headers the snapshot GET carries: JSON content type, credential and
    /// client identification, then `If-None-Match` with the cached validator
    /// when a snapshot is cached, then the default headers in order.
    pub fn request_headers(&self) -> (r: Vec<(String, String)>)
        ensures
            header_views(r@) == base_headers(self.spec_sdk_key()) + (match self.spec_cache() {
                Some(entry) => seq![("If-None-Match"@, entry.etag@)],
                None => Seq::empty(),
            }) + header_views(self.spec_default_headers()),
    {
        proof {
            reveal_strlit("If-None-Match");
        }
        let mut out: Vec<(String, String)> = Vec::new();
        push_base_headers(&mut out, self.sdk_key.as_str());
        let ghost after_base = out@;
        if let Some(entry) = &self.cache {
            out.push(("If-None-Match".to_owned(), entry.etag.clone()));
            assert(header_views(out@) =~= header_views(after_base).push(("If-None-Match"@, entry.etag@)));
        }
        let ghost after_validator = out@;
        push_all_headers(&mut out, &self.default_headers);
        assert(header_views(Seq::<(String, String)>::empty()) =~= Seq::empty());
        assert(header_views(after_validator) =~= base_headers(self.spec_sdk_key()) + (match self.spec_cache() {
                Some(entry) => seq![("If-None-Match"@, entry.etag@)],
                None => Seq::empty(),
            }));
        out
    }

    /// Decides the result of one fetch from what the transport returned, and
    /// updates the cache: a 304 while cached returns the cached snapshot as it is,
    /// a successful response that parses is returned and cached under a non-empty
    /// validator, and any failure leaves the cache untouched.
    pub fn handle_response(&mut self, outcome: FetchOutcome) -> (r: Result<
        serde_json::Value,
        FeatureRequesterError,
    >)
        ensures
            fetch_step(*old(self), outcome, *final(self), r),
    {
        match outcome {
            FetchOutcome::TransportError => Err(FeatureRequesterError::Temporary),
            FetchOutcome::Response { status, etag, body } => {
                if status == 304 {
                    if let Some(entry) = &self.cache {
                        return Ok(entry.data.clone());
                    }
                }
                if is_http_success(status) {
                    match parse_snapshot(body.as_slice()) {
                        Some(all_data) => {
                            if !etag.as_str().is_empty() {
                                self.cache = Some(CachedEntry { data: all_data.clone(), etag });
                            }
                            Ok(all_data)
                        },
                        None => Err(FeatureRequesterError::Permanent),
                    }
                } else if is_http_error_recoverable(status) {
                    Err(FeatureRequesterError::Temporary)
                } else {
                    Err(FeatureRequesterError::Permanent)
                }
            },
        }
    }
}

} // verus!

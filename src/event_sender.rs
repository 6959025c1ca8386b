use vstd::prelude::*;

use crate::headers::{
    base_headers,
    header_views,
    push_all_headers,
    push_base_headers,
    CURRENT_EVENT_SCHEMA,
    LAUNCHDARKLY_EVENT_SCHEMA_HEADER,
    LAUNCHDARKLY_PAYLOAD_ID_HEADER,
};
use crate::http_status::{classify, spec_classify, HttpOutcome};

verus! {

/// The epoch milliseconds of an RFC 2822 date, or `None` where the text is not one.
pub uninterp spec fn rfc2822_millis(date: Seq<char>) -> Option<i64>;

/// Relies on chrono's DateTime::parse_from_rfc2822 and DateTime::timestamp_millis:
/// the instant an RFC 2822 date names, in milliseconds since the epoch.
#[verifier::external_body]
fn parse_rfc2822_millis(date: &str) -> (r: Option<i64>)
    ensures
        r == rfc2822_millis(date@),
{
    match chrono::DateTime::parse_from_rfc2822(date) {
        Ok(d) => Some(d.timestamp_millis()),
        Err(_) => None,
    }
}

/// Relies on uuid::Uuid::new_v4, written out in its hyphenated form: a fresh
/// random identifier of 36 characters.
#[verifier::external_body]
fn new_payload_id() -> (r: String)
    ensures
        r@.len() == 36,
{
    uuid::Uuid::new_v4().to_string()
}

/// How many times one batch is posted at most.
pub const MAX_SEND_ATTEMPTS: u32 = 2;

/// What one send of a batch came to.
#[derive(Debug, PartialEq, Eq, Structural, Clone, Copy)]
pub struct EventSenderResult {
    /// The server clock in epoch milliseconds, 0 where unknown.
    pub time_from_server: u128,
    pub success: bool,
    /// The event pipeline must stop sending.
    pub must_shutdown: bool,
}

/// The server time that a parsed `Date` header gives: 0 where it did not parse
/// or lies before the epoch.
pub open spec fn spec_server_time(millis: Option<i64>) -> u128 {
    match millis {
        Some(m) => if m >= 0 {
            m as u128
        } else {
            0
        },
        None => 0,
    }
}

/// The server time for an already parsed `Date` header.
pub fn server_time_from_millis(millis: Option<i64>) -> (r: u128)
    ensures
        r == spec_server_time(millis),
{
    match millis {
        Some(m) => if m >= 0 {
            m as u128
        } else {
            0
        },
        None => 0,
    }
}

/// The server time for the text of a `Date` header (empty when absent).
pub fn server_time_from_date(date: &str) -> (r: u128)
    ensures
        r == spec_server_time(rfc2822_millis(date@)),
{
    server_time_from_millis(parse_rfc2822_millis(date))
}

/// What the transport made of one POST of a batch.
pub enum SendResponse {
    /// No response was received at all.
    TransportError,
    /// A response arrived; `date` is empty when the header was missing.
    Response { status: u16, date: String },
}

/// What to do after one POST of a batch.
#[derive(Debug, PartialEq, Eq, Structural, Clone, Copy)]
pub enum SendAction {
    /// Post the same body again, with the same correlation identifier.
    Retry,
    /// Stop, and deliver this result to the caller.
    Report(EventSenderResult),
    /// Stop, and deliver nothing.
    Abandon,
}

pub open spec fn spec_next_send_action(attempt: u32, response: SendResponse) -> SendAction {
    match response {
        SendResponse::TransportError => SendAction::Abandon,
        SendResponse::Response { status, date } => match spec_classify(status) {
            HttpOutcome::Success => SendAction::Report(
                EventSenderResult {
                    time_from_server: spec_server_time(rfc2822_millis(date@)),
                    success: true,
                    must_shutdown: false,
                },
            ),
            HttpOutcome::PermanentFailure => SendAction::Report(
                EventSenderResult { time_from_server: 0, success: false, must_shutdown: true },
            ),
            HttpOutcome::RecoverableFailure => if attempt < MAX_SEND_ATTEMPTS {
                SendAction::Retry
            } else {
                SendAction::Report(
                    EventSenderResult { time_from_server: 0, success: false, must_shutdown: false },
                )
            },
        },
    }
}

/// Decides, after attempt number `attempt` (counting from 1), whether to
/// post again, report a result, or give up without one.
pub fn next_send_action(attempt: u32, response: &SendResponse) -> (r: SendAction)
    requires
        1 <= attempt <= MAX_SEND_ATTEMPTS,
    ensures
        r == spec_next_send_action(attempt, *response),
{
    match response {
        SendResponse::TransportError => SendAction::Abandon,
        SendResponse::Response { status, date } => match classify(*status) {
            HttpOutcome::Success => SendAction::Report(
                EventSenderResult {
                    time_from_server: server_time_from_date(date.as_str()),
                    success: true,
                    must_shutdown: false,
                },
            ),
            HttpOutcome::PermanentFailure => SendAction::Report(
                EventSenderResult { time_from_server: 0, success: false, must_shutdown: true },
            ),
            HttpOutcome::RecoverableFailure => if attempt < MAX_SEND_ATTEMPTS {
                SendAction::Retry
            } else {
                SendAction::Report(
                    EventSenderResult { time_from_server: 0, success: false, must_shutdown: false },
                )
            },
        },
    }
}

/// The last attempt never asks for another: a send posts a batch at most
/// twice, and ends on a result unless the transport failed.
pub proof fn lemma_send_attempts_are_bounded(response: SendResponse)
    ensures
        spec_next_send_action(MAX_SEND_ATTEMPTS, response) != SendAction::Retry,
        !(response is TransportError) ==> spec_next_send_action(MAX_SEND_ATTEMPTS, response) is Report,
{
}

/// A permanent failure ends the send at once, on any attempt, and tells the
/// caller to stop sending; a success never does.
pub proof fn lemma_permanent_failure_requires_shutdown(attempt: u32, status: u16, date: String)
    requires
        1 <= attempt <= MAX_SEND_ATTEMPTS,
    ensures
        spec_classify(status) == HttpOutcome::PermanentFailure ==> spec_next_send_action(attempt, SendResponse::Response { status, date }) == SendAction::Report(
            EventSenderResult { time_from_server: 0, success: false, must_shutdown: true },
        ),
        spec_classify(status) == HttpOutcome::Success ==> (spec_next_send_action(attempt, SendResponse::Response { status, date }) matches SendAction::Report(res) && res.success && !res.must_shutdown),
{
}

/// The attempts made so far in one send of a batch.
pub struct SendSession {
    attempts: u32,
}

impl SendSession {
    pub closed spec fn spec_attempts(&self) -> u32 {
        self.attempts
    }

    pub fn new() -> (r: Self)
        ensures
            r.spec_attempts() == 0,
    {
        SendSession { attempts: 0 }
    }

    /// How many POSTs this send has made.
    pub fn attempts(&self) -> (r: u32)
        ensures
            r == self.spec_attempts(),
    {
        self.attempts
    }

    /// Records the response to one more POST and decides what follows; after
    /// `Retry` another POST is always allowed.
    pub fn on_response(&mut self, response: &SendResponse) -> (r: SendAction)
        requires
            old(self).spec_attempts() < MAX_SEND_ATTEMPTS,
        ensures
            final(self).spec_attempts() == old(self).spec_attempts() + 1,
            r == spec_next_send_action(final(self).spec_attempts(), *response),
            r == SendAction::Retry ==> final(self).spec_attempts() < MAX_SEND_ATTEMPTS,
    {
        self.attempts = self.attempts + 1;
        next_send_action(self.attempts, response)
    }
}

/// What stays the same across the attempts of one send.
pub struct SendPlan {
    /// The correlation identifier of this send.
    pub payload_id: String,
    /// The headers every attempt carries.
    pub headers: Vec<(String, String)>,
}

/// The headers of an event POST: JSON content type, credential, client
/// identification, schema version and correlation identifier, then the
/// default headers in order.
pub open spec fn event_headers(
    sdk_key: Seq<char>,
    payload_id: Seq<char>,
    defaults: Seq<(String, String)>,
) -> Seq<(Seq<char>, Seq<char>)> {
    base_headers(sdk_key) + seq![
        (LAUNCHDARKLY_EVENT_SCHEMA_HEADER@, CURRENT_EVENT_SCHEMA@),
        (LAUNCHDARKLY_PAYLOAD_ID_HEADER@, payload_id),
    ] + header_views(defaults)
}

/// Posts batches of serialized events to the event-ingestion endpoint.
pub struct ReqwestEventSender {
    url: url::Url,
    sdk_key: String,
    default_headers: Vec<(String, String)>,
}

impl ReqwestEventSender {
    pub closed spec fn spec_url(&self) -> url::Url {
        self.url
    }

    pub closed spec fn spec_sdk_key(&self) -> Seq<char> {
        self.sdk_key@
    }

    pub closed spec fn spec_default_headers(&self) -> Seq<(String, String)> {
        self.default_headers@
    }

    pub fn new(default_headers: Vec<(String, String)>, url: url::Url, sdk_key: &str) -> (r: Self)
        ensures
            r.spec_default_headers() == default_headers@,
            r.spec_url() == url,
            r.spec_sdk_key() == sdk_key@,
    {
        Self { default_headers, url, sdk_key: sdk_key.to_owned() }
    }

    /// The event-ingestion endpoint.
    pub fn url(&self) -> (r: &url::Url)
        ensures
            *r == self.spec_url(),
    {
        &self.url
    }

    /// The headers of every attempt of a send with this correlation identifier.
    pub fn request_headers(&self, payload_id: &str) -> (r: Vec<(String, String)>)
        ensures
            header_views(r@) == event_headers(
                self.spec_sdk_key(),
                payload_id@,
                self.spec_default_headers(),
            ),
    {
        let mut out: Vec<(String, String)> = Vec::new();
        push_base_headers(&mut out, self.sdk_key.as_str());
        let ghost after_base = out@;
        out.push((LAUNCHDARKLY_EVENT_SCHEMA_HEADER.to_owned(), CURRENT_EVENT_SCHEMA.to_owned()));
        out.push((LAUNCHDARKLY_PAYLOAD_ID_HEADER.to_owned(), payload_id.to_owned()));
        let ghost after_ids = out@;
        assert(header_views(after_ids) =~= header_views(after_base) + seq![
            (LAUNCHDARKLY_EVENT_SCHEMA_HEADER@, CURRENT_EVENT_SCHEMA@),
            (LAUNCHDARKLY_PAYLOAD_ID_HEADER@, payload_id@),
        ]);
        push_all_headers(&mut out, &self.default_headers);
        assert(header_views(Seq::<(String, String)>::empty()) =~= Seq::empty());
        out
    }

    /// Starts a send: a fresh correlation identifier, and the headers that
    /// every attempt of this send carries.
    pub fn plan_send(&self) -> (r: SendPlan)
        ensures
            r.payload_id@.len() == 36,
            header_views(r.headers@) == event_headers(
                self.spec_sdk_key(),
                r.payload_id@,
                self.spec_default_headers(),
            ),
    {
        let payload_id = new_payload_id();
        let headers = self.request_headers(payload_id.as_str());
        SendPlan { payload_id, headers }
    }
}

} // verus!

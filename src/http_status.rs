use vstd::prelude::*;

verus! {

/// Whether an HTTP status code counts as a successful response.
pub open spec fn spec_is_http_success(status: u16) -> bool {
    status < 300
}

/// Whether an HTTP status code lies in the client-error range.
pub open spec fn spec_is_http_client_error(status: u16) -> bool {
    400 <= status < 500
}

/// Whether a failed request with this status is worth trying again.
pub open spec fn spec_is_http_error_recoverable(status: u16) -> bool {
    !spec_is_http_client_error(status) || status == 400 || status == 408 || status == 429
}

pub fn is_http_success(status: u16) -> (r: bool)
    ensures
        r == spec_is_http_success(status),
{
    status < 300
}

pub fn is_http_client_error(status: u16) -> (r: bool)
    ensures
        r == spec_is_http_client_error(status),
{
    status >= 400 && status < 500
}

pub fn is_http_error_recoverable(status: u16) -> (r: bool)
    ensures
        r == spec_is_http_error_recoverable(status),
{
    if !is_http_client_error(status) {
        return true;
    }
    status == 400 || status == 408 || status == 429
}

/// How a response status is to be treated.
#[derive(Debug, PartialEq, Eq, Structural, Clone, Copy)]
pub enum HttpOutcome {
    Success,
    RecoverableFailure,
    PermanentFailure,
}

pub open spec fn spec_classify(status: u16) -> HttpOutcome {
    if spec_is_http_success(status) {
        HttpOutcome::Success
    } else if spec_is_http_error_recoverable(status) {
        HttpOutcome::RecoverableFailure
    } else {
        HttpOutcome::PermanentFailure
    }
}

pub fn classify(status: u16) -> (r: HttpOutcome)
    ensures
        r == spec_classify(status),
{
    if is_http_success(status) {
        HttpOutcome::Success
    } else if is_http_error_recoverable(status) {
        HttpOutcome::RecoverableFailure
    } else {
        HttpOutcome::PermanentFailure
    }
}

/// Every status falls in exactly one class: success below 300; recoverable for
/// 400, 408, 429, every redirect and every server error; permanent for every
/// other client error.
pub proof fn lemma_classify_partition(status: u16)
    ensures
        spec_classify(status) == HttpOutcome::Success <==> status < 300,
        spec_classify(status) == HttpOutcome::RecoverableFailure <==> (status == 400 || status
            == 408 || status == 429 || status >= 500 || (300 <= status < 400)),
        spec_classify(status) == HttpOutcome::PermanentFailure <==> (400 <= status < 500
            && status != 400 && status != 408 && status != 429),
{
}

} // verus!

use vstd::prelude::*;

verus! {

/// The client identification sent as `User-Agent`.
pub const USER_AGENT: &'static str = "RustServerClient/0.1.0";

/// The header naming the event schema version of a batch.
pub const LAUNCHDARKLY_EVENT_SCHEMA_HEADER: &'static str = "X-LaunchDarkly-Event-Schema";

/// The header carrying the correlation identifier of a batch.
pub const LAUNCHDARKLY_PAYLOAD_ID_HEADER: &'static str = "X-LaunchDarkly-Payload-ID";

/// The event schema version this client writes.
pub const CURRENT_EVENT_SCHEMA: &'static str = "4";

/// A list of headers as pairs of character sequences.
pub open spec fn header_views(v: Seq<(String, String)>) -> Seq<(Seq<char>, Seq<char>)> {
    v.map_values(|p: (String, String)| (p.0@, p.1@))
}

/// The JSON content type, credential and client identification that open
/// every request.
pub open spec fn base_headers(sdk_key: Seq<char>) -> Seq<(Seq<char>, Seq<char>)> {
    seq![
        ("Content-Type"@, "application/json"@),
        ("Authorization"@, sdk_key),
        ("User-Agent"@, USER_AGENT@),
    ]
}

/// Appends the three opening headers for the credential.
pub fn push_base_headers(out: &mut Vec<(String, String)>, sdk_key: &str)
    ensures
        header_views(final(out)@) == header_views(old(out)@) + base_headers(sdk_key@),
{
    proof {
        reveal_strlit("Content-Type");
        reveal_strlit("application/json");
        reveal_strlit("Authorization");
        reveal_strlit("User-Agent");
    }
    let ghost start = out@;
    out.push(("Content-Type".to_owned(), "application/json".to_owned()));
    out.push(("Authorization".to_owned(), sdk_key.to_owned()));
    out.push(("User-Agent".to_owned(), USER_AGENT.to_owned()));
    assert(header_views(out@) =~= header_views(start) + base_headers(sdk_key@));
}

/// Appends a copy of every header of `extra`, keeping their order.
pub fn push_all_headers(out: &mut Vec<(String, String)>, extra: &Vec<(String, String)>)
    ensures
        header_views(final(out)@) == header_views(old(out)@) + header_views(extra@),
{
    let ghost start = out@;
    let mut i: usize = 0;
    while i < extra.len()
        invariant
            i <= extra@.len(),
            header_views(out@) == header_views(start) + header_views(extra@.subrange(0, i as int)),
        decreases extra@.len() - i,
    {
        let pair = &extra[i];
        let k = pair.0.clone();
        let v = pair.1.clone();
        let ghost before = out@;
        out.push((k, v));
        assert(extra@.subrange(0, i + 1) =~= extra@.subrange(0, i as int).push(extra@[i as int]));
        assert(header_views(out@) =~= header_views(before).push((extra@[i as int].0@, extra@[i as int].1@)));
        assert(header_views(extra@.subrange(0, i + 1)) =~= header_views(extra@.subrange(0, i as int)).push((extra@[i as int].0@, extra@[i as int].1@)));
        i = i + 1;
    }
    assert(extra@.subrange(0, extra@.len() as int) =~= extra@);
}

} // verus!

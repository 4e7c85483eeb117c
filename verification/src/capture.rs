//! Request handling of the local token-capture listener.
//!
//! The authorization endpoint redirects the user's browser to
//! `/redirect#access_token=...` on the loopback port; the credential sits in
//! the URL fragment, which a browser never sends to a server.  Any request
//! whose path is `/redirect` is therefore answered with a fixed bounce
//! document whose script turns the fragment into a query string and
//! navigates once more.  A request for any other path is searched for an
//! `access_token` query parameter: when present, its value is the captured
//! token and a short confirmation page is served; when absent, the request
//! is malformed or unrelated, and the listener just keeps waiting.
//!
//! Only the decisions and the exact response bytes live here; the listener
//! socket itself stays outside.
use vstd::prelude::*;

use crate::text::{dec_rep, is_space, is_space_char, usize_to_string, views_of};

verus! {

/// The fields of an HTTP request line, split on whitespace: the state after
/// reading a prefix of the line.
pub ghost struct FieldsState {
    pub done: Seq<Seq<char>>,
    pub cur: Seq<char>,
    pub started: bool,
}

pub open spec fn fields_init() -> FieldsState {
    FieldsState { done: Seq::empty(), cur: Seq::empty(), started: false }
}

pub open spec fn fields_step(st: FieldsState, c: char) -> FieldsState {
    if is_space_char(c) {
        if st.started {
            FieldsState { done: st.done.push(st.cur), cur: Seq::empty(), started: false }
        } else {
            st
        }
    } else {
        FieldsState { done: st.done, cur: st.cur.push(c), started: true }
    }
}

pub open spec fn fields_run(s: Seq<char>) -> FieldsState
    decreases s.len(),
{
    if s.len() == 0 {
        fields_init()
    } else {
        fields_step(fields_run(s.drop_last()), s.last())
    }
}

/// The whitespace-separated fields of s, in order, empty fields dropped.
pub open spec fn ws_fields(s: Seq<char>) -> Seq<Seq<char>> {
    let st = fields_run(s);
    if st.started {
        st.done.push(st.cur)
    } else {
        st.done
    }
}

proof fn lemma_fields_run_snoc(s: Seq<char>, i: int)
    requires
        0 <= i < s.len(),
    ensures
        fields_run(s.take(i + 1)) == fields_step(fields_run(s.take(i)), s[i]),
{
    assert(s.take(i + 1).drop_last() =~= s.take(i));
    assert(s.take(i + 1).last() == s[i]);
}

/// Splits s into its whitespace-separated fields.
pub fn split_whitespace_fields(s: &str) -> (r: Vec<String>)
    ensures
        views_of(r@) == ws_fields(s@),
{
    let len: usize = s.unicode_len();
    let mut out: Vec<String> = Vec::new();
    let mut cur: String = String::new();
    let mut started: bool = false;
    let mut i: usize = 0;
    proof {
        assert(s@.take(0) =~= Seq::<char>::empty());
        assert(views_of(out@) =~= fields_init().done);
    }
    while i < len
        invariant
            len == s@.len(),
            i <= len,
            views_of(out@) == fields_run(s@.take(i as int)).done,
            cur@ == fields_run(s@.take(i as int)).cur,
            started == fields_run(s@.take(i as int)).started,
        decreases len - i,
    {
        let c = s.get_char(i);
        proof {
            lemma_fields_run_snoc(s@, i as int);
        }
        if is_space(c) {
            if started {
                proof {
                    assert(views_of(out@.push(cur)) =~= views_of(out@).push(cur@));
                }
                out.push(cur);
                cur = String::new();
                started = false;
            }
        } else {
            crate::text::push_char(&mut cur, c);
            started = true;
        }
        i = i + 1;
    }
    proof {
        assert(s@.take(len as int) =~= s@);
    }
    if started {
        proof {
            assert(views_of(out@.push(cur)) =~= views_of(out@).push(cur@));
        }
        out.push(cur);
    }
    out
}

/// The request target named on the request line: its second
/// whitespace-separated field, as in `GET /redirect HTTP/1.1`.
pub open spec fn request_target_spec(line: Seq<char>) -> Option<Seq<char>> {
    if ws_fields(line).len() >= 2 {
        Some(ws_fields(line)[1])
    } else {
        None
    }
}

/// s split at the first occurrence of sep: the part before it, and the part
/// after it (everything, when sep does not occur, stands before).
pub open spec fn split_head(s: Seq<char>, sep: char) -> (Seq<char>, Seq<char>)
    decreases s.len(),
{
    if s.len() == 0 {
        (s, Seq::empty())
    } else if s[0] == sep {
        (Seq::empty(), s.skip(1))
    } else {
        let r = split_head(s.skip(1), sep);
        (seq![s[0]] + r.0, r.1)
    }
}

proof fn lemma_split_head_at(s: Seq<char>, sep: char, i: int)
    requires
        0 <= i <= s.len(),
        forall|j: int| 0 <= j < i ==> s[j] != sep,
        i < s.len() ==> s[i] == sep,
    ensures
        split_head(s, sep) == if i < s.len() {
            (s.take(i), s.skip(i + 1))
        } else {
            (s, Seq::<char>::empty())
        },
    decreases i,
{
    if i == 0 {
        if s.len() > 0 {
            assert(s.take(0) =~= Seq::<char>::empty());
        }
    } else {
        lemma_split_head_at(s.skip(1), sep, i - 1);
        if i < s.len() {
            assert(seq![s[0]] + s.skip(1).take(i - 1) =~= s.take(i));
            assert(s.skip(1).skip(i) =~= s.skip(i + 1));
        } else {
            assert(seq![s[0]] + s.skip(1) =~= s);
        }
    }
}

/// Splits s at the first occurrence of sep.
pub fn split_head_str(s: &str, sep: char) -> (r: (String, String))
    ensures
        r.0@ == split_head(s@, sep).0,
        r.1@ == split_head(s@, sep).1,
{
    let len: usize = s.unicode_len();
    let mut i: usize = 0;
    while i < len
        invariant
            len == s@.len(),
            i <= len,
            forall|j: int| 0 <= j < i ==> s@[j] != sep,
        decreases len - i,
    {
        if s.get_char(i) == sep {
            proof {
                lemma_split_head_at(s@, sep, i as int);
            }
            let before = s.substring_char(0, i);
            let after = s.substring_char(i + 1, len);
            proof {
                assert(s@.take(i as int) =~= s@.subrange(0, i as int));
                assert(s@.skip(i as int + 1) =~= s@.subrange(i as int + 1, len as int));
            }
            return (String::from_str(before), String::from_str(after));
        }
        i = i + 1;
    }
    proof {
        lemma_split_head_at(s@, sep, len as int);
    }
    (String::from_str(s), String::new())
}

/// The segments of s between occurrences of sep, empty segments kept: the
/// state after reading a prefix.
pub ghost struct SegmentsState {
    pub done: Seq<Seq<char>>,
    pub cur: Seq<char>,
}

pub open spec fn segments_run(s: Seq<char>, sep: char) -> SegmentsState
    decreases s.len(),
{
    if s.len() == 0 {
        SegmentsState { done: Seq::empty(), cur: Seq::empty() }
    } else {
        let r = segments_run(s.drop_last(), sep);
        if s.last() == sep {
            SegmentsState { done: r.done.push(r.cur), cur: Seq::empty() }
        } else {
            SegmentsState { done: r.done, cur: r.cur.push(s.last()) }
        }
    }
}

/// s split on every occurrence of sep; splitting the empty sequence gives
/// one empty segment.
pub open spec fn split_on(s: Seq<char>, sep: char) -> Seq<Seq<char>> {
    segments_run(s, sep).done.push(segments_run(s, sep).cur)
}

proof fn lemma_segments_run_snoc(s: Seq<char>, sep: char, i: int)
    requires
        0 <= i < s.len(),
    ensures
        segments_run(s.take(i + 1), sep) == if s[i] == sep {
            SegmentsState {
                done: segments_run(s.take(i), sep).done.push(segments_run(s.take(i), sep).cur),
                cur: Seq::empty(),
            }
        } else {
            SegmentsState {
                done: segments_run(s.take(i), sep).done,
                cur: segments_run(s.take(i), sep).cur.push(s[i]),
            }
        },
{
    assert(s.take(i + 1).drop_last() =~= s.take(i));
    assert(s.take(i + 1).last() == s[i]);
}

/// Splits s on every occurrence of sep, keeping empty segments.
pub fn split_on_str(s: &str, sep: char) -> (r: Vec<String>)
    ensures
        views_of(r@) == split_on(s@, sep),
{
    let len: usize = s.unicode_len();
    let mut out: Vec<String> = Vec::new();
    let mut cur: String = String::new();
    let mut i: usize = 0;
    proof {
        assert(s@.take(0) =~= Seq::<char>::empty());
        assert(views_of(out@) =~= Seq::<Seq<char>>::empty());
    }
    while i < len
        invariant
            len == s@.len(),
            i <= len,
            views_of(out@) == segments_run(s@.take(i as int), sep).done,
            cur@ == segments_run(s@.take(i as int), sep).cur,
        decreases len - i,
    {
        let c = s.get_char(i);
        proof {
            lemma_segments_run_snoc(s@, sep, i as int);
        }
        if c == sep {
            proof {
                assert(views_of(out@.push(cur)) =~= views_of(out@).push(cur@));
            }
            out.push(cur);
            cur = String::new();
        } else {
            crate::text::push_char(&mut cur, c);
        }
        i = i + 1;
    }
    proof {
        assert(s@.take(len as int) =~= s@);
        assert(views_of(out@.push(cur)) =~= views_of(out@).push(cur@));
    }
    out.push(cur);
    out
}

/// The value of the first pair of the list whose key (the part before the
/// first `=`) equals key; a pair without `=` counts as having an empty
/// value.
pub open spec fn lookup_param(pairs: Seq<Seq<char>>, key: Seq<char>) -> Option<Seq<char>>
    decreases pairs.len(),
{
    if pairs.len() == 0 {
        None
    } else if split_head(pairs[0], '=').0 == key {
        Some(split_head(pairs[0], '=').1)
    } else {
        lookup_param(pairs.skip(1), key)
    }
}

/// The value bound to key in the query string q, whose pairs are separated
/// by `&`.
pub open spec fn query_param(q: Seq<char>, key: Seq<char>) -> Option<Seq<char>> {
    lookup_param(split_on(q, '&'), key)
}

/// Looks key up in the query string q.
pub fn query_param_str(q: &str, key: &str) -> (r: Option<String>)
    ensures
        r is Some <==> query_param(q@, key@) is Some,
        r matches Some(v) ==> query_param(q@, key@) == Some(v@),
{
    let pairs = split_on_str(q, '&');
    let keystr = String::from_str(key);
    let mut i: usize = 0;
    proof {
        assert(views_of(pairs@).skip(0) =~= views_of(pairs@));
    }
    while i < pairs.len()
        invariant
            keystr@ == key@,
            i <= pairs@.len(),
            views_of(pairs@) == split_on(q@, '&'),
            lookup_param(views_of(pairs@).skip(i as int), key@) == query_param(q@, key@),
        decreases pairs@.len() - i,
    {
        proof {
            assert(views_of(pairs@).skip(i as int)[0] == pairs@[i as int]@);
            assert(views_of(pairs@).skip(i as int).skip(1) =~= views_of(pairs@).skip(i as int + 1));
        }
        let pair: &String = &pairs[i];
        let (k, v) = split_head_str(pair.as_str(), '=');
        if k.eq(&keystr) {
            return Some(v);
        }
        i = i + 1;
    }
    None
}

/// A minimal HTTP/1.1 success response: status line, Content-Length header
/// counting the body's UTF-8 bytes, an optional Content-Type header, a
/// blank line, then the body.
pub open spec fn http_ok_response_spec(content_type: Option<Seq<char>>, body: Seq<char>) -> Seq<
    char,
> {
    "HTTP/1.1 200 OK\r\nContent-Length: "@ + dec_rep(crate::text::utf8_len(body)) + (match content_type {
        Some(ct) => "\r\nContent-Type: "@ + ct,
        None => Seq::empty(),
    }) + "\r\n\r\n"@ + body
}

/// Frames the body as a success response.
pub fn http_ok_response(content_type: Option<&str>, body: &str) -> (r: String)
    ensures
        content_type matches Some(ct) ==> r@ == http_ok_response_spec(Some(ct@), body@),
        content_type is None ==> r@ == http_ok_response_spec(None, body@),
{
    let mut out: String = String::from_str("HTTP/1.1 200 OK\r\nContent-Length: ");
    let n: usize = crate::text::byte_len(body);
    let digits = usize_to_string(n);
    out.append(digits.as_str());
    match content_type {
        Some(ct) => {
            out.append("\r\nContent-Type: ");
            out.append(ct);
        },
        None => {},
    }
    out.append("\r\n\r\n");
    out.append(body);
    proof {
        if content_type is Some {
            assert(out@ =~= http_ok_response_spec(Some(content_type->0@), body@));
        } else {
            assert(out@ =~= http_ok_response_spec(None, body@));
        }
    }
    out
}

/// The fixed document served for `/redirect`: its script turns the URL
/// fragment, where the token arrives, into a query string and navigates
/// again, so that the listener can observe the token.
pub fn bounce_document() -> (r: &'static str)
    ensures
        r@ == bounce_document_spec(),
{
    "<!DOCTYPE html><html><head><title>Authorization</title></head><body><p>Completing authorization&hellip;</p><script>window.location.replace(\"/capture?\" + window.location.hash.substring(1));</script></body></html>"
}

/// The text of the bounce document.
pub open spec fn bounce_document_spec() -> Seq<char> {
    "<!DOCTYPE html><html><head><title>Authorization</title></head><body><p>Completing authorization&hellip;</p><script>window.location.replace(\"/capture?\" + window.location.hash.substring(1));</script></body></html>"@
}

/// The page shown once the token is captured.
pub fn confirmation_message() -> (r: &'static str)
    ensures
        r@ == confirmation_message_spec(),
{
    "You can now close this page"
}

/// The text of the confirmation page.
pub open spec fn confirmation_message_spec() -> Seq<char> {
    "You can now close this page"@
}

/// What the listener does with one incoming request.
pub enum CaptureStep {
    /// Serve the bounce document and keep listening.
    Bounce { response: String },
    /// Persist the token, serve the confirmation, and stop listening.
    Captured { response: String, token: String },
    /// Malformed or unrelated request: send nothing and keep listening.
    KeepWaiting,
}

/// The request line asks for the path `/redirect`, whatever its query
/// string.
pub open spec fn is_redirect_request(line: Seq<char>) -> bool {
    &&& request_target_spec(line) is Some
    &&& split_head(request_target_spec(line)->0, '?').0 == "/redirect"@
}

/// The token carried by the request line: the `access_token` query value of
/// a request for any path but `/redirect`.
pub open spec fn carried_token(line: Seq<char>) -> Option<Seq<char>> {
    if request_target_spec(line) is Some && !is_redirect_request(line) {
        query_param(split_head(request_target_spec(line)->0, '?').1, "access_token"@)
    } else {
        None
    }
}

/// Decides what to do with one request, from its request line alone.
/// A request for `/redirect` is always answered with the bounce document,
/// whatever its query string; a request for any other path is captured
/// exactly when it carries an `access_token` query parameter, whose value
/// is taken as the token; everything else leaves the listener waiting.
pub fn handle_request(line: &str) -> (r: CaptureStep)
    ensures
        r is Bounce <==> is_redirect_request(line@),
        r matches CaptureStep::Bounce { response } ==> response@ == http_ok_response_spec(
            None,
            bounce_document_spec(),
        ),
        r is Captured <==> carried_token(line@) is Some,
        r matches CaptureStep::Captured { response, token } ==> {
            &&& carried_token(line@) == Some(token@)
            &&& response@ == http_ok_response_spec(
                Some("text/plain"@),
                confirmation_message_spec(),
            )
        },
{
    let fields = split_whitespace_fields(line);
    if fields.len() < 2 {
        return CaptureStep::KeepWaiting;
    }
    let target: &String = &fields[1];
    proof {
        assert(views_of(fields@)[1] == target@);
    }
    let (path, query) = split_head_str(target.as_str(), '?');
    let redirect = String::from_str("/redirect");
    if path.eq(&redirect) {
        let response = http_ok_response(None, bounce_document());
        CaptureStep::Bounce { response }
    } else {
        match query_param_str(query.as_str(), "access_token") {
            Some(token) => {
                let response = http_ok_response(Some("text/plain"), confirmation_message());
                CaptureStep::Captured { response, token }
            },
            None => CaptureStep::KeepWaiting,
        }
    }
}

/// The URL of the authorization endpoint for an implicit grant: the user's
/// browser is sent here, and the endpoint redirects it back to the capture
/// listener.  The caller passes values that need no URL escaping.
pub fn authorize_url(client_id: &str, redirect_uri: &str, scope: &str) -> (r: String)
    ensures
        r@ == "https://id.twitch.tv/oauth2/authorize?response_type=token&client_id="@ + client_id@
            + "&redirect_uri="@ + redirect_uri@ + "&scope="@ + scope@,
{
    let mut out: String = String::from_str(
        "https://id.twitch.tv/oauth2/authorize?response_type=token&client_id=",
    );
    out.append(client_id);
    out.append("&redirect_uri=");
    out.append(redirect_uri);
    out.append("&scope=");
    out.append(scope);
    proof {
        assert(out@ =~= "https://id.twitch.tv/oauth2/authorize?response_type=token&client_id="@
            + client_id@ + "&redirect_uri="@ + redirect_uri@ + "&scope="@ + scope@);
    }
    out
}

} // verus!

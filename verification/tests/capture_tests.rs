use twitch_gui_core::capture::{
    authorize_url, bounce_document, confirmation_message, handle_request, http_ok_response,
    query_param_str, split_head_str, split_on_str, split_whitespace_fields, CaptureStep,
};
use twitch_gui_core::text::usize_to_string;

#[test]
fn decimal_formatting_is_exact() {
    assert_eq!(usize_to_string(0), "0");
    assert_eq!(usize_to_string(7), "7");
    assert_eq!(usize_to_string(320), "320");
    assert_eq!(usize_to_string(65535), "65535");
}

#[test]
fn request_line_fields_are_split_on_whitespace() {
    assert_eq!(
        split_whitespace_fields("GET /redirect HTTP/1.1"),
        vec!["GET".to_string(), "/redirect".to_string(), "HTTP/1.1".to_string()]
    );
    assert_eq!(split_whitespace_fields("  \r\n"), Vec::<String>::new());
}

#[test]
fn split_head_cuts_at_first_separator_only() {
    let (k, v) = split_head_str("access_token=a=b", '=');
    assert_eq!(k, "access_token");
    assert_eq!(v, "a=b");
    let (all, rest) = split_head_str("no-separator", '=');
    assert_eq!(all, "no-separator");
    assert_eq!(rest, "");
}

#[test]
fn split_on_keeps_empty_segments() {
    assert_eq!(split_on_str("a&&b", '&'), vec!["a".to_string(), "".to_string(), "b".to_string()]);
    assert_eq!(split_on_str("", '&'), vec!["".to_string()]);
}

#[test]
fn query_lookup_finds_first_binding() {
    assert_eq!(
        query_param_str("scope=user&access_token=XYZ", "access_token"),
        Some("XYZ".to_string())
    );
    assert_eq!(
        query_param_str("access_token=first&access_token=second", "access_token"),
        Some("first".to_string())
    );
    assert_eq!(query_param_str("scope=user", "access_token"), None);
    assert_eq!(query_param_str("access_token", "access_token"), Some("".to_string()));
}

#[test]
fn redirect_request_gets_the_bounce_document() {
    let step = handle_request("GET /redirect HTTP/1.1");
    match step {
        CaptureStep::Bounce { response } => {
            let doc = bounce_document();
            let expected = format!(
                "HTTP/1.1 200 OK\r\nContent-Length: {}\r\n\r\n{}",
                doc.len(),
                doc
            );
            assert_eq!(response, expected);
        }
        _ => panic!("expected the bounce document"),
    }
}

#[test]
fn redirect_request_bounces_regardless_of_query_string() {
    let step = handle_request("GET /redirect?access_token=XYZ HTTP/1.1");
    assert!(matches!(step, CaptureStep::Bounce { .. }));
}

#[test]
fn capture_request_persists_exactly_the_token_and_confirms() {
    let step = handle_request("GET /capture?access_token=XYZ&scope=user HTTP/1.1");
    match step {
        CaptureStep::Captured { response, token } => {
            assert_eq!(token, "XYZ");
            assert_eq!(
                response,
                "HTTP/1.1 200 OK\r\nContent-Length: 27\r\nContent-Type: text/plain\r\n\r\nYou can now close this page"
            );
        }
        _ => panic!("expected a capture"),
    }
}

#[test]
fn request_without_token_keeps_the_listener_waiting() {
    assert!(matches!(
        handle_request("GET /capture?scope=user HTTP/1.1"),
        CaptureStep::KeepWaiting
    ));
    assert!(matches!(handle_request("GET /favicon.ico HTTP/1.1"), CaptureStep::KeepWaiting));
}

#[test]
fn malformed_request_line_keeps_the_listener_waiting() {
    assert!(matches!(handle_request(""), CaptureStep::KeepWaiting));
    assert!(matches!(handle_request("GET"), CaptureStep::KeepWaiting));
}

#[test]
fn confirmation_page_text() {
    assert_eq!(confirmation_message(), "You can now close this page");
}

#[test]
fn response_framing_counts_body_bytes() {
    assert_eq!(
        http_ok_response(None, "abc"),
        "HTTP/1.1 200 OK\r\nContent-Length: 3\r\n\r\nabc"
    );
    assert_eq!(
        http_ok_response(Some("text/plain"), ""),
        "HTTP/1.1 200 OK\r\nContent-Length: 0\r\nContent-Type: text/plain\r\n\r\n"
    );
}

#[test]
fn authorization_endpoint_url() {
    let url = authorize_url("someclientid", "http://localhost:5454/redirect", "user:read:follows");
    assert_eq!(
        url,
        "https://id.twitch.tv/oauth2/authorize?response_type=token&client_id=someclientid&redirect_uri=http://localhost:5454/redirect&scope=user:read:follows"
    );
}

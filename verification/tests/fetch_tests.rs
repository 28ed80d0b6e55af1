use ngrok_monitor::fetch::{extract_public_url, fetch_from_response, FetchError, TunnelsDoc};

#[test]
fn returns_first_tunnel_url_verbatim() {
    let body = r#"{"tunnels":[{"name":"command_line","public_url":"https://x.ngrok.io"}]}"#;
    let r = fetch_from_response(200, body);
    assert_eq!(r, Ok("https://x.ngrok.io".to_string()));
}

#[test]
fn returns_first_of_several_tunnels() {
    let body = r#"{"tunnels":[{"name":"a","public_url":"tcp://0.tcp.ngrok.io:11111"},{"name":"b","public_url":"tcp://0.tcp.ngrok.io:22222"}]}"#;
    let r = fetch_from_response(200, body);
    assert_eq!(r, Ok("tcp://0.tcp.ngrok.io:11111".to_string()));
}

#[test]
fn extra_fields_are_ignored() {
    let body = r#"{"uri":"/api/tunnels","tunnels":[{"public_url":"https://y.ngrok.io","proto":"https"}]}"#;
    assert_eq!(fetch_from_response(200, body), Ok("https://y.ngrok.io".to_string()));
}

#[test]
fn missing_tunnels_field_is_missing_field() {
    let r = fetch_from_response(200, r#"{"uri":"/api/tunnels"}"#);
    assert_eq!(r, Err(FetchError::MissingField));
}

#[test]
fn empty_tunnels_array_is_missing_field() {
    let r = fetch_from_response(200, r#"{"tunnels":[]}"#);
    assert_eq!(r, Err(FetchError::MissingField));
}

#[test]
fn tunnels_not_an_array_is_missing_field() {
    let r = fetch_from_response(200, r#"{"tunnels":{"name":"a"}}"#);
    assert_eq!(r, Err(FetchError::MissingField));
}

#[test]
fn first_tunnel_without_url_is_missing_field() {
    let r = fetch_from_response(200, r#"{"tunnels":[{"name":"a"}]}"#);
    assert_eq!(r, Err(FetchError::MissingField));
    let r = fetch_from_response(200, r#"{"tunnels":[{"public_url":42}]}"#);
    assert_eq!(r, Err(FetchError::MissingField));
}

#[test]
fn malformed_body_is_parse_error() {
    let r = fetch_from_response(200, "not json at all {{{");
    assert_eq!(r, Err(FetchError::Parse));
}

#[test]
fn non_success_status_is_reported() {
    let body = r#"{"tunnels":[{"public_url":"https://x.ngrok.io"}]}"#;
    assert_eq!(fetch_from_response(404, body), Err(FetchError::Status(404)));
    assert_eq!(fetch_from_response(500, body), Err(FetchError::Status(500)));
    assert_eq!(fetch_from_response(199, body), Err(FetchError::Status(199)));
    assert_eq!(fetch_from_response(299, body), Ok("https://x.ngrok.io".to_string()));
}

#[test]
fn extract_reads_decoded_documents() {
    let doc = TunnelsDoc::Doc {
        urls: vec![Some("https://z.ngrok.io".to_string()), None],
    };
    assert_eq!(extract_public_url(&doc), Ok("https://z.ngrok.io".to_string()));

    let doc = TunnelsDoc::Doc { urls: vec![None, Some("https://z.ngrok.io".to_string())] };
    assert_eq!(extract_public_url(&doc), Err(FetchError::MissingField));

    let doc = TunnelsDoc::Doc { urls: vec![] };
    assert_eq!(extract_public_url(&doc), Err(FetchError::MissingField));

    assert_eq!(extract_public_url(&TunnelsDoc::Malformed), Err(FetchError::Parse));
}

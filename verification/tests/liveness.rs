use stretch_backend::liveness::{
    check_stream_live, liveness_request, FETCH_FAILED, FIRST_BYTE, PROBE_MAX_REDIRECTS, RANGE,
};
use stretch_backend::request::{Header, Method, Outcome};

fn verdict_on(status: u16) -> Result<bool, String> {
    check_stream_live(Outcome::Responded { status })
}

#[test]
fn liveness_request_asks_for_the_first_byte() {
    let request = liveness_request(String::from("https://cdn.example/live.m3u8"));
    assert_eq!(request.method, Method::Get);
    assert_eq!(request.url, "https://cdn.example/live.m3u8");
    assert_eq!(
        request.headers,
        vec![Header { name: String::from("Range"), value: String::from("bytes=0-0") }]
    );
    assert_eq!(request.body, None);
    assert_eq!(request.max_redirects, 5);
}

#[test]
fn liveness_constants() {
    assert_eq!(PROBE_MAX_REDIRECTS, 5);
    assert_eq!(RANGE, "Range");
    assert_eq!(FIRST_BYTE, "bytes=0-0");
    assert_eq!(FETCH_FAILED, "fetch failed");
}

#[test]
fn stream_is_absent_on_404() {
    assert_eq!(verdict_on(404), Ok(false));
}

#[test]
fn stream_is_live_on_success_and_partial_content() {
    assert_eq!(verdict_on(200), Ok(true));
    assert_eq!(verdict_on(206), Ok(true));
}

#[test]
fn stream_is_live_on_error_statuses_other_than_404() {
    assert_eq!(verdict_on(403), Ok(true));
    assert_eq!(verdict_on(405), Ok(true));
    assert_eq!(verdict_on(410), Ok(true));
    assert_eq!(verdict_on(416), Ok(true));
    assert_eq!(verdict_on(500), Ok(true));
    assert_eq!(verdict_on(503), Ok(true));
}

#[test]
fn stream_is_live_on_every_status_but_404() {
    let mut status: u16 = 0;
    loop {
        assert_eq!(verdict_on(status), Ok(status != 404));
        if status == u16::MAX {
            break;
        }
        status += 1;
    }
}

#[test]
fn probe_without_response_fails_with_fetch_failed() {
    let outcome = Outcome::RequestFailed(String::from(
        "error sending request: dns error: failed to lookup address information",
    ));
    assert_eq!(check_stream_live(outcome), Err(String::from("fetch failed")));
    assert_eq!(
        check_stream_live(Outcome::RequestFailed(String::new())),
        Err(String::from("fetch failed"))
    );
}

#[test]
fn probe_without_client_fails_with_the_transport_message() {
    let outcome = Outcome::ClientFailed(String::from("builder error"));
    assert_eq!(check_stream_live(outcome), Err(String::from("builder error")));
}

use stretch_backend::request::{Header, Method, Outcome};
use stretch_backend::status::{status_is_success, NOT_FOUND};
use stretch_backend::whep::{
    wants_body, whep_reply, whep_request, CONTENT_TYPE, SDP_MEDIA_TYPE, STATUS_ERROR_PREFIX,
    WHEP_MAX_REDIRECTS,
};

fn reply_to(status: u16, body: &str) -> Result<String, String> {
    whep_reply(Outcome::Responded { status }, Ok(String::from(body)))
}

#[test]
fn whep_request_posts_the_offer_as_sdp() {
    let request = whep_request(String::from("https://media.example/whep"), String::from("v=0\r\n"));
    assert_eq!(request.method, Method::Post);
    assert_eq!(request.url, "https://media.example/whep");
    assert_eq!(
        request.headers,
        vec![Header {
            name: String::from("Content-Type"),
            value: String::from("application/sdp"),
        }]
    );
    assert_eq!(request.body, Some(String::from("v=0\r\n")));
    assert_eq!(request.max_redirects, 10);
}

#[test]
fn whep_request_keeps_url_and_offer_apart() {
    let request = whep_request(String::from("a"), String::from("b"));
    assert_eq!(request.url, "a");
    assert_eq!(request.body, Some(String::from("b")));
}

#[test]
fn whep_constants() {
    assert_eq!(WHEP_MAX_REDIRECTS, 10);
    assert_eq!(CONTENT_TYPE, "Content-Type");
    assert_eq!(SDP_MEDIA_TYPE, "application/sdp");
    assert_eq!(STATUS_ERROR_PREFIX, "WHEP returned status ");
}

#[test]
fn whep_reply_returns_the_exact_body_on_200() {
    let body = "v=0\r\no=- 1 1 IN IP4 0.0.0.0\r\n\u{444}\u{44b}\r\n";
    assert_eq!(reply_to(200, body), Ok(String::from(body)));
    assert_eq!(reply_to(200, ""), Ok(String::new()));
}

#[test]
fn whep_reply_returns_the_body_on_every_success_status() {
    let mut status: u16 = 200;
    while status < 300 {
        assert_eq!(reply_to(status, "answer"), Ok(String::from("answer")));
        status += 1;
    }
}

#[test]
fn whep_reply_names_the_status_on_500() {
    let reply = reply_to(500, "ignored");
    assert_eq!(reply, Err(String::from("WHEP returned status 500")));
    assert!(reply.unwrap_err().contains("500"));
}

#[test]
fn whep_reply_fails_on_the_edges_of_the_success_class() {
    assert_eq!(reply_to(199, ""), Err(String::from("WHEP returned status 199")));
    assert_eq!(reply_to(300, ""), Err(String::from("WHEP returned status 300")));
    assert_eq!(reply_to(404, ""), Err(String::from("WHEP returned status 404")));
    assert_eq!(reply_to(0, ""), Err(String::from("WHEP returned status 0")));
    assert_eq!(reply_to(65_535, ""), Err(String::from("WHEP returned status 65535")));
}

#[test]
fn whep_reply_names_every_status_outside_the_success_class() {
    let mut status: u16 = 0;
    loop {
        if !(200..300).contains(&status) {
            let message = reply_to(status, "body").unwrap_err();
            assert_eq!(message, format!("WHEP returned status {}", status));
            assert!(message.contains(&format!("{}", status)));
        }
        if status == u16::MAX {
            break;
        }
        status += 1;
    }
}

#[test]
fn whep_reply_ignores_an_unreadable_body_of_a_refused_offer() {
    let reply = whep_reply(Outcome::Responded { status: 502 }, Err(String::from("unread")));
    assert_eq!(reply, Err(String::from("WHEP returned status 502")));
}

#[test]
fn whep_reply_hands_on_why_the_body_could_not_be_read() {
    let reply =
        whep_reply(Outcome::Responded { status: 200 }, Err(String::from("error decoding body")));
    assert_eq!(reply, Err(String::from("error decoding body")));
}

#[test]
fn whep_reply_hands_on_the_transport_message() {
    let failed = Outcome::RequestFailed(String::from("error sending request"));
    assert_eq!(
        whep_reply(failed, Ok(String::from("never read"))),
        Err(String::from("error sending request"))
    );
    let unbuilt = Outcome::ClientFailed(String::from("builder error"));
    assert_eq!(whep_reply(unbuilt, Ok(String::new())), Err(String::from("builder error")));
}

#[test]
fn whep_body_is_wanted_for_an_accepted_offer_only() {
    assert!(wants_body(&Outcome::Responded { status: 200 }));
    assert!(wants_body(&Outcome::Responded { status: 201 }));
    assert!(wants_body(&Outcome::Responded { status: 299 }));
    assert!(!wants_body(&Outcome::Responded { status: 199 }));
    assert!(!wants_body(&Outcome::Responded { status: 300 }));
    assert!(!wants_body(&Outcome::Responded { status: 404 }));
    assert!(!wants_body(&Outcome::Responded { status: 500 }));
    assert!(!wants_body(&Outcome::RequestFailed(String::from("x"))));
    assert!(!wants_body(&Outcome::ClientFailed(String::from("x"))));
}

#[test]
fn success_class_is_200_to_299() {
    assert!(!status_is_success(0));
    assert!(!status_is_success(100));
    assert!(!status_is_success(199));
    assert!(status_is_success(200));
    assert!(status_is_success(204));
    assert!(status_is_success(299));
    assert!(!status_is_success(300));
    assert!(!status_is_success(404));
    assert!(!status_is_success(500));
    assert!(!status_is_success(u16::MAX));
    assert_eq!(NOT_FOUND, 404);
}

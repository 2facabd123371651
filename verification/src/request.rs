//! Outbound HTTP requests as plain data: what to send, for a runner that
//! owns the transport to carry out, and what the runner reports of it.

use vstd::prelude::*;

verus! {

/// Request method.
#[derive(Clone, Copy, Debug, PartialEq, Eq)]
pub enum Method {
    Get,
    Post,
}

/// One request header.
#[derive(Debug, PartialEq, Eq)]
pub struct Header {
    pub name: String,
    pub value: String,
}

/// Model of a header: its name and value as character sequences.
pub ghost struct HeaderView {
    pub name: Seq<char>,
    pub value: Seq<char>,
}

impl View for Header {
    type V = HeaderView;

    open spec fn view(&self) -> HeaderView {
        HeaderView { name: self.name@, value: self.value@ }
    }
}

/// A request to send: method, target, headers in order, body if any, and
/// how many redirects may be followed on the way to the response.
#[derive(Debug, PartialEq, Eq)]
pub struct HttpRequest {
    pub method: Method,
    pub url: String,
    pub headers: Vec<Header>,
    pub body: Option<String>,
    pub max_redirects: u32,
}

/// Model of a request.
pub ghost struct HttpRequestView {
    pub method: Method,
    pub url: Seq<char>,
    pub headers: Seq<HeaderView>,
    pub body: Option<Seq<char>>,
    pub max_redirects: u32,
}

impl View for HttpRequest {
    type V = HttpRequestView;

    open spec fn view(&self) -> HttpRequestView {
        HttpRequestView {
            method: self.method,
            url: self.url@,
            headers: self.headers@.map_values(|h: Header| h@),
            body: match self.body {
                Some(text) => Some(text@),
                None => None,
            },
            max_redirects: self.max_redirects,
        }
    }
}

impl HttpRequestView {
    /// A bare `GET` of `url` that follows at most `max_redirects` redirects.
    pub open spec fn get(url: Seq<char>, max_redirects: u32) -> HttpRequestView {
        HttpRequestView {
            method: Method::Get,
            url,
            headers: Seq::empty(),
            body: None,
            max_redirects,
        }
    }

    /// The same request with one more header, after those it has.
    pub open spec fn with_header(self, name: Seq<char>, value: Seq<char>) -> HttpRequestView {
        HttpRequestView { headers: self.headers.push(HeaderView { name, value }), ..self }
    }

    /// The same request as a `POST` of `body`.
    pub open spec fn posting(self, body: Seq<char>) -> HttpRequestView {
        HttpRequestView { method: Method::Post, body: Some(body), ..self }
    }
}

impl HttpRequest {
    /// A bare `GET` of `url`, no headers and no body, that follows at most
    /// `max_redirects` redirects.
    pub fn get(url: String, max_redirects: u32) -> (request: HttpRequest)
        ensures
            request@ == HttpRequestView::get(url@, max_redirects),
    {
        let request = HttpRequest {
            method: Method::Get,
            url,
            headers: Vec::new(),
            body: None,
            max_redirects,
        };
        assert(request.headers@.map_values(|h: Header| h@) =~= Seq::<HeaderView>::empty());
        request
    }

    /// Adds a header after those already present.
    pub fn with_header(self, name: &str, value: &str) -> (request: HttpRequest)
        ensures
            request@ == self@.with_header(name@, value@),
    {
        let mut request = self;
        let ghost before = request.headers@;
        let header = Header { name: name.to_owned(), value: value.to_owned() };
        request.headers.push(header);
        assert(request.headers@.map_values(|h: Header| h@) =~= before.map_values(|h: Header| h@).push(
            header@,
        ));
        request
    }

    /// Turns the request into a `POST` that carries `body`.
    pub fn posting(self, body: String) -> (request: HttpRequest)
        ensures
            request@ == self@.posting(body@),
    {
        let mut request = self;
        request.method = Method::Post;
        request.body = Some(body);
        request
    }
}

/// What came of carrying out a request, as far as the response head.
#[derive(Debug, PartialEq, Eq)]
pub enum Outcome {
    /// The client that was to carry the request could not be built. The
    /// text is the transport's description of the failure.
    ClientFailed(String),
    /// The request was sent, or was to be sent, and no response arrived.
    /// The text is the transport's description of the failure.
    RequestFailed(String),
    /// A response arrived, with this status.
    Responded { status: u16 },
}

/// Model of an outcome.
pub ghost enum OutcomeView {
    ClientFailed(Seq<char>),
    RequestFailed(Seq<char>),
    Responded { status: u16 },
}

impl View for Outcome {
    type V = OutcomeView;

    open spec fn view(&self) -> OutcomeView {
        match self {
            Outcome::ClientFailed(why) => OutcomeView::ClientFailed(why@),
            Outcome::RequestFailed(why) => OutcomeView::RequestFailed(why@),
            Outcome::Responded { status } => OutcomeView::Responded { status: *status },
        }
    }
}

} // verus!

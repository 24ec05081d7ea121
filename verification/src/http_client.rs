//! The request gateway: what is sent to an appliance, and what its answer
//! means. Sending is left to the caller; the gateway settles the method,
//! the headers and the body beforehand, and judges the outcome afterwards.

use crate::text::{decimal, push_decimal};
use vstd::prelude::*;
use vstd::utf8::encode_utf8;

verus! {

/// The request methods that the gateway sends.
#[derive(Debug, Clone, Copy, PartialEq, Eq, Structural)]
pub enum Method {
    Get,
    Post,
    Patch,
    Put,
}

/// One header line of a request.
#[derive(Debug, PartialEq, Eq)]
pub struct Header {
    pub name: String,
    pub value: String,
}

/// A header as plain values.
#[verifier::ext_equal]
pub struct HeaderView {
    pub name: Seq<char>,
    pub value: Seq<char>,
}

impl View for Header {
    type V = HeaderView;

    open spec fn view(&self) -> HeaderView {
        HeaderView { name: self.name@, value: self.value@ }
    }
}

impl DeepView for Header {
    type V = HeaderView;

    open spec fn deep_view(&self) -> HeaderView {
        self@
    }
}

/// A request that is ready to be sent.
#[derive(Debug, PartialEq, Eq)]
pub struct PreparedRequest {
    pub method: Method,
    pub url: String,
    pub headers: Vec<Header>,
    /// The body, as JSON text.
    pub body: Option<String>,
    pub timeout_seconds: Option<u64>,
    /// Whether a certificate that cannot be validated is accepted.
    /// Appliances sign their own certificates, so it always is.
    pub accept_invalid_certs: bool,
}

/// A prepared request as plain values.
#[verifier::ext_equal]
pub struct PreparedRequestView {
    pub method: Method,
    pub url: Seq<char>,
    pub headers: Seq<HeaderView>,
    pub body: Option<Seq<char>>,
    pub timeout_seconds: Option<u64>,
    pub accept_invalid_certs: bool,
}

impl View for PreparedRequest {
    type V = PreparedRequestView;

    open spec fn view(&self) -> PreparedRequestView {
        PreparedRequestView {
            method: self.method,
            url: self.url@,
            headers: self.headers.deep_view(),
            body: match self.body {
                Some(text) => Some(text@),
                None => None,
            },
            timeout_seconds: self.timeout_seconds,
            accept_invalid_certs: self.accept_invalid_certs,
        }
    }
}

/// Why a request failed.
#[derive(Debug, PartialEq, Eq)]
pub enum GatewayError {
    /// The method is none of GET, POST, PATCH and PUT. Nothing was sent.
    InvalidMethod,
    /// The appliance answered with a status outside 200 to 299.
    RequestFailed { url: String, status: u16, body: String },
    /// The appliance could not be reached.
    TransportError { url: String, cause: String },
}

/// A gateway error as plain values.
#[verifier::ext_equal]
pub enum GatewayErrorView {
    InvalidMethod,
    RequestFailed { url: Seq<char>, status: u16, body: Seq<char> },
    TransportError { url: Seq<char>, cause: Seq<char> },
}

impl View for GatewayError {
    type V = GatewayErrorView;

    open spec fn view(&self) -> GatewayErrorView {
        match self {
            GatewayError::InvalidMethod => GatewayErrorView::InvalidMethod,
            GatewayError::RequestFailed { url, status, body } => GatewayErrorView::RequestFailed {
                url: url@,
                status: *status,
                body: body@,
            },
            GatewayError::TransportError { url, cause } => GatewayErrorView::TransportError {
                url: url@,
                cause: cause@,
            },
        }
    }
}

/// The method that a request type names.
pub open spec fn method_of(request_type: Seq<char>) -> Option<Method> {
    if request_type == "GET"@ {
        Some(Method::Get)
    } else if request_type == "POST"@ {
        Some(Method::Post)
    } else if request_type == "PATCH"@ {
        Some(Method::Patch)
    } else if request_type == "PUT"@ {
        Some(Method::Put)
    } else {
        None
    }
}

/// Reads a request type. Only the four methods, in capitals, are known.
pub fn parse_method(request_type: &str) -> (r: Result<Method, GatewayError>)
    ensures
        match method_of(request_type@) {
            Some(method) => r == Ok::<Method, GatewayError>(method),
            None => r == Err::<Method, GatewayError>(GatewayError::InvalidMethod),
        },
{
    let given = request_type.to_owned();
    if given == "GET".to_owned() {
        Ok(Method::Get)
    } else if given == "POST".to_owned() {
        Ok(Method::Post)
    } else if given == "PATCH".to_owned() {
        Ok(Method::Patch)
    } else if given == "PUT".to_owned() {
        Ok(Method::Put)
    } else {
        Err(GatewayError::InvalidMethod)
    }
}

/// Whether a status stands for success: 200 to 299.
pub fn is_success(status: u16) -> (r: bool)
    ensures
        r == (200 <= status < 300),
{
    200 <= status && status < 300
}

/// A byte with a capital ASCII letter made small.
pub open spec fn folded(byte: u8) -> u8 {
    if 0x41 <= byte <= 0x5a {
        (byte + 0x20) as u8
    } else {
        byte
    }
}

/// Header names are the same where their UTF-8 bytes are, the case of ASCII
/// letters aside.
pub open spec fn same_name(a: Seq<char>, b: Seq<char>) -> bool {
    let x = encode_utf8(a);
    let y = encode_utf8(b);
    x.len() == y.len() && forall|i: int| 0 <= i < x.len() ==> folded(x[i]) == folded(y[i])
}

/// Some header of the list has this name.
pub open spec fn mentions(headers: Seq<HeaderView>, name: Seq<char>) -> bool {
    exists|i: int| 0 <= i < headers.len() && same_name((#[trigger] headers[i]).name, name)
}

fn fold(byte: u8) -> (r: u8)
    ensures
        r == folded(byte),
{
    if 0x41 <= byte && byte <= 0x5a {
        byte + 0x20
    } else {
        byte
    }
}

/// Whether two header names are the same.
pub fn names_match(a: &str, b: &str) -> (r: bool)
    ensures
        r == same_name(a@, b@),
{
    let x = a.as_bytes();
    let y = b.as_bytes();
    if x.len() != y.len() {
        return false;
    }
    let mut i: usize = 0;
    while i < x.len()
        invariant
            i <= x.len(),
            x.len() == y.len(),
            x@ == encode_utf8(a@),
            y@ == encode_utf8(b@),
            forall|j: int| 0 <= j < i ==> folded(x@[j]) == folded(y@[j]),
        decreases x.len() - i,
    {
        if fold(x[i]) != fold(y[i]) {
            return false;
        }
        i += 1;
    }
    true
}

/// Whether some header of the list has this name.
pub fn has_header(headers: &Vec<Header>, name: &str) -> (r: bool)
    ensures
        r == mentions(headers.deep_view(), name@),
{
    let mut i: usize = 0;
    while i < headers.len()
        invariant
            i <= headers.len(),
            forall|j: int| 0 <= j < i ==> !same_name((#[trigger] headers.deep_view()[j]).name, name@),
        decreases headers.len() - i,
    {
        if names_match(headers[i].name.as_str(), name) {
            assert(same_name(headers.deep_view()[i as int].name, name@));
            return true;
        }
        i += 1;
    }
    false
}

/// The Base64 text of the UTF-8 bytes of `input`: standard alphabet, padded.
pub uninterp spec fn base64_text(input: Seq<char>) -> Seq<char>;

/// `base64::encode`: the input's bytes in Base64 with the standard alphabet
/// and padding.
#[verifier::external_body]
#[allow(deprecated)]
fn base64_encode(input: &str) -> (encoded: String)
    ensures
        encoded@ == base64_text(input@),
{
    base64::encode(input)
}

/// The value of the Authorization header of HTTP Basic authentication with
/// `key` as the user name and `secret` as the password.
pub open spec fn basic_authorization(key: Seq<char>, secret: Seq<char>) -> Seq<char> {
    "Basic "@ + base64_text(key + ":"@ + secret)
}

/// The headers of a request: Basic authorization where there are
/// credentials, then the caller's headers, then the content type of the body
/// where there is a body. The caller's word goes first: a header of its own
/// under one of the two names takes the place of the gateway's.
pub open spec fn request_headers(
    authorization: Option<Seq<char>>,
    extra: Seq<HeaderView>,
    has_body: bool,
) -> Seq<HeaderView> {
    let first = if authorization is Some && !mentions(extra, "authorization"@) {
        seq![HeaderView { name: "authorization"@, value: authorization->0 }]
    } else {
        Seq::empty()
    };
    let last = if has_body && !mentions(extra, "content-type"@) {
        seq![HeaderView { name: "content-type"@, value: "application/json"@ }]
    } else {
        Seq::empty()
    };
    first + extra + last
}

/// The request that the gateway makes for a method: the headers are
/// settled, a payload is the body, and certificates are not validated.
pub open spec fn request_of(
    method: Method,
    url: Seq<char>,
    payload: Option<Seq<char>>,
    headers: Option<Seq<HeaderView>>,
    timeout_seconds: Option<u64>,
    api_key: Option<Seq<char>>,
    api_secret: Option<Seq<char>>,
) -> PreparedRequestView {
    PreparedRequestView {
        method,
        url,
        headers: request_headers(
            if api_key is Some && api_secret is Some {
                Some(basic_authorization(api_key->0, api_secret->0))
            } else {
                None
            },
            match headers {
                Some(extra) => extra,
                None => Seq::empty(),
            },
            payload is Some,
        ),
        body: payload,
        timeout_seconds,
        accept_invalid_certs: true,
    }
}

/// The request that the gateway makes of what it is given, or the error
/// that it fails with before anything is sent.
pub open spec fn prepared(
    request_type: Seq<char>,
    url: Seq<char>,
    payload: Option<Seq<char>>,
    headers: Option<Seq<HeaderView>>,
    timeout_seconds: Option<u64>,
    api_key: Option<Seq<char>>,
    api_secret: Option<Seq<char>>,
) -> Result<PreparedRequestView, GatewayErrorView> {
    match method_of(request_type) {
        None => Err(GatewayErrorView::InvalidMethod),
        Some(method) => Ok(
            request_of(method, url, payload, headers, timeout_seconds, api_key, api_secret),
        ),
    }
}

/// The view of what preparing a request gave.
pub open spec fn outcome_view(r: Result<PreparedRequest, GatewayError>) -> Result<
    PreparedRequestView,
    GatewayErrorView,
> {
    match r {
        Ok(request) => Ok(request@),
        Err(error) => Err(error@),
    }
}

/// The view of an optional text.
pub open spec fn text_view(text: Option<&str>) -> Option<Seq<char>> {
    match text {
        Some(text) => Some(text@),
        None => None,
    }
}

/// The view of an optional owned text.
pub open spec fn string_view(text: Option<String>) -> Option<Seq<char>> {
    match text {
        Some(text) => Some(text@),
        None => None,
    }
}

/// The view of an optional list of headers.
pub open spec fn headers_view(headers: Option<Vec<Header>>) -> Option<Seq<HeaderView>> {
    match headers {
        Some(extra) => Some(extra.deep_view()),
        None => None,
    }
}

/// Prepares a request of a known method: credentials become a Basic
/// authorization header when both key and secret are given, the caller's
/// headers are merged in, and a payload is sent as JSON.
///
/// `payload` is the body as JSON text.
pub fn prepare(
    method: Method,
    url: &str,
    payload: Option<String>,
    headers: Option<Vec<Header>>,
    timeout_seconds: Option<u64>,
    api_key: Option<&str>,
    api_secret: Option<&str>,
) -> (request: PreparedRequest)
    ensures
        request@ == request_of(
            method,
            url@,
            string_view(payload),
            headers_view(headers),
            timeout_seconds,
            text_view(api_key),
            text_view(api_secret),
        ),
{
    let mut extra: Vec<Header> = match headers {
        Some(extra) => extra,
        None => Vec::new(),
    };
    let ghost given = extra.deep_view();
    let with_content_type = payload.is_some() && !has_header(&extra, "content-type");
    let mut all: Vec<Header> = Vec::new();
    match (api_key, api_secret) {
        (Some(key), Some(secret)) => {
            if !has_header(&extra, "authorization") {
                let mut credentials = key.to_owned();
                credentials.append(":");
                credentials.append(secret);
                let mut value = "Basic ".to_owned();
                value.append(base64_encode(credentials.as_str()).as_str());
                all.push(Header { name: "authorization".to_owned(), value });
                assert(all.deep_view() =~= seq![
                    HeaderView {
                        name: "authorization"@,
                        value: basic_authorization(key@, secret@),
                    },
                ]);
            }
        },
        _ => {},
    }
    let ghost first = all.deep_view();
    all.append(&mut extra);
    assert(all.deep_view() =~= first + given);
    if with_content_type {
        all.push(
            Header { name: "content-type".to_owned(), value: "application/json".to_owned() },
        );
        assert(all.deep_view() =~= first + given + seq![
            HeaderView { name: "content-type"@, value: "application/json"@ },
        ]);
    } else {
        assert(all.deep_view() =~= first + given + Seq::<HeaderView>::empty());
    }
    PreparedRequest {
        method,
        url: url.to_owned(),
        headers: all,
        body: payload,
        timeout_seconds,
        accept_invalid_certs: true,
    }
}

/// Prepares a request whose method is given by name. A name that is none of
/// GET, POST, PATCH and PUT fails here, before anything is sent.
pub fn prepare_request(
    request_type: &str,
    url: &str,
    payload: Option<String>,
    headers: Option<Vec<Header>>,
    timeout_seconds: Option<u64>,
    api_key: Option<&str>,
    api_secret: Option<&str>,
) -> (r: Result<PreparedRequest, GatewayError>)
    ensures
        outcome_view(r) == prepared(
            request_type@,
            url@,
            string_view(payload),
            headers_view(headers),
            timeout_seconds,
            text_view(api_key),
            text_view(api_secret),
        ),
{
    match parse_method(request_type) {
        Ok(method) => Ok(
            prepare(method, url, payload, headers, timeout_seconds, api_key, api_secret),
        ),
        Err(error) => Err(error),
    }
}

/// The error for an answer with a status outside 200 to 299. `body` is the
/// text of the answer, or `None` where it could not be read; the error then
/// carries an empty text.
pub fn request_failed(url: &str, status: u16, body: Option<String>) -> (error: GatewayError)
    ensures
        error@ == (GatewayErrorView::RequestFailed {
            url: url@,
            status,
            body: match body {
                Some(text) => text@,
                None => Seq::empty(),
            },
        }),
{
    GatewayError::RequestFailed {
        url: url.to_owned(),
        status,
        body: match body {
            Some(text) => text,
            None => String::new(),
        },
    }
}

/// What an answer means: a status from 200 to 299 is success, any other is
/// a failed request, with the address, the status and the body as its
/// error. `body` is the text of the answer, or `None` where it was not or
/// could not be read.
pub fn judge_response(url: &str, status: u16, body: Option<String>) -> (r: Result<
    (),
    GatewayError,
>)
    ensures
        200 <= status < 300 ==> r is Ok,
        !(200 <= status < 300) ==> r is Err && r->Err_0@ == (GatewayErrorView::RequestFailed {
            url: url@,
            status,
            body: match body {
                Some(text) => text@,
                None => Seq::empty(),
            },
        }),
{
    if is_success(status) {
        Ok(())
    } else {
        Err(request_failed(url, status, body))
    }
}

/// The error for a request that got no answer: the name was not resolved,
/// no connection was made, or the time ran out.
pub fn transport_failed(url: &str, cause: &str) -> (error: GatewayError)
    ensures
        error@ == (GatewayErrorView::TransportError { url: url@, cause: cause@ }),
{
    GatewayError::TransportError { url: url.to_owned(), cause: cause.to_owned() }
}

/// The text of an error.
pub open spec fn message_of(error: GatewayErrorView) -> Seq<char> {
    match error {
        GatewayErrorView::InvalidMethod => "Invalid request type"@,
        GatewayErrorView::RequestFailed { url, status, body } => "Request to "@ + url
            + " failed with status "@ + decimal(status as nat) + ": "@ + body,
        GatewayErrorView::TransportError { url, cause } => "Request to "@ + url + " failed: "@
            + cause,
    }
}

impl GatewayError {
    /// The text of the error: for a failed request it names the address,
    /// the status in decimal and the body of the answer.
    pub fn message(&self) -> (text: String)
        ensures
            text@ == message_of(self@),
    {
        match self {
            GatewayError::InvalidMethod => "Invalid request type".to_owned(),
            GatewayError::RequestFailed { url, status, body } => {
                let mut text = "Request to ".to_owned();
                text.append(url.as_str());
                text.append(" failed with status ");
                push_decimal(&mut text, *status as u64);
                text.append(": ");
                text.append(body.as_str());
                text
            },
            GatewayError::TransportError { url, cause } => {
                let mut text = "Request to ".to_owned();
                text.append(url.as_str());
                text.append(" failed: ");
                text.append(cause.as_str());
                text
            },
        }
    }
}

} // verus!

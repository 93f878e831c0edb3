//! The transport client: owns the credentials and the REST base host, builds
//! authenticated request URLs and headers, and classifies HTTP responses into
//! the closed error taxonomy.  Sending the request over the network is the
//! caller's business; everything that decides or computes lives here.

use vstd::prelude::*;
use vstd::utf8::{decode_utf8, encode_utf8, valid_utf8};

use crate::errors::{
    invalid_price_message, Error, CODE_INVALID_LISTEN_KEY, CODE_INVALID_PRICE,
};
use crate::sign::{sign, signature_of};

verus! {

/// HTTP configuration for one exchange: credentials and the REST base host.
/// Credentials may be empty for public-only usage.
#[derive(Clone)]
pub struct Client {
    pub api_key: String,
    pub secret_key: String,
    pub host: String,
}

/// The canonical URL of a signed request: the request's canonical query with
/// the signature appended, under the client's host and endpoint.
pub open spec fn signed_url(
    host: Seq<char>,
    endpoint: Seq<char>,
    request: Seq<char>,
    secret: Seq<char>,
) -> Seq<char> {
    host + endpoint + "?"@ + request + "&signature="@ + signature_of(
        encode_utf8(request),
        encode_utf8(secret),
    )
}

/// A byte that the HTTP layer accepts inside a header value: visible
/// characters and horizontal tab, never DEL or another control byte.
pub open spec fn header_value_byte_ok(b: u8) -> bool {
    (b >= 32 && b != 127) || b == 9
}

/// Whether a header value made of these bytes would be accepted whole.
pub open spec fn header_value_ok(bytes: Seq<u8>) -> bool {
    forall|i: int| 0 <= i < bytes.len() ==> header_value_byte_ok(bytes[i])
}

/// Check a credential string against the header-value rule before it is
/// placed into a request header.
pub fn valid_header_value(s: &str) -> (ok: bool)
    ensures
        ok == header_value_ok(encode_utf8(s@)),
{
    let bytes = s.as_bytes();
    let mut i: usize = 0;
    while i < bytes.len()
        invariant
            0 <= i <= bytes@.len(),
            bytes@ == encode_utf8(s@),
            forall|j: int| 0 <= j < i ==> header_value_byte_ok(bytes@[j]),
        decreases bytes@.len() - i,
    {
        let b = bytes[i];
        if !((b >= 32 && b != 127) || b == 9) {
            return false;
        }
        i = i + 1;
    }
    true
}

impl Client {
    /// A client for the given host.  Missing credentials become empty
    /// strings, which is enough for the public endpoints.
    pub fn new(api_key: Option<String>, secret_key: Option<String>, host: String) -> (c: Client)
        ensures
            c.api_key@ == (match api_key {
                Some(k) => k@,
                None => Seq::<char>::empty(),
            }),
            c.secret_key@ == (match secret_key {
                Some(k) => k@,
                None => Seq::<char>::empty(),
            }),
            c.host@ == host@,
    {
        Client {
            api_key: match api_key {
                Some(k) => k,
                None => String::new(),
            },
            secret_key: match secret_key {
                Some(k) => k,
                None => String::new(),
            },
            host,
        }
    }

    /// Build the full URL of a signed request: the canonical query string
    /// gains a signature computed over its exact bytes with the client's
    /// secret, so the same parameters always yield the same URL.
    pub fn sign_request(&self, endpoint: &str, request: &str) -> (url: String)
        ensures
            url@ == signed_url(self.host@, endpoint@, request@, self.secret_key@),
    {
        let signature = sign(request.as_bytes(), self.secret_key.as_str().as_bytes());
        let mut url = self.host.clone();
        url.append(endpoint);
        url.append("?");
        url.append(request);
        url.append("&signature=");
        url.append(signature.as_str());
        url
    }

    /// The URL of an unsigned request: the endpoint under the client's host,
    /// with the query string appended when there is one.
    pub fn request_url(&self, endpoint: &str, request: &str) -> (url: String)
        ensures
            url@ == (if request@.len() == 0 {
                self.host@ + endpoint@
            } else {
                self.host@ + endpoint@ + "?"@ + request@
            }),
    {
        let mut url = self.host.clone();
        url.append(endpoint);
        if !request.is_empty() {
            url.append("?");
            url.append(request);
        }
        url
    }

    /// The headers of one request: a fixed client identifier, the form
    /// content type when the request carries a body, and the API key header.
    /// Fails without sending anything when the API key cannot be a header
    /// value.
    pub fn build_headers(&self, content_type: bool) -> (r: Result<Vec<(String, String)>, Error>)
        ensures
            r is Ok <==> header_value_ok(encode_utf8(self.api_key@)),
            r matches Ok(h) ==> {
                &&& h@.len() == (if content_type { 3int } else { 2int })
                &&& h@[0].0@ == "user-agent"@
                &&& h@[0].1@ == "binance-rs"@
                &&& content_type ==> {
                    &&& h@[1].0@ == "content-type"@
                    &&& h@[1].1@ == "application/x-www-form-urlencoded"@
                }
                &&& h@[h@.len() - 1].0@ == "x-mbx-apikey"@
                &&& h@[h@.len() - 1].1@ == self.api_key@
            },
            r matches Err(e) ==> e matches Error::TransportFailure(_),
    {
        if !valid_header_value(self.api_key.as_str()) {
            return Err(
                Error::TransportFailure(
                    String::from_str("api key cannot be used as a header value"),
                ),
            );
        }
        let mut headers: Vec<(String, String)> = Vec::new();
        headers.push((String::from_str("user-agent"), String::from_str("binance-rs")));
        if content_type {
            headers.push(
                (
                    String::from_str("content-type"),
                    String::from_str("application/x-www-form-urlencoded"),
                ),
            );
        }
        headers.push((String::from_str("x-mbx-apikey"), self.api_key.clone()));
        Ok(headers)
    }
}

/// The form body that renews or discards a user-data stream's listen key.
pub fn listen_key_body(listen_key: &str) -> (b: String)
    ensures
        b@ == "listenKey="@ + listen_key@,
{
    let mut b = String::from_str("listenKey=");
    b.append(listen_key);
    b
}

/// What the exchange's error body parses to: the `(code, message)` pair of a
/// well-formed `{"code": ..., "msg": ...}` object, or nothing.  Left
/// uninterpreted: the JSON grammar is the parser crate's business.
pub uninterp spec fn content_error_of(bytes: Seq<u8>) -> Option<(int, Seq<char>)>;

/// Relies on serde_json::from_slice and the serde_json::Value accessors
/// get, as_i64 and as_str: the parse is a function of the input bytes alone.
#[verifier::external_body]
fn parse_content_error(body: &[u8]) -> (r: Option<(i64, String)>)
    ensures
        r is Some <==> content_error_of(body@) is Some,
        r matches Some(p) ==> content_error_of(body@) == Some((p.0 as int, p.1@)),
{
    let v: serde_json::Value = serde_json::from_slice(body).ok()?;
    let code = v.get("code")?.as_i64()?;
    let msg = v.get("msg")?.as_str()?.to_string();
    Some((code, msg))
}

/// Relies on String::from_utf8: it succeeds exactly on valid UTF-8 and
/// returns the decoded text.
#[verifier::external_body]
fn utf8_to_string(body: Vec<u8>) -> (r: Option<String>)
    ensures
        r is Some <==> valid_utf8(body@),
        r matches Some(s) ==> s@ == decode_utf8(body@),
{
    String::from_utf8(body).ok()
}

/// How one domain rejection relates to the `(code, message)` pair the
/// exchange reported: the two known pairs map to their dedicated kinds, and
/// everything else keeps code and message verbatim.
pub open spec fn domain_error_matches(code: int, msg: Seq<char>, e: Error) -> bool {
    if code == CODE_INVALID_PRICE as int && msg == invalid_price_message() {
        e == Error::InvalidPrice
    } else if code == CODE_INVALID_LISTEN_KEY as int {
        e matches Error::InvalidListenKey(m) && m@ == msg
    } else {
        e matches Error::DomainRejection { code: c, message: m } && c as int == code && m@ == msg
    }
}

/// Map an exchange-reported `(code, message)` pair to its error kind: the
/// invalid-price pair and the invalid-listen-key code get their dedicated
/// kinds, all other pairs fall through to the generic domain rejection.
pub fn handle_content_error(code: i64, msg: String) -> (e: Error)
    ensures
        domain_error_matches(code as int, msg@, e),
{
    let invalid_price = String::from_str("Invalid price.");
    proof {
        reveal_strlit("Invalid price.");
    }
    if code == CODE_INVALID_PRICE && msg == invalid_price {
        Error::InvalidPrice
    } else if code == CODE_INVALID_LISTEN_KEY {
        Error::InvalidListenKey(msg)
    } else {
        Error::DomainRejection { code, message: msg }
    }
}

/// The outcome class of one HTTP response, as a total function of the status
/// and the raw body.  Every status and body pair falls in exactly one class.
pub enum ResponseClass {
    /// A success status with a textual body.
    Success,
    /// A success status whose body is not valid text.
    BodyNotText,
    /// The server reported an internal error.
    InternalError,
    /// The explicit service-unavailable status.
    Unavailable,
    /// The explicit auth-rejected status.
    Unauthorized,
    /// A rejection with a parseable `(code, message)` error body.
    DomainError,
    /// A rejection whose error body did not parse.
    MalformedErrorBody,
    /// Any status outside the classified set.
    OtherStatus,
}

/// Classify a status and body pair.  Total by construction: every pair of
/// arguments reaches exactly one arm.
pub open spec fn response_class(status: u16, body: Seq<u8>) -> ResponseClass {
    if 200 <= status < 300 {
        if valid_utf8(body) {
            ResponseClass::Success
        } else {
            ResponseClass::BodyNotText
        }
    } else if status == 500 {
        ResponseClass::InternalError
    } else if status == 503 {
        ResponseClass::Unavailable
    } else if status == 401 {
        ResponseClass::Unauthorized
    } else if status == 400 {
        if content_error_of(body) is Some {
            ResponseClass::DomainError
        } else {
            ResponseClass::MalformedErrorBody
        }
    } else {
        ResponseClass::OtherStatus
    }
}

/// Classify one HTTP response into a success payload or a typed failure.
///
/// A success status yields the body's text; the three dedicated statuses
/// yield their dedicated kinds; a rejection with a parseable error body is
/// mapped through the domain special-casing; everything else — an
/// unclassified status or an unreadable body — yields a typed error, never a
/// crash.
pub fn classify_response(status: u16, body: Vec<u8>) -> (r: Result<String, Error>)
    ensures
        r is Ok <==> response_class(status, body@) == ResponseClass::Success,
        r matches Ok(s) ==> s@ == decode_utf8(body@),
        response_class(status, body@) == ResponseClass::BodyNotText ==> (r matches Err(e)
            && e matches Error::DecodeFailure(_)),
        response_class(status, body@) == ResponseClass::InternalError ==> r == Err::<
            String,
            Error,
        >(Error::ServerInternalError),
        response_class(status, body@) == ResponseClass::Unavailable ==> r == Err::<String, Error>(
            Error::ServerUnavailable,
        ),
        response_class(status, body@) == ResponseClass::Unauthorized ==> r == Err::<String, Error>(
            Error::AuthFailure,
        ),
        response_class(status, body@) == ResponseClass::DomainError ==> (r matches Err(e)
            && domain_error_matches(
            content_error_of(body@).unwrap().0,
            content_error_of(body@).unwrap().1,
            e,
        )),
        response_class(status, body@) == ResponseClass::MalformedErrorBody ==> (r matches Err(e)
            && e matches Error::DecodeFailure(_)),
        response_class(status, body@) == ResponseClass::OtherStatus ==> r == Err::<String, Error>(
            Error::UnknownStatus(status),
        ),
{
    if 200 <= status && status < 300 {
        match utf8_to_string(body) {
            Some(text) => Ok(text),
            None => Err(Error::DecodeFailure(String::from_str("response body is not text"))),
        }
    } else if status == 500 {
        Err(Error::ServerInternalError)
    } else if status == 503 {
        Err(Error::ServerUnavailable)
    } else if status == 401 {
        Err(Error::AuthFailure)
    } else if status == 400 {
        match parse_content_error(body.as_slice()) {
            Some((code, msg)) => Err(handle_content_error(code, msg)),
            None => Err(Error::DecodeFailure(String::from_str("error body did not parse"))),
        }
    } else {
        Err(Error::UnknownStatus(status))
    }
}

/// Law: the response classifier is total — every status paired with every
/// body belongs to one of the defined outcome classes, so no response is
/// left unclassified.
pub proof fn lemma_classifier_total(status: u16, body: Seq<u8>)
    ensures
        response_class(status, body) == ResponseClass::Success || response_class(status, body)
            == ResponseClass::BodyNotText || response_class(status, body)
            == ResponseClass::InternalError || response_class(status, body)
            == ResponseClass::Unavailable || response_class(status, body)
            == ResponseClass::Unauthorized || response_class(status, body)
            == ResponseClass::DomainError || response_class(status, body)
            == ResponseClass::MalformedErrorBody || response_class(status, body)
            == ResponseClass::OtherStatus,
{
}

} // verus!

//! Client binding for an image-generation HTTP endpoint: request and response
//! models, their JSON text form, and the description of the HTTP call.
use vstd::prelude::*;
use vstd::string::*;

pub mod api;
pub mod error;
pub mod json;

pub use error::{check_reply, SdkError};
pub use api::create_image::{
    CreateImageRequest, CreateImageResponse, ImageModel, ImageObject, ImageQuality,
    ImageResponseFormat, ImageSize, ImageStyle,
};

verus! {

/// The HTTP method of a call.
#[derive(Debug, Clone, Copy, PartialEq, Eq)]
pub enum HttpMethod {
    Post,
}

/// Everything a transport needs to issue one call.
#[derive(Debug, Clone)]
pub struct HttpRequest {
    pub method: HttpMethod,
    pub url: String,
    /// The JSON body.
    pub body: String,
    /// The value of the `Authorization` header, if one is sent.
    pub authorization: Option<String>,
    /// How long the call may take, in seconds, if it is bounded.
    pub timeout_secs: Option<u64>,
}

/// An [`HttpRequest`] with its text as character sequences.
pub struct HttpRequestView {
    pub method: HttpMethod,
    pub url: Seq<char>,
    pub body: Seq<char>,
    pub authorization: Option<Seq<char>>,
    pub timeout_secs: Option<u64>,
}

impl View for HttpRequest {
    type V = HttpRequestView;

    open spec fn view(&self) -> HttpRequestView {
        HttpRequestView {
            method: self.method,
            url: self.url@,
            body: self.body@,
            authorization: match self.authorization {
                Some(a) => Some(a@),
                None => None,
            },
            timeout_secs: self.timeout_secs,
        }
    }
}

/// A request model that knows which call carries it.
pub trait IntoRequest: Sized {
    /// The call that carries `self`.
    spec fn spec_request(self) -> HttpRequestView;

    fn into_request(self) -> (r: HttpRequest)
        ensures
            r@ == self.spec_request(),
    ;
}

/// How long one call may take, in seconds.
pub const TIMEOUT: u64 = 30;

/// reqwest's shared HTTP client handle, carried through opaque.
#[verifier::external_type_specification]
#[verifier::external_body]
pub struct ExTransport(reqwest::Client);

/// Relies on reqwest::Client::new: a fresh handle with default settings and
/// its own connection pool. It panics only where the TLS backend or the
/// system resolver configuration cannot be loaded.
#[verifier::external_body]
fn new_transport() -> (r: reqwest::Client) {
    reqwest::Client::new()
}

/// The call `base` as this library issues it: with a bearer token when the
/// token is not empty, and bounded by [`TIMEOUT`].
pub open spec fn prepared(base: HttpRequestView, token: Seq<char>) -> HttpRequestView {
    HttpRequestView {
        authorization: if token.len() == 0 {
            None
        } else {
            Some("Bearer "@ + token)
        },
        timeout_secs: Some(TIMEOUT),
        ..base
    }
}

/// A client of the service: a token, possibly empty, and a transport handle
/// reused by every call.
pub struct LLMSDK {
    token: String,
    client: reqwest::Client,
}

impl LLMSDK {
    /// The token sent with every call; empty means no `Authorization` header.
    pub closed spec fn spec_token(&self) -> Seq<char> {
        self.token@
    }

    pub fn new(token: String) -> (r: Self)
        ensures
            r.spec_token() == token@,
    {
        LLMSDK { token, client: new_transport() }
    }

    pub fn token(&self) -> (r: &String)
        ensures
            r@ == self.spec_token(),
    {
        &self.token
    }

    /// The transport handle that carries the calls.
    pub fn transport(&self) -> &reqwest::Client {
        &self.client
    }

    /// The call that carries `req`, with authentication and the timeout.
    pub fn prepare_request<R: IntoRequest>(&self, req: R) -> (r: HttpRequest)
        ensures
            r@ == prepared(req.spec_request(), self.spec_token()),
    {
        let base = req.into_request();
        let authorization = if self.token.as_str().is_empty() {
            None
        } else {
            Some(String::from_str("Bearer ").concat(self.token.as_str()))
        };
        HttpRequest {
            method: base.method,
            url: base.url,
            body: base.body,
            authorization,
            timeout_secs: Some(TIMEOUT),
        }
    }
}

} // verus!

//! What is decided before a request goes out and after its answer has come
//! in. The exchange itself is left to the caller: `prepare` says where to post
//! which body, and `conclude` says what the outcome of the exchange means.

use vstd::prelude::*;
use vstd::string::*;
use crate::requests::payload::{
    emit, emitted, emitted_keys_are_set_params, entries, has_key, sets, Field,
};
use crate::requests::{Request, RequestError, ResponseResult};

verus! {

/// Where the Bot API is served.
pub const TELEGRAM_API_URL: &'static str = "https://api.telegram.org";

/// The address of a method: `{base}/bot{token}/{method}`.
pub open spec fn method_url_chars(base: Seq<char>, token: Seq<char>, method: Seq<char>) -> Seq<char> {
    base + "/bot"@ + token + "/"@ + method
}

/// The address that a call of `method_name` under `token` is posted to.
pub fn method_url(base: &str, token: &str, method_name: &str) -> (url: String)
    ensures
        url@ == method_url_chars(base@, token@, method_name@),
{
    let mut url = base.to_owned();
    url.append("/bot");
    url.append(token);
    url.append("/");
    url.append(method_name);
    url
}

/// One call of the Bot API, ready to go out: the address to post to, and the
/// body to post.
#[derive(Debug, Clone, PartialEq, Eq)]
pub struct Call {
    pub url: String,
    pub body: Vec<Field>,
}

/// The call that sends `request`: posted to the address of its method under
/// the token of its `Bot`, with an entry in the body for each parameter that
/// is set, and none for one that is not. So the body has a key exactly where
/// the request has a parameter of that name that is set.
pub fn prepare<R: Request>(request: &R) -> (call: Call)
    ensures
        call.url@ == method_url_chars(
            TELEGRAM_API_URL@,
            request.session().token_chars(),
            request.method(),
        ),
        entries(call.body@) == emitted(request.params_spec()),
        forall|key: Seq<char>| #[trigger]
            has_key(entries(call.body@), key) <==> sets(request.params_spec(), key),
{
    let url = method_url(TELEGRAM_API_URL, request.bot().token(), request.name());
    let body = emit(request.params());
    proof {
        assert forall|key: Seq<char>| #[trigger]
            has_key(entries(body@), key) <==> sets(request.params_spec(), key) by {
            emitted_keys_are_set_params(request.params_spec(), key);
        }
    }
    Call { url, body }
}

/// What `RequestError::InvalidJson` says of an envelope that is not well formed.
pub const MALFORMED_ENVELOPE: &'static str =
    "the envelope holds neither a result alone nor an error code and a description alone";

/// The envelope that the service wraps every answer in.
#[derive(Debug, Clone, PartialEq, Eq)]
pub struct Envelope<T> {
    pub ok: bool,
    pub result: Option<T>,
    pub error_code: Option<i32>,
    pub description: Option<String>,
}

impl<T> Envelope<T> {
    /// An envelope holds a result and nothing else if it reports success,
    /// and an error code with a description and nothing else if it reports
    /// failure.
    pub open spec fn well_formed(self) -> bool {
        if self.ok {
            self.result is Some && self.error_code is None && self.description is None
        } else {
            self.result is None && self.error_code is Some && self.description is Some
        }
    }

    /// Whether `outcome` is what the envelope means to the caller of the
    /// request: the result of one that reports success, the code and the
    /// description of one that reports failure, and `InvalidJson` for one
    /// that is not well formed.
    pub open spec fn means(self, outcome: ResponseResult<T>) -> bool {
        if !self.well_formed() {
            outcome matches Err(RequestError::InvalidJson { detail }) && detail@
                == MALFORMED_ENVELOPE@
        } else if self.ok {
            outcome == Ok::<T, RequestError>(self.result->0)
        } else {
            outcome == Err::<T, RequestError>(
                RequestError::ApiError {
                    error_code: self.error_code->0,
                    description: self.description->0,
                },
            )
        }
    }

    /// The result that the envelope holds, or the error that it reports.
    pub fn into_result(self) -> (outcome: ResponseResult<T>)
        ensures
            self.means(outcome),
    {
        let Envelope { ok, result, error_code, description } = self;
        if ok {
            match (result, error_code, description) {
                (Some(result), None, None) => Ok(result),
                _ => Err(RequestError::InvalidJson { detail: MALFORMED_ENVELOPE.to_owned() }),
            }
        } else {
            match (result, error_code, description) {
                (None, Some(error_code), Some(description)) => Err(
                    RequestError::ApiError { error_code, description },
                ),
                _ => Err(RequestError::InvalidJson { detail: MALFORMED_ENVELOPE.to_owned() }),
            }
        }
    }
}

/// How the exchange that a `Call` asked for has ended.
#[derive(Debug, Clone, PartialEq, Eq)]
pub enum Reply<T> {
    /// No answer was had: what the transport said of its failure.
    Failed { detail: String },
    /// An answer came that cannot be read as an envelope of a `T`: what the
    /// decoder said of it.
    Unreadable { detail: String },
    /// An answer came, and this is its envelope.
    Answered(Envelope<T>),
}

impl<T> Reply<T> {
    /// Whether `outcome` is what the reply means to the caller of the
    /// request.
    pub open spec fn means(self, outcome: ResponseResult<T>) -> bool {
        match self {
            Reply::Failed { detail } => outcome == Err::<T, RequestError>(
                RequestError::NetworkError { detail },
            ),
            Reply::Unreadable { detail } => outcome == Err::<T, RequestError>(
                RequestError::InvalidJson { detail },
            ),
            Reply::Answered(envelope) => envelope.means(outcome),
        }
    }
}

/// What the caller of a request gets for a reply: the decoded result of an
/// answer that reports success, and an error that tells the three ways of
/// failing apart otherwise.
pub fn conclude<T>(reply: Reply<T>) -> (outcome: ResponseResult<T>)
    ensures
        reply.means(outcome),
{
    match reply {
        Reply::Failed { detail } => Err(RequestError::NetworkError { detail }),
        Reply::Unreadable { detail } => Err(RequestError::InvalidJson { detail }),
        Reply::Answered(envelope) => envelope.into_result(),
    }
}

} // verus!

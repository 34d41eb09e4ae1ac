//! The requests that a `Bot` makes, and what they have in common.

use vstd::prelude::*;
use crate::bot::Bot;
use crate::requests::payload::{slots, Datum, Param};

pub mod all;
pub mod payload;

pub use all::get_me::GetMe;
pub use all::kick_chat_member::KickChatMember;
pub use all::send_message::SendMessage;

verus! {

/// Why a request did not yield its result.
#[derive(Debug, Clone, PartialEq, Eq)]
pub enum RequestError {
    /// The service answered and reported a failure: its code and its
    /// description, as they came.
    ApiError { error_code: i32, description: String },
    /// No answer could be had: the connection failed, or timed out.
    NetworkError { detail: String },
    /// An answer came that is not what the service is known to send.
    InvalidJson { detail: String },
}

/// What a request yields.
pub type ResponseResult<T> = Result<T, RequestError>;

/// One operation of the Bot API with its parameters, ready to be sent: it
/// names its method, lists its parameters, and fixes the type that a
/// successful answer is decoded to.
pub trait Request {
    /// What a successful answer holds.
    type Output;

    /// The `Bot` that the request is made under.
    spec fn session(&self) -> Bot;

    /// The name of the method, as it stands in the address of the call.
    spec fn method(&self) -> Seq<char>;

    /// The parameters: each with its name on the wire, and with its value
    /// if it is set.
    spec fn params_spec(&self) -> Seq<(Seq<char>, Option<Datum>)>;

    /// The `Bot` that the request is made under.
    fn bot(&self) -> (bot: &Bot)
        ensures
            *bot == self.session(),
    ;

    /// The name of the method.
    fn name(&self) -> (name: &'static str)
        ensures
            name@ == self.method(),
    ;

    /// The parameters as they are now, the ones that are not set among
    /// them, in the order in which they are sent.
    fn params(&self) -> (params: Vec<Param>)
        ensures
            slots(params@) == self.params_spec(),
    ;
}

} // verus!

//! The handler capability: a named unit of request processing that takes a
//! context and gives a text response or a classified error.

use vstd::prelude::*;
use vstd::string::*;
use crate::params::Params;

verus! {

/// How a failed request is classified towards the client.
#[derive(Clone, Copy, Debug, PartialEq, Eq, Structural)]
pub enum ErrorStatus {
    /// The request is at fault: an unsupported format or operation.
    BadRequest,
    /// The server is at fault: something that it needs is not configured.
    InternalError,
}

impl ErrorStatus {
    /// The HTTP status code of the classification.
    pub open spec fn spec_code(self) -> u16 {
        match self {
            ErrorStatus::BadRequest => 400,
            ErrorStatus::InternalError => 500,
        }
    }

    /// The HTTP status code of the classification.
    #[verifier::when_used_as_spec(spec_code)]
    pub fn code(self) -> (code: u16)
        ensures
            code == self.spec_code(),
    {
        match self {
            ErrorStatus::BadRequest => 400,
            ErrorStatus::InternalError => 500,
        }
    }
}

/// What a handler returns: the response body, or a classification with a
/// message for the client.
pub type HandlerResult = Result<String, (ErrorStatus, String)>;

/// A handler's result with each string taken by its view.
pub type Reply = Result<Seq<char>, (ErrorStatus, Seq<char>)>;

/// The view of a handler's result.
pub open spec fn reply_of(result: HandlerResult) -> Reply {
    match result {
        Ok(body) => Ok(body@),
        Err((status, message)) => Err((status, message@)),
    }
}

/// The view of an optional string.
pub open spec fn optional_view(text: Option<String>) -> Option<Seq<char>> {
    match text {
        Some(t) => Some(t@),
        None => None,
    }
}

/// The input of one handler invocation.
pub struct HandlerContext {
    /// The resolved path of the request.
    pub path: String,
    /// The parameters of the endpoint declaration.
    pub params: Params,
    /// The static response of the endpoint declaration, where there is one.
    pub static_response: Option<String>,
}

/// A context with each string taken by its view.
pub struct ContextView {
    pub path: Seq<char>,
    pub params: Map<Seq<char>, Seq<char>>,
    pub static_response: Option<Seq<char>>,
}

impl View for HandlerContext {
    type V = ContextView;

    open spec fn view(&self) -> ContextView {
        ContextView {
            path: self.path@,
            params: self.params@,
            static_response: optional_view(self.static_response),
        }
    }
}

/// A unit of request processing. `replies` is the handler's specification:
/// the replies that it may give to a context. A handler whose reply is a
/// function of the context admits exactly one reply for each context; one
/// that says nothing admits every reply.
pub trait Handler: Send + Sync + 'static {
    /// Whether the handler may answer `ctx` with `reply`.
    open spec fn replies(&self, ctx: ContextView, reply: Reply) -> bool {
        true
    }

    /// Handles a request.
    fn handle(&self, ctx: HandlerContext) -> (result: HandlerResult)
        ensures
            self.replies(ctx@, reply_of(result)),
    ;
}

/// The reply of the static-response handler: the configured response, or an
/// internal error where none is configured.
pub open spec fn static_reply(ctx: ContextView) -> Reply {
    match ctx.static_response {
        Some(response) => Ok(response),
        None => Err((ErrorStatus::InternalError, "No static response configured"@)),
    }
}

/// The body of every health check.
pub open spec fn health_body() -> Seq<char> {
    "OK"@
}

/// The body of every status report.
pub open spec fn status_body() -> Seq<char> {
    "{ \"status\": \"running\", \"version\": \"1.0.0\" }"@
}

/// Returns the static response of the endpoint declaration.
pub struct StaticResponseHandler;

impl Handler for StaticResponseHandler {
    open spec fn replies(&self, ctx: ContextView, reply: Reply) -> bool {
        reply == static_reply(ctx)
    }

    fn handle(&self, ctx: HandlerContext) -> (result: HandlerResult)
        ensures
            reply_of(result) == static_reply(ctx@),
    {
        match ctx.static_response {
            Some(response) => Ok(response),
            None => Err(
                (ErrorStatus::InternalError, String::from_str("No static response configured")),
            ),
        }
    }
}

/// Answers every request with `OK`.
pub struct HealthCheckHandler;

impl Handler for HealthCheckHandler {
    open spec fn replies(&self, ctx: ContextView, reply: Reply) -> bool {
        reply == Ok::<Seq<char>, (ErrorStatus, Seq<char>)>(health_body())
    }

    fn handle(&self, _ctx: HandlerContext) -> (result: HandlerResult)
        ensures
            reply_of(result) == Ok::<Seq<char>, (ErrorStatus, Seq<char>)>(health_body()),
    {
        Ok(String::from_str("OK"))
    }
}

/// Answers every request with the server's status report.
pub struct StatusHandler;

impl Handler for StatusHandler {
    open spec fn replies(&self, ctx: ContextView, reply: Reply) -> bool {
        reply == Ok::<Seq<char>, (ErrorStatus, Seq<char>)>(status_body())
    }

    fn handle(&self, _ctx: HandlerContext) -> (result: HandlerResult)
        ensures
            reply_of(result) == Ok::<Seq<char>, (ErrorStatus, Seq<char>)>(status_body()),
    {
        Ok(String::from_str("{ \"status\": \"running\", \"version\": \"1.0.0\" }"))
    }
}

} // verus!

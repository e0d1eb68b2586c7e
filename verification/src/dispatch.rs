//! The dispatcher: each request that a route serves is answered by the
//! handler that the route names, or by the `default` handler in its place.

use vstd::prelude::*;
use vstd::string::*;
use std::sync::mpsc::Sender;
use crate::config::Config;
use crate::handler::{reply_of, ContextView, HandlerContext, HandlerResult, Reply};
use crate::params::Params;
use crate::registry::{HandlerRegistry, SharedHandler};

verus! {

/// The sending half of a channel of the standard library.
#[verifier::external_type_specification]
#[verifier::external_body]
#[verifier::reject_recursive_types(T)]
pub struct ExSender<T>(Sender<T>);

/// `Sender::send` from the standard library: hands the line to the channel.
/// The call fails only where the receiver is gone; the line is then dropped
/// and the failure with it. Nothing is claimed of the channel.
#[verifier::external_body]
fn send_line(sender: &Sender<String>, line: String) {
    let _ = sender.send(line);
}

/// What the request handlers share: the log sink, the configuration and the
/// handlers.
pub struct AppState {
    pub log_sender: Sender<String>,
    pub config: Config,
    pub handler_registry: HandlerRegistry,
}

/// The answer to a request: an HTTP status code and a body.
#[derive(Debug)]
pub struct Response {
    pub status: u16,
    pub body: String,
}

/// A response with its body taken by its view.
pub struct ResponseView {
    pub status: u16,
    pub body: Seq<char>,
}

impl View for Response {
    type V = ResponseView;

    open spec fn view(&self) -> ResponseView {
        ResponseView { status: self.status, body: self.body@ }
    }
}

/// The response that carries a handler's reply: the body with status 200,
/// or the message with the status code of the error's classification.
pub open spec fn response_of(reply: Reply) -> ResponseView {
    match reply {
        Ok(body) => ResponseView { status: 200, body },
        Err((status, message)) => ResponseView { status: status.spec_code(), body: message },
    }
}

/// The response to a request that no handler can serve.
pub open spec fn no_handler_response() -> ResponseView {
    ResponseView { status: 500, body: "No handler found"@ }
}

/// Turns a handler's result into the response.
pub fn respond(result: HandlerResult) -> (response: Response)
    ensures
        response@ == response_of(reply_of(result)),
{
    match result {
        Ok(body) => Response { status: 200, body },
        Err((status, message)) => Response { status: status.code(), body: message },
    }
}

/// The handler that serves a route which names `name`: the handler bound to
/// `name`; where none is bound, the one bound to `default`; where that is
/// unbound too, none.
pub open spec fn resolve(handlers: Map<Seq<char>, SharedHandler>, name: Seq<char>) -> Option<
    SharedHandler,
> {
    if handlers.contains_key(name) {
        Some(handlers[name])
    } else if handlers.contains_key("default"@) {
        Some(handlers["default"@])
    } else {
        None
    }
}

/// Whether `response` carries a reply that `handler` admits for `ctx`.
pub open spec fn carries_reply(
    handler: SharedHandler,
    ctx: ContextView,
    response: ResponseView,
) -> bool {
    exists|reply: Reply| #[trigger] handler.replies(ctx, reply) && response == response_of(reply)
}

/// Whether `response` may answer a request with context `ctx` to a route
/// that names `name`: it carries a reply that the resolved handler admits
/// for `ctx`, or, where no handler is resolved, it is the response that says
/// so.
pub open spec fn may_respond(
    handlers: Map<Seq<char>, SharedHandler>,
    name: Seq<char>,
    ctx: ContextView,
    response: ResponseView,
) -> bool {
    match resolve(handlers, name) {
        Some(handler) => carries_reply(handler, ctx, response),
        None => response == no_handler_response(),
    }
}

/// The log line that records a request.
pub open spec fn request_line(method: Seq<char>, path: Seq<char>) -> Seq<char> {
    "Received "@ + method + " request to "@ + path
}

/// The log line that records a request.
pub fn format_request_line(method: &str, path: &str) -> (line: String)
    ensures
        line@ == request_line(method@, path@),
{
    let mut line = String::from_str("Received ");
    line.append(method);
    line.append(" request to ");
    line.append(path);
    line
}

impl HandlerRegistry {
    /// The handler that serves a route which names `name`; see `resolve`.
    pub fn resolve(&self, name: &str) -> (handler: Option<SharedHandler>)
        ensures
            handler == resolve(self@, name@),
    {
        match self.get(name) {
            Some(handler) => Some(handler),
            None => self.get("default"),
        }
    }
}

/// Serves one request: records it on the log sink, resolves the handler
/// that `handler_name` stands for, invokes it with the context made of
/// `path`, `params` and `response`, and turns its result into the response.
/// A handler that fails is not replaced by another: its error is the
/// response.
pub fn handle_request(
    state: &AppState,
    path: String,
    method: String,
    handler_name: String,
    response: String,
    params: Params,
) -> (answer: Response)
    ensures
        may_respond(
            state.handler_registry@,
            handler_name@,
            ContextView { path: path@, params: params@, static_response: Some(response@) },
            answer@,
        ),
{
    send_line(&state.log_sender, format_request_line(method.as_str(), path.as_str()));
    match state.handler_registry.resolve(handler_name.as_str()) {
        Some(handler) => {
            let ctx = HandlerContext { path, params, static_response: Some(response) };
            let result = handler.handle(ctx);
            respond(result)
        },
        None => Response { status: 500, body: String::from_str("No handler found") },
    }
}

/// A route that names a handler which is not registered is served exactly
/// as a route that names `default`.
pub proof fn lemma_missing_handler_is_default(
    handlers: Map<Seq<char>, SharedHandler>,
    name: Seq<char>,
    ctx: ContextView,
    response: ResponseView,
)
    requires
        !handlers.contains_key(name),
    ensures
        resolve(handlers, name) == resolve(handlers, "default"@),
        may_respond(handlers, name, ctx, response) == may_respond(
            handlers,
            "default"@,
            ctx,
            response,
        ),
{
}

/// Where neither the named handler nor `default` is registered, the one
/// possible response has status 500 and the body `No handler found`.
pub proof fn lemma_no_handler_found(
    handlers: Map<Seq<char>, SharedHandler>,
    name: Seq<char>,
    ctx: ContextView,
    response: ResponseView,
)
    requires
        !handlers.contains_key(name),
        !handlers.contains_key("default"@),
    ensures
        may_respond(handlers, name, ctx, response) <==> response.status == 500 && response.body
            == "No handler found"@,
{
}

/// A handler that is registered is the one that serves, whether or not it
/// fails: the possible responses are those that carry one of its replies,
/// an error as well as a body, and `default` is not asked.
pub proof fn lemma_registered_handler_serves(
    handlers: Map<Seq<char>, SharedHandler>,
    name: Seq<char>,
    ctx: ContextView,
    response: ResponseView,
)
    requires
        handlers.contains_key(name),
    ensures
        may_respond(handlers, name, ctx, response) == carries_reply(handlers[name], ctx, response),
{
}

} // verus!

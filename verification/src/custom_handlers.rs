//! Handlers beyond the built-in ones: a user lookup and the operations on a
//! resource. Both read the path and the parameters of their context.

use vstd::prelude::*;
use vstd::string::*;
use crate::handler::{
    reply_of, ContextView, ErrorStatus, Handler, HandlerContext, HandlerResult, Reply,
};
use crate::registry::{behaves_as, HandlerRegistry, SharedHandler};
use crate::text::{last_segment, last_segment_of};

verus! {

/// The value that `params` binds `key` to, or `fallback`.
pub open spec fn param_or(
    params: Map<Seq<char>, Seq<char>>,
    key: Seq<char>,
    fallback: Seq<char>,
) -> Seq<char> {
    if params.contains_key(key) {
        params[key]
    } else {
        fallback
    }
}

/// The reply of the user handler. The user's id is the last segment of the
/// path; the parameters `database` and `format` default to `default` and
/// `json`; a format other than `json` and `text` is a bad request.
pub open spec fn user_reply(ctx: ContextView) -> Reply {
    let id = last_segment(ctx.path, '/');
    let database = param_or(ctx.params, "database"@, "default"@);
    let format = param_or(ctx.params, "format"@, "json"@);
    if format == "json"@ {
        Ok(
            "{ \"id\": \""@ + id + "\", \"name\": \"User "@ + id + "\", \"database\": \""@
                + database + "\" }"@,
        )
    } else if format == "text"@ {
        Ok("User ID: "@ + id + ", Database: "@ + database)
    } else {
        Err((ErrorStatus::BadRequest, "Unsupported format: "@ + format))
    }
}

/// Describes the user whose id ends the path.
pub struct UserHandler;

impl Handler for UserHandler {
    open spec fn replies(&self, ctx: ContextView, reply: Reply) -> bool {
        reply == user_reply(ctx)
    }

    fn handle(&self, ctx: HandlerContext) -> (result: HandlerResult)
        ensures
            reply_of(result) == user_reply(ctx@),
    {
        let user_id = last_segment_of(ctx.path.as_str(), '/');
        let database: &str = match ctx.params.get("database") {
            Some(value) => value.as_str(),
            None => "default",
        };
        let format: &str = match ctx.params.get("format") {
            Some(value) => value.as_str(),
            None => "json",
        };
        if format.eq("json") {
            let mut body = String::from_str("{ \"id\": \"");
            body.append(user_id.as_str());
            body.append("\", \"name\": \"User ");
            body.append(user_id.as_str());
            body.append("\", \"database\": \"");
            body.append(database);
            body.append("\" }");
            Ok(body)
        } else if format.eq("text") {
            let mut body = String::from_str("User ID: ");
            body.append(user_id.as_str());
            body.append(", Database: ");
            body.append(database);
            Ok(body)
        } else {
            let mut message = String::from_str("Unsupported format: ");
            message.append(format);
            Err((ErrorStatus::BadRequest, message))
        }
    }
}

/// Whether the context asks for validation: its parameter `validate` is
/// `true`.
pub open spec fn wants_validation(ctx: ContextView) -> bool {
    ctx.params.contains_key("validate"@) && ctx.params["validate"@] == "true"@
}

/// The id of the resource that a path names: its last segment, or `1` where
/// that is empty or is the word `resource`.
pub open spec fn resource_id(path: Seq<char>) -> Seq<char> {
    let last = last_segment(path, '/');
    if last.len() == 0 || last == "resource"@ {
        "1"@
    } else {
        last
    }
}

/// The reply of the resource handler for `operation`.
pub open spec fn resource_reply(operation: Seq<char>, ctx: ContextView) -> Reply {
    let id = resource_id(ctx.path);
    if operation == "get"@ {
        Ok("{ \"id\": "@ + id + ", \"name\": \"Resource "@ + id + "\", \"status\": \"active\" }"@)
    } else if operation == "create"@ {
        if wants_validation(ctx) {
            Ok("{ \"status\": \"created\", \"id\": 2, \"validated\": true }"@)
        } else {
            Ok("{ \"status\": \"created\", \"id\": 2 }"@)
        }
    } else if operation == "update"@ {
        if wants_validation(ctx) {
            Ok("{ \"status\": \"updated\", \"validated\": true }"@)
        } else {
            Ok("{ \"status\": \"updated\" }"@)
        }
    } else if operation == "delete"@ {
        Ok("{ \"status\": \"deleted\" }"@)
    } else {
        Err((ErrorStatus::BadRequest, "Unsupported operation: "@ + operation))
    }
}

/// Performs one operation on a resource: `get`, `create`, `update` or
/// `delete`. Any other operation is a bad request.
pub struct ResourceHandler {
    operation: String,
}

impl ResourceHandler {
    /// The operation that the handler performs.
    pub closed spec fn operation(&self) -> Seq<char> {
        self.operation@
    }

    /// A handler for `operation`.
    pub fn new(operation: &str) -> (handler: Self)
        ensures
            handler.operation() == operation@,
    {
        ResourceHandler { operation: operation.to_owned() }
    }
}

impl Handler for ResourceHandler {
    open spec fn replies(&self, ctx: ContextView, reply: Reply) -> bool {
        reply == resource_reply(self.operation(), ctx)
    }

    fn handle(&self, ctx: HandlerContext) -> (result: HandlerResult)
        ensures
            reply_of(result) == resource_reply(self.operation(), ctx@),
    {
        let validate = match ctx.params.get("validate") {
            Some(value) => value.as_str().eq("true"),
            None => false,
        };
        let last = last_segment_of(ctx.path.as_str(), '/');
        let id: &str = if last.as_str().is_empty() || last.as_str().eq("resource") {
            "1"
        } else {
            last.as_str()
        };
        let operation = self.operation.as_str();
        if operation.eq("get") {
            let mut body = String::from_str("{ \"id\": ");
            body.append(id);
            body.append(", \"name\": \"Resource ");
            body.append(id);
            body.append("\", \"status\": \"active\" }");
            Ok(body)
        } else if operation.eq("create") {
            if validate {
                Ok(String::from_str("{ \"status\": \"created\", \"id\": 2, \"validated\": true }"))
            } else {
                Ok(String::from_str("{ \"status\": \"created\", \"id\": 2 }"))
            }
        } else if operation.eq("update") {
            if validate {
                Ok(String::from_str("{ \"status\": \"updated\", \"validated\": true }"))
            } else {
                Ok(String::from_str("{ \"status\": \"updated\" }"))
            }
        } else if operation.eq("delete") {
            Ok(String::from_str("{ \"status\": \"deleted\" }"))
        } else {
            let mut message = String::from_str("Unsupported operation: ");
            message.append(operation);
            Err((ErrorStatus::BadRequest, message))
        }
    }
}

/// The names under which `register_custom_handlers` binds handlers.
pub open spec fn custom_names() -> Set<Seq<char>> {
    set!["user"@, "resource_get"@, "resource_create"@, "resource_update"@, "resource_delete"@]
}

/// `shared` is the resource handler for `operation`.
pub open spec fn is_resource_handler(shared: SharedHandler, operation: Seq<char>) -> bool {
    forall|ctx: ContextView, reply: Reply| #[trigger]
        shared.replies(ctx, reply) == (reply == resource_reply(operation, ctx))
}

/// `handlers` binds the custom names to the custom handlers.
pub open spec fn has_custom_handlers(handlers: Map<Seq<char>, SharedHandler>) -> bool {
    &&& custom_names().subset_of(handlers.dom())
    &&& behaves_as(handlers["user"@], UserHandler)
    &&& is_resource_handler(handlers["resource_get"@], "get"@)
    &&& is_resource_handler(handlers["resource_create"@], "create"@)
    &&& is_resource_handler(handlers["resource_update"@], "update"@)
    &&& is_resource_handler(handlers["resource_delete"@], "delete"@)
}

/// Binds `user` to the user handler and `resource_get`, `resource_create`,
/// `resource_update` and `resource_delete` to the resource handlers of the
/// four operations. Every other binding stays.
pub fn register_custom_handlers(registry: &mut HandlerRegistry)
    ensures
        final(registry)@.dom() == old(registry)@.dom().union(custom_names()),
        has_custom_handlers(final(registry)@),
        forall|name: Seq<char>|
            !custom_names().contains(name) && old(registry)@.contains_key(name)
                ==> final(registry)@[name] == old(registry)@[name],
{
    proof {
        reveal_strlit("user");
        reveal_strlit("resource_get");
        reveal_strlit("resource_create");
        reveal_strlit("resource_update");
        reveal_strlit("resource_delete");
        assert("resource_get"@[9] != "resource_create"@[9]);
        assert("resource_create"@[9] != "resource_update"@[9]);
        assert("resource_create"@[9] != "resource_delete"@[9]);
        assert("resource_update"@[9] != "resource_delete"@[9]);
        assert("user"@.len() == 4);
        assert("resource_get"@.len() == 12);
        assert("resource_create"@.len() == 15);
    }
    registry.register("user", UserHandler);
    registry.register("resource_get", ResourceHandler::new("get"));
    registry.register("resource_create", ResourceHandler::new("create"));
    registry.register("resource_update", ResourceHandler::new("update"));
    registry.register("resource_delete", ResourceHandler::new("delete"));
    assert(registry@.dom() =~= old(registry)@.dom().union(custom_names()));
}

} // verus!

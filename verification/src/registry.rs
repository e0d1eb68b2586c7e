//! The registry that stores handlers under their names and resolves them.

use vstd::prelude::*;
use vstd::string::*;
use vstd::hash_map::StringHashMap;
use std::sync::Arc;
use crate::handler::{
    ContextView, Handler, HealthCheckHandler, Reply, StaticResponseHandler, StatusHandler,
};

verus! {

/// A handler behind shared, immutable ownership.
pub type SharedHandler = Arc<Box<dyn Handler>>;

/// `shared` admits exactly the replies that `handler` admits.
pub open spec fn behaves_as<H: Handler>(shared: SharedHandler, handler: H) -> bool {
    forall|ctx: ContextView, reply: Reply|
        #![trigger shared.replies(ctx, reply)]
        #![trigger handler.replies(ctx, reply)]
        shared.replies(ctx, reply) == handler.replies(ctx, reply)
}

/// `Box::new` and `Arc::new` from the standard library, with the coercion
/// of the box to a trait object between them. A call through the trait
/// object runs the method of the value inside, so the shared handler has the
/// specification of the handler that went in.
#[verifier::external_body]
fn share<H: Handler>(handler: H) -> (shared: SharedHandler)
    ensures
        behaves_as(shared, handler),
{
    let boxed: Box<dyn Handler> = Box::new(handler);
    Arc::new(boxed)
}

/// The handlers of a server by name. Its view is the `Map` from each bound
/// name to its handler.
pub struct HandlerRegistry {
    handlers: StringHashMap<SharedHandler>,
}

impl View for HandlerRegistry {
    type V = Map<Seq<char>, SharedHandler>;

    closed spec fn view(&self) -> Self::V {
        self.handlers@
    }
}

/// The registry that a list of registrations leaves, made in order on an
/// empty registry.
pub open spec fn registered(history: Seq<(Seq<char>, SharedHandler)>) -> Map<
    Seq<char>,
    SharedHandler,
>
    decreases history.len(),
{
    if history.len() == 0 {
        Map::empty()
    } else {
        registered(history.drop_last()).insert(history.last().0, history.last().1)
    }
}

/// A lookup finds what the most recent registration of the name bound: the
/// handler registered at `at` is the one bound to its name when no later
/// registration names it again.
pub proof fn lemma_last_registration_wins(history: Seq<(Seq<char>, SharedHandler)>, at: int)
    requires
        0 <= at < history.len(),
        forall|j: int| at < j < history.len() ==> history[j].0 != history[at].0,
    ensures
        registered(history).contains_key(history[at].0),
        registered(history)[history[at].0] == history[at].1,
    decreases history.len(),
{
    if at < history.len() - 1 {
        lemma_last_registration_wins(history.drop_last(), at);
    }
}

/// A lookup finds nothing under a name that was never registered.
pub proof fn lemma_never_registered(history: Seq<(Seq<char>, SharedHandler)>, name: Seq<char>)
    requires
        forall|j: int| 0 <= j < history.len() ==> history[j].0 != name,
    ensures
        !registered(history).contains_key(name),
    decreases history.len(),
{
    if history.len() > 0 {
        lemma_never_registered(history.drop_last(), name);
    }
}

/// The names of the built-in handlers.
pub open spec fn builtin_names() -> Set<Seq<char>> {
    set!["default"@, "health"@, "status"@]
}

/// `handlers` binds the three built-in names to the built-in handlers.
pub open spec fn has_builtins(handlers: Map<Seq<char>, SharedHandler>) -> bool {
    &&& handlers.contains_key("default"@)
    &&& handlers.contains_key("health"@)
    &&& handlers.contains_key("status"@)
    &&& behaves_as(handlers["default"@], StaticResponseHandler)
    &&& behaves_as(handlers["health"@], HealthCheckHandler)
    &&& behaves_as(handlers["status"@], StatusHandler)
}

impl HandlerRegistry {
    /// A registry with no handler.
    pub fn new() -> (registry: Self)
        ensures
            registry@ == Map::<Seq<char>, SharedHandler>::empty(),
    {
        HandlerRegistry { handlers: StringHashMap::new() }
    }

    /// Binds `name` to an already shared handler, replacing what it was
    /// bound to before.
    pub fn register_shared(&mut self, name: &str, handler: SharedHandler)
        ensures
            final(self)@ == old(self)@.insert(name@, handler),
    {
        self.handlers.insert(name.to_owned(), handler);
    }

    /// Binds `name` to `handler`, replacing what it was bound to before.
    pub fn register<H: Handler>(&mut self, name: &str, handler: H)
        ensures
            final(self)@.contains_key(name@),
            behaves_as(final(self)@[name@], handler),
            final(self)@ == old(self)@.insert(name@, final(self)@[name@]),
    {
        let shared = share(handler);
        self.register_shared(name, shared);
    }

    /// The handler bound to `name`, if there is one.
    pub fn get(&self, name: &str) -> (handler: Option<SharedHandler>)
        ensures
            handler == if self@.contains_key(name@) {
                Some(self@[name@])
            } else {
                None
            },
    {
        match self.handlers.get(name) {
            Some(handler) => Some(Arc::clone(handler)),
            None => None,
        }
    }

    /// Tells whether a handler is bound to `name`.
    pub fn contains(&self, name: &str) -> (bound: bool)
        ensures
            bound == self@.contains_key(name@),
    {
        self.handlers.contains_key(name)
    }
}

impl Default for HandlerRegistry {
    /// The registry of the built-in handlers and nothing else.
    fn default() -> (registry: Self)
        ensures
            registry@.dom() == builtin_names(),
            has_builtins(registry@),
    {
        let mut registry = Self::new();
        register_default_handlers(&mut registry);
        assert(registry@.dom() =~= builtin_names());
        registry
    }
}

/// Binds the built-in handlers: `default` to the static response, `health`
/// to the health check and `status` to the status report. Every other
/// binding stays.
pub fn register_default_handlers(registry: &mut HandlerRegistry)
    ensures
        final(registry)@.dom() == old(registry)@.dom().union(builtin_names()),
        has_builtins(final(registry)@),
        forall|name: Seq<char>|
            !builtin_names().contains(name) && old(registry)@.contains_key(name)
                ==> final(registry)@[name] == old(registry)@[name],
{
    proof {
        reveal_strlit("default");
        reveal_strlit("health");
        reveal_strlit("status");
        assert("default"@.len() != "health"@.len());
        assert("default"@.len() != "status"@.len());
        assert("health"@[0] != "status"@[0]);
    }
    registry.register("default", StaticResponseHandler);
    registry.register("health", HealthCheckHandler);
    registry.register("status", StatusHandler);
    assert(registry@.dom() =~= old(registry)@.dom().union(builtin_names()));
}

} // verus!

//! Extraction settings and how the settings of a route fall back on defaults.

use vstd::prelude::*;

verus! {

/// Largest payload accepted where no limit is configured: 256 KiB.
pub const DEFAULT_LIMIT: usize = 262_144;

/// Extraction settings. A field left at `None` is not specified here and is
/// taken from the defaults when the settings are resolved.
///
/// `P` is the predicate over the declared media type, `H` the handler that
/// turns a fault into the application's own error.
pub struct CborConfig<P, H> {
    /// Largest payload accepted, in bytes.
    pub limit: Option<usize>,
    /// Accepts or refuses a declared media type; where absent, only the
    /// canonical media type is accepted.
    pub content_type: Option<P>,
    /// Turns a fault into the application's error; where absent, the default
    /// response of the fault is used.
    pub err_handler: Option<H>,
}

/// The settings in force for one request. Nothing is left open: the limit is
/// a number, and an absent predicate or handler means the built-in behaviour.
pub struct ResolvedConfig<'a, P, H> {
    /// Largest payload accepted, in bytes.
    pub limit: usize,
    /// Custom predicate over the declared media type, if any.
    pub content_type: Option<&'a P>,
    /// Custom fault handler, if any.
    pub err_handler: Option<&'a H>,
}

impl<P, H> CborConfig<P, H> {
    /// Settings that specify nothing.
    pub fn new() -> (config: Self)
        ensures
            config.limit is None,
            config.content_type is None,
            config.err_handler is None,
    {
        CborConfig { limit: None, content_type: None, err_handler: None }
    }

    /// Sets the largest payload accepted, in bytes.
    pub fn limit(self, limit: usize) -> (config: Self)
        ensures
            config.limit == Some(limit),
            config.content_type == self.content_type,
            config.err_handler == self.err_handler,
    {
        CborConfig { limit: Some(limit), content_type: self.content_type, err_handler: self.err_handler }
    }

    /// Sets the predicate that accepts or refuses the declared media type.
    pub fn content_type_raw(self, predicate: P) -> (config: Self)
        ensures
            config.limit == self.limit,
            config.content_type == Some(predicate),
            config.err_handler == self.err_handler,
    {
        CborConfig { limit: self.limit, content_type: Some(predicate), err_handler: self.err_handler }
    }

    /// Sets the handler that turns a fault into the application's error.
    pub fn error_handler(self, handler: H) -> (config: Self)
        ensures
            config.limit == self.limit,
            config.content_type == self.content_type,
            config.err_handler == Some(handler),
    {
        CborConfig { limit: self.limit, content_type: self.content_type, err_handler: Some(handler) }
    }
}

impl<P, H> Default for CborConfig<P, H> {
    fn default() -> (config: Self)
        ensures
            config.limit is None,
            config.content_type is None,
            config.err_handler is None,
    {
        CborConfig::new()
    }
}

/// The limit in force: the route's if it names one, else the fallback's, else
/// [`DEFAULT_LIMIT`].
pub open spec fn resolved_limit<P, H>(
    route: Option<&CborConfig<P, H>>,
    fallback: &CborConfig<P, H>,
) -> usize {
    if route is Some && route->0.limit is Some {
        route->0.limit->0
    } else if fallback.limit is Some {
        fallback.limit->0
    } else {
        DEFAULT_LIMIT
    }
}

/// The predicate in force: the route's if it names one, else the fallback's,
/// else none.
pub open spec fn resolved_content_type<'a, P, H>(
    route: Option<&'a CborConfig<P, H>>,
    fallback: &'a CborConfig<P, H>,
) -> Option<&'a P> {
    if route is Some && route->0.content_type is Some {
        Some(&route->0.content_type->0)
    } else if fallback.content_type is Some {
        Some(&fallback.content_type->0)
    } else {
        None
    }
}

/// The handler in force: the route's if it names one, else the fallback's,
/// else none.
pub open spec fn resolved_err_handler<'a, P, H>(
    route: Option<&'a CborConfig<P, H>>,
    fallback: &'a CborConfig<P, H>,
) -> Option<&'a H> {
    if route is Some && route->0.err_handler is Some {
        Some(&route->0.err_handler->0)
    } else if fallback.err_handler is Some {
        Some(&fallback.err_handler->0)
    } else {
        None
    }
}

impl<'a, P, H> ResolvedConfig<'a, P, H> {
    /// Whether these are the settings that `route` and `fallback` resolve to.
    pub open spec fn resolves(
        self,
        route: Option<&CborConfig<P, H>>,
        fallback: &CborConfig<P, H>,
    ) -> bool {
        &&& self.limit == resolved_limit(route, fallback)
        &&& self.content_type == resolved_content_type(route, fallback)
        &&& self.err_handler == resolved_err_handler(route, fallback)
    }
}

/// Resolves the settings for one request, field by field: what the route
/// specifies wins, what it leaves open comes from `fallback`, and what both
/// leave open is the built-in default. Always succeeds.
pub fn resolve<'a, P, H>(
    route: Option<&'a CborConfig<P, H>>,
    fallback: &'a CborConfig<P, H>,
) -> (resolved: ResolvedConfig<'a, P, H>)
    ensures
        resolved.resolves(route, fallback),
{
    let fallback_limit = match fallback.limit {
        Some(limit) => limit,
        None => DEFAULT_LIMIT,
    };
    let limit = match route {
        Some(config) => match config.limit {
            Some(limit) => limit,
            None => fallback_limit,
        },
        None => fallback_limit,
    };
    let content_type = match route {
        Some(config) => match &config.content_type {
            Some(predicate) => Some(predicate),
            None => fallback.content_type.as_ref(),
        },
        None => fallback.content_type.as_ref(),
    };
    let err_handler = match route {
        Some(config) => match &config.err_handler {
            Some(handler) => Some(handler),
            None => fallback.err_handler.as_ref(),
        },
        None => fallback.err_handler.as_ref(),
    };
    ResolvedConfig { limit, content_type, err_handler }
}

/// A route that specifies every field is used as it stands, whatever the
/// fallback holds.
pub proof fn lemma_full_route_wins<P, H>(
    route: &CborConfig<P, H>,
    fallback: &CborConfig<P, H>,
)
    requires
        route.limit is Some,
        route.content_type is Some,
        route.err_handler is Some,
    ensures
        resolved_limit(Some(route), fallback) == route.limit->0,
        resolved_content_type(Some(route), fallback) == Some(&route.content_type->0),
        resolved_err_handler(Some(route), fallback) == Some(&route.err_handler->0),
{
}

} // verus!

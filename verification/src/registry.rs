//! The dispatch table: which handler serves which path.
//!
//! The table is filled once, at startup, before the first request is
//! served, and only read from then on. No two entries share a path.

use crate::client::{call_request, CallRequest};
use crate::descriptor::{FunctionDescriptor, Method};
use crate::text::str_equal;
use vstd::prelude::*;
use vstd::string::StringExecFns;

verus! {

/// A function together with the handler that serves it.
pub struct ServerFunction<H> {
    descriptor: FunctionDescriptor,
    handler: H,
}

impl<H> ServerFunction<H> {
    /// The description of the function.
    pub closed spec fn spec_descriptor(self) -> FunctionDescriptor {
        self.descriptor
    }

    /// The handler that serves it.
    pub closed spec fn spec_handler(self) -> H {
        self.handler
    }

    /// The path the function is served at.
    pub open spec fn spec_path(self) -> Seq<char> {
        self.spec_descriptor().spec_path()
    }

    /// The method it is called by.
    pub open spec fn spec_method(self) -> Method {
        self.spec_descriptor().spec_transport().spec_method()
    }

    /// Pairs a function with the handler that serves it.
    pub fn new(descriptor: FunctionDescriptor, handler: H) -> (function: Self)
        ensures
            function.spec_descriptor() == descriptor,
            function.spec_handler() == handler,
    {
        ServerFunction { descriptor, handler }
    }

    /// The description of the function.
    pub fn descriptor(&self) -> (descriptor: &FunctionDescriptor)
        ensures
            *descriptor == self.spec_descriptor(),
    {
        &self.descriptor
    }

    /// The handler that serves it.
    pub fn handler(&self) -> (handler: &H)
        ensures
            *handler == self.spec_handler(),
    {
        &self.handler
    }

    /// The path the function is served at.
    pub fn path(&self) -> (path: &str)
        ensures
            path@ == self.spec_path(),
    {
        self.descriptor.path()
    }

    /// The method it is called by.
    pub fn method(&self) -> (method: Method)
        ensures
            method == self.spec_method(),
    {
        self.descriptor.method()
    }
}

/// Defines a function once for both sides: what the server serves under the
/// function's path, and the request by which a caller calls it.
pub fn define_function<H>(descriptor: FunctionDescriptor, handler: H) -> (defined: (
    ServerFunction<H>,
    CallRequest,
))
    ensures
        defined.0.spec_descriptor() == descriptor,
        defined.0.spec_handler() == handler,
        defined.1.method == descriptor.spec_transport().spec_method(),
        defined.1.path@ == descriptor.spec_path(),
        defined.1.content_type@ == descriptor.spec_encoding().spec_content_type(),
{
    let request = call_request(&descriptor);
    (ServerFunction::new(descriptor, handler), request)
}

/// Why a function could not be registered.
#[derive(Debug, Clone, PartialEq, Eq)]
pub enum RegistryError {
    /// Another function is served at this path already.
    DuplicatePath(String),
}

/// The paths of `entries`, in order.
pub open spec fn paths_of<H>(entries: Seq<ServerFunction<H>>) -> Seq<Seq<char>> {
    entries.map_values(|entry: ServerFunction<H>| entry.spec_path())
}

/// Whether no two of `paths` are the same.
pub open spec fn all_distinct(paths: Seq<Seq<char>>) -> bool {
    forall|i: int, j: int| 0 <= i < j < paths.len() ==> paths[i] != paths[j]
}

/// The route at `(method, path)` in a table with these entries, if any.
pub open spec fn route_for<H>(entries: Seq<ServerFunction<H>>, path: Seq<char>, method: Method)
    -> Option<ServerFunction<H>> {
    if exists|i: int|
        0 <= i < entries.len() && (#[trigger] entries[i]).spec_path() == path && entries[i].spec_method()
            == method {
        let i = choose|i: int|
            0 <= i < entries.len() && (#[trigger] entries[i]).spec_path() == path
                && entries[i].spec_method() == method;
        Some(entries[i])
    } else {
        None
    }
}

/// What is registered is resolved: once a function has been added to a
/// table whose paths are distinct and do not hold its path, its path and
/// method lead to it, and every other path leads where it led before.
pub proof fn lemma_registered_is_resolved<H>(
    entries: Seq<ServerFunction<H>>,
    function: ServerFunction<H>,
    other: Seq<char>,
    method: Method,
)
    requires
        all_distinct(paths_of(entries)),
        !paths_of(entries).contains(function.spec_path()),
    ensures
        all_distinct(paths_of(entries.push(function))),
        route_for(entries.push(function), function.spec_path(), function.spec_method()) == Some(
            function,
        ),
        other != function.spec_path() ==> route_for(entries.push(function), other, method)
            == route_for(entries, other, method),
{
    let grown = entries.push(function);
    assert(paths_of(grown) =~= paths_of(entries).push(function.spec_path()));
    assert forall|i: int, j: int| 0 <= i < j < paths_of(grown).len() implies paths_of(grown)[i]
        != paths_of(grown)[j] by {
        if j == entries.len() {
            assert(paths_of(entries)[i] != function.spec_path());
        } else {
            assert(paths_of(entries)[i] != paths_of(entries)[j]);
        }
    }
    // the new entry is the only one with its path
    assert(grown[entries.len() as int] == function);
    assert forall|k: int|
        0 <= k < grown.len() && (#[trigger] grown[k]).spec_path()
            == function.spec_path() implies k == entries.len() by {
        if k < entries.len() {
            assert(paths_of(entries)[k] == function.spec_path());
        }
    }
    if other != function.spec_path() {
        // what leads to `other` in the grown table is an old entry, and back
        assert forall|k: int|
            0 <= k < grown.len() && (#[trigger] grown[k]).spec_path() == other implies k
            < entries.len() && grown[k] == entries[k] by {}
        assert forall|k: int| 0 <= k < entries.len() implies #[trigger] entries[k] == grown[k] by {}
        // at most one entry has the path `other`, in either table
        assert forall|a: int, b: int|
            0 <= a < entries.len() && 0 <= b < entries.len() && (#[trigger] entries[a]).spec_path()
                == other && (#[trigger] entries[b]).spec_path() == other implies a == b by {
            if a != b {
                assert(paths_of(entries)[a] == paths_of(entries)[b]);
            }
        }
    }
}

/// The functions a server serves, each with its handler, by path.
pub struct DispatchTable<H> {
    entries: Vec<ServerFunction<H>>,
}

impl<H> DispatchTable<H> {
    #[verifier::type_invariant]
    spec fn paths_are_distinct(self) -> bool {
        all_distinct(paths_of(self.entries@))
    }

    /// The registered functions, in the order of registration.
    pub closed spec fn entries(self) -> Seq<ServerFunction<H>> {
        self.entries@
    }

    /// The paths that are taken, in the order of registration.
    pub open spec fn paths(self) -> Seq<Seq<char>> {
        paths_of(self.entries())
    }

    /// A table without entries.
    pub fn new() -> (table: Self)
        ensures
            table.entries() == Seq::<ServerFunction<H>>::empty(),
    {
        let entries: Vec<ServerFunction<H>> = Vec::new();
        assert(paths_of(entries@) =~= Seq::empty());
        DispatchTable { entries }
    }

    /// Whether a function is served at `path`.
    pub fn is_taken(&self, path: &str) -> (taken: bool)
        ensures
            taken == self.paths().contains(path@),
    {
        let mut i: usize = 0;
        while i < self.entries.len()
            invariant
                i <= self.entries.len(),
                forall|j: int| 0 <= j < i ==> paths_of(self.entries@)[j] != path@,
            decreases self.entries.len() - i,
        {
            if str_equal(self.entries[i].path(), path) {
                assert(paths_of(self.entries@)[i as int] == path@);
                return true;
            }
            i = i + 1;
        }
        false
    }

    /// Registers a function that was defined with its handler; see
    /// `register`.
    pub fn register_function(&mut self, function: ServerFunction<H>) -> (registered: Result<
        (),
        RegistryError,
    >)
        ensures
            match registered {
                Ok(()) => !old(self).paths().contains(function.spec_path()) && final(self).entries() == old(self).entries().push(function),
                Err(RegistryError::DuplicatePath(path)) => old(self).paths().contains(
                    function.spec_path(),
                ) && path@ == function.spec_path() && final(self).entries() == old(self).entries(),
            },
    {
        proof {
            use_type_invariant(&*self);
        }
        if self.is_taken(function.path()) {
            return Err(RegistryError::DuplicatePath(String::from_str(function.path())));
        }
        let ghost before = self.entries@;
        let mut taken = DispatchTable::new();
        core::mem::swap(self, &mut taken);
        let mut entries = taken.entries;
        entries.push(function);
        proof {
            assert(paths_of(entries@) =~= paths_of(before).push(function.spec_path()));
            assert forall|i: int, j: int| 0 <= i < j < paths_of(entries@).len() implies paths_of(
                entries@,
            )[i] != paths_of(entries@)[j] by {
                if j == before.len() {
                    assert(paths_of(before)[i] != function.spec_path());
                } else {
                    assert(paths_of(before)[i] != paths_of(before)[j]);
                }
            }
        }
        *self = DispatchTable { entries };
        Ok(())
    }

    /// Registers `descriptor` with its handler. This fails, and changes
    /// nothing, exactly where another function is served at the same path
    /// already.
    pub fn register(&mut self, descriptor: FunctionDescriptor, handler: H) -> (registered: Result<
        (),
        RegistryError,
    >)
        ensures
            match registered {
                Ok(()) => !old(self).paths().contains(descriptor.spec_path()) && final(self).entries().len() == old(self).entries().len() + 1 && final(self).entries().drop_last() == old(self).entries() && final(self).entries().last().spec_descriptor() == descriptor && final(self).entries().last().spec_handler() == handler,
                Err(RegistryError::DuplicatePath(path)) => old(self).paths().contains(
                    descriptor.spec_path(),
                ) && path@ == descriptor.spec_path() && final(self).entries() == old(self).entries(),
            },
    {
        let function = ServerFunction::new(descriptor, handler);
        let registered = self.register_function(function);
        proof {
            if registered.is_ok() {
                assert(final(self).entries().drop_last() =~= old(self).entries());
            }
        }
        registered
    }

    /// The function served at `path` and called by `method`, with its
    /// handler.
    pub fn resolve(&self, path: &str, method: Method) -> (found: Option<&ServerFunction<H>>)
        ensures
            match found {
                Some(function) => self.entries().contains(*function) && function.spec_path()
                    == path@ && function.spec_method() == method,
                None => forall|i: int|
                    0 <= i < self.entries().len() ==> !((#[trigger] self.entries()[i]).spec_path()
                        == path@ && self.entries()[i].spec_method() == method),
            },
            found.is_some() == route_for(self.entries(), path@, method).is_some(),
            found matches Some(function) ==> route_for(self.entries(), path@, method) == Some(
                *function,
            ),
    {
        proof {
            use_type_invariant(self);
        }
        let mut i: usize = 0;
        while i < self.entries.len()
            invariant
                i <= self.entries.len(),
                all_distinct(paths_of(self.entries@)),
                forall|j: int|
                    0 <= j < i ==> !((#[trigger] self.entries@[j]).spec_path() == path@
                        && self.entries@[j].spec_method() == method),
            decreases self.entries.len() - i,
        {
            let entry = &self.entries[i];
            if str_equal(entry.path(), path) {
                if entry.method() == method {
                    proof {
                        let chosen = choose|k: int|
                            0 <= k < self.entries@.len() && (#[trigger] self.entries@[k]).spec_path()
                                == path@ && self.entries@[k].spec_method() == method;
                        if chosen != i {
                            assert(paths_of(self.entries@)[chosen] == path@);
                            assert(paths_of(self.entries@)[i as int] == path@);
                        }
                    }
                    return Some(entry);
                }
            }
            i = i + 1;
        }
        None
    }

    /// Every registered function, in the order of registration, for
    /// installing the routes. No two of them share a path.
    pub fn all(&self) -> (entries: &Vec<ServerFunction<H>>)
        ensures
            entries@ == self.entries(),
            all_distinct(self.paths()),
    {
        proof {
            use_type_invariant(self);
        }
        &self.entries
    }

    /// The number of registered functions.
    pub fn len(&self) -> (count: usize)
        ensures
            count == self.entries().len(),
    {
        self.entries.len()
    }
}

/// One route of a router: a method and a path.
#[derive(Debug, Clone, PartialEq, Eq)]
pub struct Route {
    pub method: Method,
    pub path: String,
}

/// The routes that `entries` call for, in order.
pub open spec fn routes_of<H>(entries: Seq<ServerFunction<H>>) -> Seq<(Method, Seq<char>)> {
    entries.map_values(|entry: ServerFunction<H>| (entry.spec_method(), entry.spec_path()))
}

/// A router that the registered functions can be installed on.
pub trait ServerFnRouter: Sized {
    /// What a route leads to.
    type Handler;

    /// Whether this router says what it holds, so that what is installed on
    /// it can be reasoned about. A router that wraps outside code does not.
    open spec fn tracks_routes() -> bool {
        false
    }

    /// The routes installed, in the order of installation, for a router
    /// that says what it holds.
    open spec fn routes(&self) -> Seq<(Method, Seq<char>)> {
        Seq::empty()
    }

    /// Installs one route.
    fn route(self, method: Method, path: &str, handler: &Self::Handler) -> (routed: Self)
        ensures
            Self::tracks_routes() ==> routed.routes() == self.routes().push((method, path@)),
    ;

    /// Installs a route for every function of `table`, in the order of
    /// registration.
    fn register_server_fns(self, table: &DispatchTable<Self::Handler>) -> (routed: Self)
        ensures
            Self::tracks_routes() ==> routed.routes() == self.routes() + routes_of(
                table.entries(),
            ),
    {
        let entries = table.all();
        let mut router = self;
        let mut i: usize = 0;
        assert(routes_of(entries@.take(0)) =~= Seq::empty());
        assert(router.routes() =~= self.routes() + routes_of(entries@.take(0)));
        while i < entries.len()
            invariant
                i <= entries.len(),
                entries@ == table.entries(),
                Self::tracks_routes() ==> router.routes() == self.routes() + routes_of(
                    entries@.take(i as int),
                ),
            decreases entries.len() - i,
        {
            let entry = &entries[i];
            let ghost before = router.routes();
            router = router.route(entry.method(), entry.path(), entry.handler());
            proof {
                assert(routes_of(entries@.take(i + 1)) =~= routes_of(entries@.take(i as int)).push(
                    (entry.spec_method(), entry.spec_path()),
                ));
                if Self::tracks_routes() {
                    assert(router.routes() =~= self.routes() + routes_of(entries@.take(i + 1)));
                }
            }
            i = i + 1;
        }
        proof {
            assert(entries@.take(entries.len() as int) =~= entries@);
        }
        router
    }
}

/// A router that only keeps a list of what was installed on it: for looking
/// at the routes a table calls for without serving them.
pub struct RouteList<H> {
    installed: Vec<Route>,
    handlers: Ghost<Seq<H>>,
}

/// The methods and paths of `installed`, in order.
pub open spec fn route_pairs(installed: Seq<Route>) -> Seq<(Method, Seq<char>)> {
    installed.map_values(|route: Route| (route.method, route.path@))
}

impl<H> RouteList<H> {
    /// A list without routes.
    pub fn new() -> (list: Self)
        ensures
            list.routes() == Seq::<(Method, Seq<char>)>::empty(),
    {
        let installed: Vec<Route> = Vec::new();
        assert(route_pairs(installed@) =~= Seq::empty());
        RouteList { installed, handlers: Ghost(Seq::empty()) }
    }

    /// The routes installed, in the order of installation.
    pub fn installed(&self) -> (installed: &Vec<Route>)
        ensures
            route_pairs(installed@) == self.routes(),
    {
        &self.installed
    }
}

impl<H> ServerFnRouter for RouteList<H> {
    type Handler = H;

    open spec fn tracks_routes() -> bool {
        true
    }

    closed spec fn routes(&self) -> Seq<(Method, Seq<char>)> {
        route_pairs(self.installed@)
    }

    fn route(self, method: Method, path: &str, handler: &H) -> (routed: Self) {
        let mut installed = self.installed;
        let ghost before = installed@;
        installed.push(Route { method, path: String::from_str(path) });
        proof {
            assert(route_pairs(installed@) =~= route_pairs(before).push((method, path@)));
        }
        RouteList { installed, handlers: Ghost(self.handlers@.push(*handler)) }
    }
}

} // verus!

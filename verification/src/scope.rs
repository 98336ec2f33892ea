//! The scope of one invocation: the request context that is in force and
//! the values injected for the handler.
//!
//! A scope is a value that the invocation owns and hands down the calls it
//! makes. Two invocations never share one, so neither can see what the other
//! was given. Contexts nest: entering one covers the one in force until it
//! is left again.

use crate::context::RequestContext;
use crate::error::{ErrorModel, ServerFnError};
use vstd::hash_map::StringHashMap;
use vstd::pervasive::cloned;
use vstd::prelude::*;
use vstd::string::StringExecFns;

verus! {

/// No value was provided under the type this names.
#[derive(Debug, Clone, PartialEq, Eq)]
pub struct NotFound {
    /// The tag of the type that was asked for.
    pub type_tag: String,
}

/// The text of the error for a value that was not provided.
pub open spec fn not_found_message(type_tag: Seq<char>) -> Seq<char> {
    "Context value not found for type: "@ + type_tag
}

/// The values provided to one invocation, each under the tag of its type.
#[verifier::reject_recursive_types(V)]
pub struct InjectionContainer<V> {
    values: StringHashMap<V>,
}

impl<V> View for InjectionContainer<V> {
    type V = Map<Seq<char>, V>;

    closed spec fn view(&self) -> Map<Seq<char>, V> {
        self.values@
    }
}

impl<V> InjectionContainer<V> {
    /// A container that holds nothing.
    pub fn new() -> (container: Self)
        ensures
            container@ == Map::<Seq<char>, V>::empty(),
    {
        InjectionContainer { values: StringHashMap::new() }
    }

    /// Puts `value` under `type_tag`, in place of what was there.
    pub fn provide(&mut self, type_tag: &str, value: V)
        ensures
            final(self)@ == old(self)@.insert(type_tag@, value),
    {
        self.values.insert(String::from_str(type_tag), value);
    }

    /// The value under `type_tag`: the one provided last.
    pub fn resolve(&self, type_tag: &str) -> (found: Result<&V, NotFound>)
        ensures
            match found {
                Ok(value) => self@.contains_key(type_tag@) && *value == self@[type_tag@],
                Err(missing) => !self@.contains_key(type_tag@) && missing.type_tag@
                    == type_tag@,
            },
    {
        match self.values.get(type_tag) {
            Some(value) => Ok(value),
            None => Err(NotFound { type_tag: String::from_str(type_tag) }),
        }
    }
}

/// What the containers of a scope hold, innermost last.
pub open spec fn container_views<V>(containers: Seq<InjectionContainer<V>>) -> Seq<
    Map<Seq<char>, V>,
> {
    containers.map_values(|container: InjectionContainer<V>| container@)
}

/// The scope of one invocation.
#[verifier::reject_recursive_types(V)]
pub struct Scope<V> {
    requests: Vec<RequestContext>,
    containers: Vec<InjectionContainer<V>>,
}

impl<V> Scope<V> {
    /// The request contexts entered and not yet left, innermost last.
    pub closed spec fn requests(self) -> Seq<RequestContext> {
        self.requests@
    }

    /// The containers entered and not yet left, innermost last.
    pub closed spec fn containers(self) -> Seq<Map<Seq<char>, V>> {
        container_views(self.containers@)
    }

    /// Whether a request context is in force.
    pub open spec fn in_request(self) -> bool {
        self.requests().len() > 0
    }

    /// What the innermost container holds; nothing, outside any container.
    pub open spec fn provided(self) -> Map<Seq<char>, V> {
        if self.containers().len() > 0 {
            self.containers().last()
        } else {
            Map::empty()
        }
    }

    /// The scope outside any invocation: no context, no container.
    pub fn new() -> (scope: Self)
        ensures
            scope.requests().len() == 0,
            scope.containers().len() == 0,
    {
        let scope = Scope { requests: Vec::new(), containers: Vec::new() };
        assert(scope.containers() =~= Seq::empty());
        scope
    }

    /// Puts `context` in force until it is left.
    pub fn enter_context(&mut self, context: RequestContext)
        ensures
            final(self).requests() == old(self).requests().push(context),
            final(self).containers() == old(self).containers(),
    {
        self.requests.push(context);
    }

    /// Ends the innermost request context and hands it back; the one it
    /// covered is in force again.
    pub fn leave_context(&mut self) -> (left: Option<RequestContext>)
        ensures
            final(self).containers() == old(self).containers(),
            match left {
                Some(context) => old(self).in_request() && context == old(self).requests().last()
                    && final(self).requests() == old(self).requests().drop_last(),
                None => !old(self).in_request() && final(self).requests() == old(
                    self,
                ).requests(),
            },
    {
        self.requests.pop()
    }

    /// Opens a container that holds nothing; until it is left, values are
    /// provided to it and resolved from it alone.
    pub fn enter_custom_context(&mut self)
        ensures
            final(self).containers() == old(self).containers().push(Map::empty()),
            final(self).requests() == old(self).requests(),
    {
        let ghost before = self.containers@;
        let fresh = InjectionContainer::new();
        self.containers.push(fresh);
        proof {
            assert(container_views(self.containers@) =~= container_views(before).push(
                Map::empty(),
            ));
        }
    }

    /// Closes the innermost container and hands it back; what was provided
    /// to it is gone from the scope.
    pub fn leave_custom_context(&mut self) -> (left: Option<InjectionContainer<V>>)
        ensures
            final(self).requests() == old(self).requests(),
            match left {
                Some(container) => old(self).containers().len() > 0 && container@ == old(
                    self,
                ).containers().last() && final(self).containers() == old(
                    self,
                ).containers().drop_last(),
                None => old(self).containers().len() == 0 && final(self).containers() == old(
                    self,
                ).containers(),
            },
    {
        let ghost before = self.containers@;
        let left = self.containers.pop();
        proof {
            if before.len() > 0 {
                assert(container_views(self.containers@) =~= container_views(before).drop_last());
            }
        }
        left
    }

    /// Puts `context` in force and opens a container that holds nothing.
    pub fn enter_full_context(&mut self, context: RequestContext)
        ensures
            final(self).requests() == old(self).requests().push(context),
            final(self).containers() == old(self).containers().push(Map::empty()),
    {
        self.enter_context(context);
        self.enter_custom_context();
    }

    /// Closes the innermost container and ends the innermost request
    /// context.
    pub fn leave_full_context(&mut self)
        ensures
            final(self).requests() == if old(self).in_request() {
                old(self).requests().drop_last()
            } else {
                old(self).requests()
            },
            final(self).containers() == if old(self).containers().len() > 0 {
                old(self).containers().drop_last()
            } else {
                old(self).containers()
            },
    {
        let _ = self.leave_custom_context();
        let _ = self.leave_context();
    }
}

/// The request context in force.
///
/// Outside any request context there is none to give: the call is a fault
/// of the caller.
pub fn request_context<V>(scope: &Scope<V>) -> (context: &RequestContext)
    requires
        scope.in_request(),
    ensures
        *context == scope.requests().last(),
{
    &scope.requests[scope.requests.len() - 1]
}

/// The request context in force, or `None` outside any.
pub fn try_request_context<V>(scope: &Scope<V>) -> (context: Option<&RequestContext>)
    ensures
        match context {
            Some(found) => scope.in_request() && *found == scope.requests().last(),
            None => !scope.in_request(),
        },
{
    if scope.requests.len() > 0 {
        Some(&scope.requests[scope.requests.len() - 1])
    } else {
        None
    }
}

/// Provides `value` under `type_tag` to the innermost container, in place
/// of what was there. Outside any container nothing happens.
pub fn provide_context<V>(scope: &mut Scope<V>, type_tag: &str, value: V)
    ensures
        final(scope).requests() == old(scope).requests(),
        final(scope).containers() == if old(scope).containers().len() > 0 {
            old(scope).containers().drop_last().push(
                old(scope).containers().last().insert(type_tag@, value),
            )
        } else {
            old(scope).containers()
        },
        old(scope).containers().len() > 0 ==> final(scope).provided() == old(
            scope,
        ).provided().insert(type_tag@, value),
{
    let ghost before = scope.containers@;
    match scope.containers.pop() {
        Some(top) => {
            let mut top = top;
            top.provide(type_tag, value);
            scope.containers.push(top);
            proof {
                assert(container_views(scope.containers@) =~= container_views(
                    before,
                ).drop_last().push(container_views(before).last().insert(type_tag@, value)));
            }
        },
        None => {},
    }
}

/// The value provided last under `type_tag` in the innermost container, or
/// `None` if there is none.
pub fn resolve_context<'a, V>(scope: &'a Scope<V>, type_tag: &str) -> (found: Result<
    &'a V,
    NotFound,
>)
    ensures
        match found {
            Ok(value) => scope.provided().contains_key(type_tag@) && *value
                == scope.provided()[type_tag@],
            Err(missing) => !scope.provided().contains_key(type_tag@) && missing.type_tag@
                == type_tag@,
        },
{
    if scope.containers.len() > 0 {
        scope.containers[scope.containers.len() - 1].resolve(type_tag)
    } else {
        Err(NotFound { type_tag: String::from_str(type_tag) })
    }
}

/// A copy of the value provided last under `type_tag`; an error with a
/// message that names the type where none was provided.
pub fn use_context<V: Clone>(scope: &Scope<V>, type_tag: &str) -> (found: Result<
    V,
    ServerFnError,
>)
    ensures
        match found {
            Ok(value) => scope.provided().contains_key(type_tag@) && cloned(
                scope.provided()[type_tag@],
                value,
            ),
            Err(error) => !scope.provided().contains_key(type_tag@) && error@
                == ErrorModel::<()>::Custom(not_found_message(type_tag@)),
        },
{
    match resolve_context(scope, type_tag) {
        Ok(value) => Ok(value.clone()),
        Err(missing) => Err(
            ServerFnError::Custom(
                String::from_str("Context value not found for type: ").concat(
                    missing.type_tag.as_str(),
                ),
            ),
        ),
    }
}

/// A copy of the value provided last under `type_tag`, or `None` where
/// none was provided.
pub fn try_use_context<V: Clone>(scope: &Scope<V>, type_tag: &str) -> (found: Option<V>)
    ensures
        match found {
            Some(value) => scope.provided().contains_key(type_tag@) && cloned(
                scope.provided()[type_tag@],
                value,
            ),
            None => !scope.provided().contains_key(type_tag@),
        },
{
    match resolve_context(scope, type_tag) {
        Ok(value) => Some(value.clone()),
        Err(_) => None,
    }
}

/// What is resolved is what was provided last: a value provided under a name
/// is found under it until another is provided under the same name, whatever
/// is provided under other names; and nothing is found that was never
/// provided.
pub proof fn lemma_last_provided_is_resolved<V>(
    held: Map<Seq<char>, V>,
    name: Seq<char>,
    first: V,
    second: V,
    other: Seq<char>,
    unrelated: V,
)
    ensures
        !Map::<Seq<char>, V>::empty().contains_key(name),
        held.insert(name, first).contains_key(name),
        held.insert(name, first)[name] == first,
        held.insert(name, first).insert(name, second)[name] == second,
        other != name ==> held.insert(name, first).insert(other, unrelated)[name] == first,
        other != name ==> (held.insert(other, unrelated).contains_key(name) <==> held.contains_key(
            name,
        )),
{
}

/// What an invocation provides stays in it: once its container is left, the
/// scope holds what it held before the container was opened.
pub proof fn lemma_provided_values_do_not_leak<V>(
    outer: Seq<Map<Seq<char>, V>>,
    name: Seq<char>,
    value: V,
)
    ensures
        outer.push(Map::empty()).drop_last() == outer,
        outer.push(Map::<Seq<char>, V>::empty().insert(name, value)).drop_last() == outer,
{
    assert(outer.push(Map::empty()).drop_last() =~= outer);
    assert(outer.push(Map::<Seq<char>, V>::empty().insert(name, value)).drop_last() =~= outer);
}

} // verus!

use vstd::prelude::*;
use vstd::string::StringExecFns;
use bytes::Bytes;
use crate::registry::Registry;

verus! {

/// `bytes::Bytes`, the buffer that a payload travels in. It is carried as it came:
/// nothing is claimed of what it holds.
#[verifier::external_type_specification]
#[verifier::external_body]
pub struct ExBytes(bytes::Bytes);

/// The callback of an action: from the envelope to the response payload, if there is one.
pub type ActionCallback = fn(Context) -> Option<Bytes>;

/// The callback on an event: it consumes the envelope.
pub type EventCallback = fn(Context) -> ();

/// A callable operation of a service, by name. The callback is whatever the node calls
/// with a decoded envelope; its answer, if any, is the response payload.
pub struct Action<F> {
    name: String,
    callback: F,
}

/// A subscription of a service to an event, by name. The callback consumes the envelope.
pub struct Event<F> {
    name: String,
    callback: F,
}

impl<F> Action<F> {
    pub closed spec fn name(&self) -> Seq<char> {
        self.name@
    }

    pub closed spec fn callback(&self) -> F {
        self.callback
    }

    pub fn new(name: &str, callback: F) -> (a: Action<F>)
        ensures
            a.name() == name@,
            a.callback() == callback,
    {
        Action { name: String::from_str(name), callback }
    }
}

impl<F> Event<F> {
    pub closed spec fn name(&self) -> Seq<char> {
        self.name@
    }

    pub closed spec fn callback(&self) -> F {
        self.callback
    }

    pub fn new(name: &str, callback: F) -> (e: Event<F>)
        ensures
            e.name() == name@,
            e.callback() == callback,
    {
        Event { name: String::from_str(name), callback }
    }
}

/// What a service is: its name, its version if it has one, and its callbacks by name.
pub ghost struct ServiceView<A, E> {
    pub name: Seq<char>,
    pub version: Option<i32>,
    pub actions: Map<Seq<char>, A>,
    pub events: Map<Seq<char>, E>,
}

impl<A, E> ServiceView<A, E> {
    /// The service with nothing registered.
    pub open spec fn bare(name: Seq<char>) -> Self {
        ServiceView { name, version: None, actions: Map::empty(), events: Map::empty() }
    }

    pub open spec fn with_version(self, version: i32) -> Self {
        ServiceView { version: Some(version), ..self }
    }

    /// The service with `callback` as its action `name`, whatever the name held before.
    pub open spec fn with_action(self, name: Seq<char>, callback: A) -> Self {
        ServiceView { actions: self.actions.insert(name, callback), ..self }
    }

    /// The service with `callback` on its event `name`, whatever the name held before.
    pub open spec fn with_event(self, name: Seq<char>, callback: E) -> Self {
        ServiceView { events: self.events.insert(name, callback), ..self }
    }
}

/// The registration record of a local service, built once before the node listens.
pub struct Service<A, E> {
    name: String,
    version: Option<i32>,
    actions: Registry<A>,
    events: Registry<E>,
}

impl<A, E> View for Service<A, E> {
    type V = ServiceView<A, E>;

    closed spec fn view(&self) -> ServiceView<A, E> {
        ServiceView {
            name: self.name@,
            version: self.version,
            actions: self.actions@,
            events: self.events@,
        }
    }
}

impl<A, E> Service<A, E> {
    /// A service called `name`, with no version and nothing registered.
    pub fn new(name: &str) -> (s: Service<A, E>)
        ensures
            s@ == ServiceView::<A, E>::bare(name@),
    {
        Service {
            name: String::from_str(name),
            version: None,
            actions: Registry::new(),
            events: Registry::new(),
        }
    }

    /// The same service at `version`.
    pub fn version(self, version: i32) -> (s: Service<A, E>)
        ensures
            s@ == self@.with_version(version),
    {
        Service { name: self.name, version: Some(version), actions: self.actions, events: self.events }
    }

    /// The same service with `action` registered; an action of that name registered
    /// before is replaced.
    pub fn action(self, action: Action<A>) -> (s: Service<A, E>)
        ensures
            s@ == self@.with_action(action.name(), action.callback()),
    {
        Service {
            name: self.name,
            version: self.version,
            actions: self.actions.insert(action.name, action.callback),
            events: self.events,
        }
    }

    /// The same service with `event` registered; an event of that name registered
    /// before is replaced.
    pub fn event(self, event: Event<E>) -> (s: Service<A, E>)
        ensures
            s@ == self@.with_event(event.name(), event.callback()),
    {
        Service {
            name: self.name,
            version: self.version,
            actions: self.actions,
            events: self.events.insert(event.name, event.callback),
        }
    }

    pub fn service_name(&self) -> (name: &str)
        ensures
            name@ == self@.name,
    {
        self.name.as_str()
    }

    pub fn service_version(&self) -> (version: Option<i32>)
        ensures
            version == self@.version,
    {
        self.version
    }

    /// The callback of the action `name`, if one is registered.
    pub fn find_action(&self, name: &str) -> (r: Option<&A>)
        ensures
            match r {
                Some(callback) => self@.actions.contains_key(name@) && self@.actions[name@]
                    == *callback,
                None => !self@.actions.contains_key(name@),
            },
    {
        self.actions.get(name)
    }

    /// The callback on the event `name`, if one is registered.
    pub fn find_event(&self, name: &str) -> (r: Option<&E>)
        ensures
            match r {
                Some(callback) => self@.events.contains_key(name@) && self@.events[name@]
                    == *callback,
                None => !self@.events.contains_key(name@),
            },
    {
        self.events.get(name)
    }

    /// How many actions are registered, each name counted once.
    pub fn action_count(&self) -> (n: usize)
        ensures
            self@.actions.dom().finite(),
            n == self@.actions.dom().len(),
    {
        self.actions.len()
    }

    /// How many events are registered, each name counted once.
    pub fn event_count(&self) -> (n: usize)
        ensures
            self@.events.dom().finite(),
            n == self@.events.dom().len(),
    {
        self.events.len()
    }
}

impl<A, E> Default for Service<A, E> {
    /// The service without a name, with no version and nothing registered.
    fn default() -> (s: Service<A, E>)
        ensures
            s@ == ServiceView::<A, E>::bare(Seq::<char>::empty()),
    {
        Service {
            name: String::new(),
            version: None,
            actions: Registry::new(),
            events: Registry::new(),
        }
    }
}

/// Of two registrations under one name only the second is kept.
pub proof fn lemma_last_registration_wins<A, E>(
    service: ServiceView<A, E>,
    name: Seq<char>,
    first: A,
    second: A,
    earlier: E,
    later: E,
)
    ensures
        service.with_action(name, first).with_action(name, second) == service.with_action(
            name,
            second,
        ),
        service.with_event(name, earlier).with_event(name, later) == service.with_event(
            name,
            later,
        ),
{
    assert(service.actions.insert(name, first).insert(name, second) =~= service.actions.insert(
        name,
        second,
    ));
    assert(service.events.insert(name, earlier).insert(name, later) =~= service.events.insert(
        name,
        later,
    ));
}

/// The order in which an action and an event are registered does not show in the
/// service, nor does the order of two registrations under different names.
pub proof fn lemma_registration_order_is_irrelevant<A, E>(
    service: ServiceView<A, E>,
    action: Seq<char>,
    on_action: A,
    other_action: Seq<char>,
    on_other_action: A,
    event: Seq<char>,
    on_event: E,
    other_event: Seq<char>,
    on_other_event: E,
)
    ensures
        service.with_action(action, on_action).with_event(event, on_event) == service.with_event(
            event,
            on_event,
        ).with_action(action, on_action),
        action != other_action ==> service.with_action(action, on_action).with_action(
            other_action,
            on_other_action,
        ) == service.with_action(other_action, on_other_action).with_action(action, on_action),
        event != other_event ==> service.with_event(event, on_event).with_event(
            other_event,
            on_other_event,
        ) == service.with_event(other_event, on_other_event).with_event(event, on_event),
{
    if action != other_action {
        assert(service.actions.insert(action, on_action).insert(other_action, on_other_action)
            =~= service.actions.insert(other_action, on_other_action).insert(action, on_action));
    }
    if event != other_event {
        assert(service.events.insert(event, on_event).insert(other_event, on_other_event)
            =~= service.events.insert(other_event, on_other_event).insert(event, on_event));
    }
}

/// How an event reaches its subscribers.
#[derive(Clone, Copy, Debug, PartialEq, Eq, Structural)]
pub enum EventType {
    Emit,
    Broadcast,
}

/// The envelope of a request or an event on the bus. The three payloads are carried
/// as they came and never looked into.
#[derive(Debug)]
pub struct Context {
    pub id: String,
    pub broker: String,
    pub node_id: String,
    pub action: Option<String>,
    pub event: Option<String>,
    pub event_name: Option<String>,
    pub event_type: Option<EventType>,
    pub event_groups: Vec<String>,
    pub caller: String,
    pub request_id: String,
    pub parent_id: String,
    pub params: Bytes,
    pub meta: Bytes,
    pub locals: Bytes,
    pub level: i32,
}

/// What is wrong with an envelope.
#[derive(Clone, Copy, Debug, PartialEq, Eq, Structural)]
pub enum ContextError {
    EmptyId,
    EmptyNodeId,
    EmptyRequestId,
    /// The call depth is below one.
    LevelTooLow,
    /// Neither an action nor an event is named.
    NoTarget,
    /// Both an action and an event are named.
    TwoTargets,
}

impl Context {
    /// The envelope's invariant: the three identities are not empty, the call depth is
    /// at least one, and exactly one of action and event is set.
    pub open spec fn well_formed(&self) -> bool {
        &&& self.id@.len() > 0
        &&& self.node_id@.len() > 0
        &&& self.request_id@.len() > 0
        &&& self.level >= 1
        &&& (self.action is Some) != (self.event is Some)
    }

    /// The first thing wrong with the envelope, in the order of `ContextError`.
    pub open spec fn fault(&self) -> Option<ContextError> {
        if self.id@.len() == 0 {
            Some(ContextError::EmptyId)
        } else if self.node_id@.len() == 0 {
            Some(ContextError::EmptyNodeId)
        } else if self.request_id@.len() == 0 {
            Some(ContextError::EmptyRequestId)
        } else if self.level < 1 {
            Some(ContextError::LevelTooLow)
        } else if self.action is None && self.event is None {
            Some(ContextError::NoTarget)
        } else if self.action is Some && self.event is Some {
            Some(ContextError::TwoTargets)
        } else {
            None
        }
    }

    /// Holds the envelope to its invariant and names the first breach.
    pub fn validate(&self) -> (r: Result<(), ContextError>)
        ensures
            r is Ok <==> self.well_formed(),
            r == match self.fault() {
                Some(e) => Err::<(), ContextError>(e),
                None => Ok::<(), ContextError>(()),
            },
    {
        if self.id.as_str().is_empty() {
            Err(ContextError::EmptyId)
        } else if self.node_id.as_str().is_empty() {
            Err(ContextError::EmptyNodeId)
        } else if self.request_id.as_str().is_empty() {
            Err(ContextError::EmptyRequestId)
        } else if self.level < 1 {
            Err(ContextError::LevelTooLow)
        } else if self.action.is_none() && self.event.is_none() {
            Err(ContextError::NoTarget)
        } else if self.action.is_some() && self.event.is_some() {
            Err(ContextError::TwoTargets)
        } else {
            Ok(())
        }
    }

    /// Whether `self` can stand below `parent` in one call chain: same request, and a
    /// call depth that is not smaller.
    pub fn continues(&self, parent: &Context) -> (r: bool)
        ensures
            r == (self.request_id@ == parent.request_id@ && self.level >= parent.level),
    {
        self.request_id == parent.request_id && self.level >= parent.level
    }
}

} // verus!

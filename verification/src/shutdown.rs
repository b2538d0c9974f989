use vstd::prelude::*;

use crate::json::{Json, JsonView, NumberView};

verus! {

/// The flag that tells whether the shutdown of the runtime was requested.
#[derive(Debug)]
pub struct ShutdownStateContainer(pub bool);

/// Creates the flag, not set.
pub fn create_shutdown_state() -> (r: ShutdownStateContainer)
    ensures
        r.0 == false,
{
    ShutdownStateContainer(false)
}

/// What is to be done on a new value of the shutdown property.
#[derive(Debug, Clone, Copy, PartialEq, Eq, Structural)]
pub enum ShutdownRequest {
    /// Nothing: the value asks for no shutdown.
    Ignore,
    /// The shutdown is requested now.
    Now,
    /// The shutdown is to be requested after the given number of seconds.
    AfterSeconds(u64),
}

/// What a value of the shutdown property asks for: `true` asks for the
/// shutdown now, a number for the shutdown after that many seconds.
pub open spec fn shutdown_request(value: JsonView) -> ShutdownRequest {
    match value {
        JsonView::Bool(true) => ShutdownRequest::Now,
        JsonView::Number(NumberView::PosInt(n)) => ShutdownRequest::AfterSeconds(n),
        _ => ShutdownRequest::Ignore,
    }
}

/// What happens to a shutdown manager: the shutdown is requested, or the
/// shutdown property gets a new value.
pub enum ShutdownEvent {
    DoShutdown,
    Value(JsonView),
}

/// Whether the shutdown is requested after an event, given whether it was
/// before.
pub open spec fn shutdown_step(requested: bool, event: ShutdownEvent) -> bool {
    match event {
        ShutdownEvent::DoShutdown => true,
        ShutdownEvent::Value(v) => requested || shutdown_request(v) == ShutdownRequest::Now,
    }
}

/// Whether the shutdown is requested after the events, in order.
pub open spec fn after_events(requested: bool, events: Seq<ShutdownEvent>) -> bool
    decreases events.len(),
{
    if events.len() == 0 {
        requested
    } else {
        shutdown_step(after_events(requested, events.drop_last()), events.last())
    }
}

/// Once the shutdown is requested it stays requested, whatever happens to
/// the shutdown manager afterwards.
pub proof fn law_shutdown_request_is_kept(events: Seq<ShutdownEvent>)
    ensures
        after_events(true, events),
    decreases events.len(),
{
    if events.len() > 0 {
        law_shutdown_request_is_kept(events.drop_last());
    }
}

/// The shutdown manager: it holds the flag that the runtime watches. The
/// flag changes only through its methods, and none of them clears it.
#[derive(Debug)]
pub struct ShutdownManagerImpl {
    shutdown_state: ShutdownStateContainer,
}

impl View for ShutdownManagerImpl {
    type V = bool;

    /// Whether the shutdown was requested.
    closed spec fn view(&self) -> bool {
        self.shutdown_state.0
    }
}

impl ShutdownManagerImpl {
    /// Creates a shutdown manager whose flag is not set.
    pub fn new() -> (r: ShutdownManagerImpl)
        ensures
            !r@,
    {
        ShutdownManagerImpl { shutdown_state: create_shutdown_state() }
    }

    /// Requests the shutdown.
    pub fn do_shutdown(&mut self)
        ensures
            final(self)@ == shutdown_step(old(self)@, ShutdownEvent::DoShutdown),
            final(self)@,
    {
        self.shutdown_state.0 = true;
    }

    /// Returns true when the shutdown was requested.
    pub fn is_shutdown(&self) -> (r: bool)
        ensures
            r == self@,
    {
        self.shutdown_state.0
    }

    /// Handles a new value of the shutdown property: `true` requests the
    /// shutdown at once, a number asks for it after that many seconds, which
    /// the caller waits for before calling `do_shutdown`. A number that is
    /// not a non-negative integer is refused, as the runtime cannot wait for it.
    pub fn on_shutdown_value(&mut self, value: &Json) -> (r: ShutdownRequest)
        requires
            value@ is Number ==> value@ matches JsonView::Number(NumberView::PosInt(_)),
        ensures
            r == shutdown_request(value@),
            final(self)@ == shutdown_step(old(self)@, ShutdownEvent::Value(value@)),
    {
        if let Some(b) = value.as_bool() {
            if b {
                self.shutdown_state.0 = true;
                return ShutdownRequest::Now;
            }
        }
        if value.is_number() {
            match value.as_u64() {
                Some(seconds) => {
                    return ShutdownRequest::AfterSeconds(seconds);
                },
                None => {},
            }
        }
        ShutdownRequest::Ignore
    }

    /// The properties of the entity instance through which the shutdown can
    /// be requested: its label, and the shutdown property, not set.
    pub fn shutdown_properties() -> (r: Vec<(String, Json)>)
        ensures
            r@.len() == 2,
            r@[0].0@ == "label"@,
            r@[0].1@ == JsonView::String("/org/inexor/system/shutdown"@),
            r@[1].0@ == "shutdown"@,
            r@[1].1@ == JsonView::Bool(false),
    {
        let mut v: Vec<(String, Json)> = Vec::new();
        v.push(("label".to_owned(), Json::String("/org/inexor/system/shutdown".to_owned())));
        v.push(("shutdown".to_owned(), Json::Bool(false)));
        v
    }
}

} // verus!

use vstd::prelude::*;

use crate::connection::{next, Action, ConnectionManager, ConnectionState, Event, ManagerView};
use crate::error::AncsError;
use crate::event::{decoded, Notification};
use crate::store::{received, NotificationStore};

verus! {

/// What the orchestrator answers to one event.
#[derive(Debug, Clone, PartialEq, Eq)]
pub struct Reaction {
    /// What the transport is to do next.
    pub action: Action,
    /// Why the buffer that came with the event was skipped, if it was.
    pub skipped: Option<AncsError>,
}

/// The orchestrator as contracts see it.
pub struct OrchestratorView {
    /// The connection manager.
    pub connection: ManagerView,
    /// The notifications currently kept, by UID.
    pub notifications: Map<u32, Notification>,
}

impl OrchestratorView {
    /// The orchestrator before anything has happened.
    pub open spec fn initial() -> OrchestratorView {
        OrchestratorView {
            connection: ManagerView::initial(),
            notifications: Map::<u32, Notification>::empty(),
        }
    }

    /// Whether the connection has been active at some time.
    pub open spec fn has_been_active(self) -> bool {
        self.connection.state == ConnectionState::Active || self.connection.state
            == ConnectionState::Terminated
    }

    /// What every reachable orchestrator satisfies: the manager is
    /// well-formed, and nothing is kept before the connection is active.
    pub open spec fn well_formed(self) -> bool {
        &&& self.connection.well_formed()
        &&& !self.has_been_active() ==> self.notifications == Map::<u32, Notification>::empty()
    }
}

/// The buffer that `event` brings to an orchestrator in this state: only an
/// active connection takes buffers in.
pub open spec fn incoming(connection: ManagerView, event: Event) -> Option<Seq<u8>> {
    match event {
        Event::Notification(bytes) => if connection.state == ConnectionState::Active {
            Some(bytes@)
        } else {
            None
        },
        _ => None,
    }
}

/// The orchestrator after `event`, and its answer. The manager moves as
/// `next` says. A buffer that reaches an active connection is decoded and
/// dispatched into the store; one that does not decode is skipped, with the
/// reason in the answer, and the store stays as it was. Nothing else touches
/// the store.
pub open spec fn handled(orchestrator: OrchestratorView, event: Event) -> (
    OrchestratorView,
    Reaction,
) {
    let (connection, action) = next(orchestrator.connection, event);
    match incoming(orchestrator.connection, event) {
        Some(bytes) => (
            OrchestratorView {
                connection,
                notifications: received(orchestrator.notifications, bytes),
            },
            Reaction {
                action,
                skipped: match decoded(bytes) {
                    Ok(_) => None,
                    Err(error) => Some(error),
                },
            },
        ),
        None => (
            OrchestratorView { connection, notifications: orchestrator.notifications },
            Reaction { action, skipped: None },
        ),
    }
}

/// Handling an event keeps a well-formed orchestrator well-formed.
pub proof fn lemma_handled_well_formed(orchestrator: OrchestratorView, event: Event)
    requires
        orchestrator.well_formed(),
    ensures
        handled(orchestrator, event).0.well_formed(),
{
}

/// The orchestrator after a whole sequence of events, taken in order.
pub open spec fn handled_all(orchestrator: OrchestratorView, events: Seq<Event>) -> OrchestratorView
    decreases events.len(),
{
    if events.len() == 0 {
        orchestrator
    } else {
        handled(handled_all(orchestrator, events.drop_last()), events.last()).0
    }
}

/// Whatever the transport reports, an orchestrator that starts fresh stays
/// well-formed: in particular it keeps no notification before its
/// connection has become active.
pub proof fn lemma_reachable_well_formed(events: Seq<Event>)
    ensures
        handled_all(OrchestratorView::initial(), events).well_formed(),
    decreases events.len(),
{
    if events.len() > 0 {
        lemma_reachable_well_formed(events.drop_last());
        lemma_handled_well_formed(
            handled_all(OrchestratorView::initial(), events.drop_last()),
            events.last(),
        );
    }
}

/// A buffer that does not decode is skipped: the store is untouched and the
/// connection goes on waiting for the next one.
pub proof fn lemma_bad_buffer_is_skipped(orchestrator: OrchestratorView, bytes: Vec<u8>)
    requires
        orchestrator.connection.state == ConnectionState::Active,
        decoded(bytes@) is Err,
    ensures
        handled(orchestrator, Event::Notification(bytes)).0 == orchestrator,
        handled(orchestrator, Event::Notification(bytes)).1.action == Action::AwaitNotification,
        handled(orchestrator, Event::Notification(bytes)).1.skipped is Some,
{
}

/// Runs one client: the connection manager, and the store that the active
/// connection feeds.
pub struct Orchestrator {
    manager: ConnectionManager,
    store: NotificationStore,
}

impl View for Orchestrator {
    type V = OrchestratorView;

    closed spec fn view(&self) -> OrchestratorView {
        OrchestratorView { connection: self.manager@, notifications: self.store@ }
    }
}

impl Orchestrator {
    /// An orchestrator that has not been started.
    pub fn new() -> (orchestrator: Orchestrator)
        ensures
            orchestrator@ == OrchestratorView::initial(),
    {
        Orchestrator { manager: ConnectionManager::new(), store: NotificationStore::new() }
    }

    /// The connection manager.
    pub fn manager(&self) -> (manager: &ConnectionManager)
        ensures
            manager@ == self@.connection,
    {
        &self.manager
    }

    /// The notifications currently kept.
    pub fn store(&self) -> (store: &NotificationStore)
        ensures
            store@ == self@.notifications,
    {
        &self.store
    }

    /// Takes one event from the transport: see [`handled`].
    pub fn handle(&mut self, event: Event) -> (reaction: Reaction)
        ensures
            (final(self)@, reaction) == handled(old(self)@, event),
            old(self)@.well_formed() ==> final(self)@.well_formed(),
    {
        proof {
            if self@.well_formed() {
                lemma_handled_well_formed(self@, event);
            }
        }
        let mut skipped: Option<AncsError> = None;
        if self.manager.state() == ConnectionState::Active {
            if let Event::Notification(bytes) = &event {
                if let Err(error) = self.store.receive(bytes.as_slice()) {
                    skipped = Some(error);
                }
            }
        }
        let action = self.manager.step(event);
        Reaction { action, skipped }
    }
}

} // verus!

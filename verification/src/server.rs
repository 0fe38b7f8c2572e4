//! The event handler of the relay.
//!
//! The server receives listener and transport lifecycle events from the
//! reactor runtime, delegates application decisions to the [`Processor`],
//! and accumulates the resulting actions in a FIFO mailbox that the runtime
//! drains. It owns the pre-identity outbox — bytes queued for a connection
//! that has not yet completed its handshake — and the registry that maps a
//! resource identity back to the raw descriptor it was registered under, so
//! that state keyed by the descriptor can be cleared when the connection is
//! gone for good.
//!
//! The surrounding process performs the outside work: it accepts and dials
//! sockets, runs handshakes, and applies actions. Event payloads arrive
//! here as plain values, and deferred work is handed back as a [`Pending`]
//! request whose outcome returns through [`Server::echo_done`] or
//! [`Server::forward_dialed`].

use vstd::prelude::*;

verus! {

use std::collections::HashMap;

use crate::{Descriptor, ResourceId};
use crate::action::{Action, ActionModel};
use crate::command::LocalCommand;
use crate::processor::{
    DialOutcome, Pending, Processor, Reaction, ReactionModel, dial_actions, echo_actions,
    new_client_actions, on_input, pending_after_dial, pending_after_lost,
    pending_after_new_client,
};

broadcast use vstd::std_specs::hash::group_hash_axioms;

/// An event on the listening socket. An accepted connection is handed to
/// the session and transport construction outside; what arrives here is the
/// outcome: the new transport's descriptor, or nothing when construction
/// failed and the connection was dropped.
pub enum ListenerEvent {
    Accepted { transport: Option<Descriptor> },
    /// The listener reported an error; it is reported and kept.
    Failure,
}

/// A lifecycle event of one registered transport.
pub enum TransportEvent {
    /// The handshake completed: keys are derived and the peer's signing
    /// identity, carried here in its raw bytes, is verified.
    Established { fd: Descriptor, key: Vec<u8> },
    /// One framed inbound message.
    Data(Vec<u8>),
    /// The connection is gone, by error or by peer close; the detail
    /// arrives rendered as text and is not acted on.
    Terminated(Vec<u8>),
}

/// An error surfaced by the reactor runtime itself.
pub enum ErrorEvent {
    /// A transport disconnected: expected and recoverable; report only.
    TransportDisconnect(ResourceId),
    /// A listener disconnected: the listener is unregistered.
    ListenerDisconnect(ResourceId),
    /// A failure of the polling layer; report only.
    Poll,
}

// ---------------------------------------------------------------------------
// Transition functions
// ---------------------------------------------------------------------------

/// The actions a listener event turns into: one register request for a
/// successfully wrapped inbound connection, nothing otherwise.
pub open spec fn listener_actions(event: ListenerEvent) -> Seq<ActionModel> {
    match event {
        ListenerEvent::Accepted { transport: Option::Some(fd) } => seq![
            ActionModel::RegisterTransport(fd),
        ],
        _ => Seq::empty(),
    }
}

/// The actions a runtime error turns into: a listener disconnect
/// unregisters the listener; everything else is report-only.
pub open spec fn error_actions(event: ErrorEvent) -> Seq<ActionModel> {
    match event {
        ErrorEvent::ListenerDisconnect(id) => seq![ActionModel::UnregisterListener(id)],
        _ => Seq::empty(),
    }
}

/// The sends that flush a descriptor's pre-identity outbox to its newly
/// assigned identity, in insertion order.
pub open spec fn flushed(
    ob: Map<Descriptor, Seq<Seq<u8>>>,
    fd: Descriptor,
    id: ResourceId,
) -> Seq<ActionModel> {
    if ob.contains_key(fd) {
        ob[fd].map_values(|m: Seq<u8>| ActionModel::Send(id, m))
    } else {
        Seq::empty()
    }
}

/// The outbox after queueing one message for a descriptor.
pub open spec fn outbox_after_queue(
    ob: Map<Descriptor, Seq<Seq<u8>>>,
    fd: Descriptor,
    m: Seq<u8>,
) -> Map<Descriptor, Seq<Seq<u8>>> {
    ob.insert(fd, (if ob.contains_key(fd) { ob[fd] } else { Seq::empty() }).push(m))
}

/// The registry after a terminated event: the identity's binding, if any,
/// is dropped.
pub open spec fn registry_after_terminated(
    reg: Map<ResourceId, Descriptor>,
    id: ResourceId,
) -> Map<ResourceId, Descriptor> {
    if reg.contains_key(id) {
        reg.remove(id)
    } else {
        reg
    }
}

/// The pending-command map after a terminated event: the command queued
/// under the identity's descriptor, if both exist, can never be delivered
/// and is dropped.
pub open spec fn pending_after_terminated(
    q: Map<Descriptor, LocalCommand>,
    reg: Map<ResourceId, Descriptor>,
    id: ResourceId,
) -> Map<Descriptor, LocalCommand> {
    if reg.contains_key(id) {
        pending_after_lost(q, reg[id])
    } else {
        q
    }
}

// ---------------------------------------------------------------------------
// The server
// ---------------------------------------------------------------------------

/// The central event sink: translates lifecycle events into delegate calls
/// and accumulates the resulting actions.
pub struct Server {
    outbox: HashMap<Descriptor, Vec<Vec<u8>>>,
    action_queue: Vec<Action>,
    registry: HashMap<ResourceId, Descriptor>,
    delegate: Processor,
}

impl Server {
    /// The action mailbox, oldest first.
    pub closed spec fn actions(&self) -> Seq<ActionModel> {
        self.action_queue.deep_view()
    }

    /// The pre-identity outbox: descriptor to the messages queued for it,
    /// oldest first.
    pub closed spec fn outbox(&self) -> Map<Descriptor, Seq<Seq<u8>>> {
        Map::new(
            |fd: Descriptor| self.outbox@.contains_key(fd),
            |fd: Descriptor| self.outbox@[fd].deep_view(),
        )
    }

    /// The registry: resource identity to the raw descriptor it was
    /// registered under.
    pub closed spec fn registry(&self) -> Map<ResourceId, Descriptor> {
        self.registry@
    }

    /// The delegate's pending-command map.
    pub closed spec fn pending(&self) -> Map<Descriptor, LocalCommand> {
        self.delegate.pending()
    }

    /// A server around the given delegate. The single listening socket is
    /// bound outside before the server exists; the first action asks the
    /// runtime to register it.
    pub fn with(delegate: Processor) -> (r: Server)
        ensures
            r.actions() == seq![ActionModel::RegisterListener],
            r.outbox() == Map::<Descriptor, Seq<Seq<u8>>>::empty(),
            r.registry() == Map::<ResourceId, Descriptor>::empty(),
            r.pending() == delegate.pending(),
    {
        let mut action_queue: Vec<Action> = Vec::new();
        action_queue.push(Action::RegisterListener);
        let r = Server {
            outbox: HashMap::new(),
            action_queue,
            registry: HashMap::new(),
            delegate,
        };
        proof {
            assert(r.actions() =~= seq![ActionModel::RegisterListener]);
            assert(r.outbox() =~= Map::<Descriptor, Seq<Seq<u8>>>::empty());
        }
        r
    }

    /// Queue bytes for a connection that has not yet completed its
    /// handshake; they are flushed, in order, right after its established
    /// event.
    pub fn queue_message(&mut self, fd: Descriptor, msg: Vec<u8>)
        ensures
            final(self).outbox() == outbox_after_queue(old(self).outbox(), fd, msg@),
            final(self).actions() == old(self).actions(),
            final(self).registry() == old(self).registry(),
            final(self).pending() == old(self).pending(),
    {
        let ghost m0 = msg@;
        let mut entry: Vec<Vec<u8>> = match self.outbox.remove(&fd) {
            Some(v) => v,
            None => Vec::new(),
        };
        let ghost e0 = entry.deep_view();
        entry.push(msg);
        proof {
            assert(entry.deep_view() =~~= e0.push(m0));
        }
        self.outbox.insert(fd, entry);
        proof {
            assert(self.outbox() =~~= outbox_after_queue(old(self).outbox(), fd, m0));
        }
    }

    /// An event on the listening socket: a successfully wrapped inbound
    /// connection is registered; a failed one was dropped outside and
    /// leaves no trace; a listener failure is report-only.
    pub fn handle_listener_event(&mut self, _id: ResourceId, event: ListenerEvent)
        ensures
            final(self).actions() == old(self).actions() + listener_actions(event),
            final(self).outbox() == old(self).outbox(),
            final(self).registry() == old(self).registry(),
            final(self).pending() == old(self).pending(),
    {
        match event {
            ListenerEvent::Accepted { transport: Some(fd) } => {
                self.action_queue.push(Action::RegisterTransport(fd));
                proof {
                    assert(self.actions() =~~= old(self).actions() + listener_actions(event));
                }
            },
            _ => {
                proof {
                    assert(self.actions() =~~= old(self).actions() + listener_actions(event));
                }
            },
        }
    }

    /// A lifecycle event of a registered transport.
    ///
    /// An established event first lets the delegate deliver the command
    /// queued for the descriptor, then flushes the pre-identity outbox, in
    /// that order. A data event is interpreted by the delegate; a message
    /// that asks for outside work is handed back as a pending request. A
    /// terminated event unregisters the resource and clears the state keyed
    /// by its descriptor; for an identity already gone it is a no-op beyond
    /// the repeated unregister request — the runtime is the authority on
    /// whether the resource still exists.
    pub fn handle_transport_event(&mut self, id: ResourceId, event: TransportEvent) -> (r:
        Option<Pending>)
        ensures
            match event {
                TransportEvent::Established { fd, key: _ } => {
                    &&& final(self).actions() == old(self).actions() + new_client_actions(
                        old(self).pending(),
                        fd,
                        id,
                    ) + flushed(old(self).outbox(), fd, id)
                    &&& final(self).outbox() == old(self).outbox().remove(fd)
                    &&& final(self).pending() == pending_after_new_client(
                        old(self).pending(),
                        fd,
                    )
                    &&& final(self).registry() == old(self).registry()
                    &&& r is None
                },
                TransportEvent::Data(data) => {
                    &&& final(self).outbox() == old(self).outbox()
                    &&& final(self).registry() == old(self).registry()
                    &&& final(self).pending() == old(self).pending()
                    &&& match on_input(id, data@) {
                        ReactionModel::Done(acts) => {
                            &&& final(self).actions() == old(self).actions() + acts
                            &&& r is None
                        },
                        ReactionModel::Defer(p) => {
                            &&& final(self).actions() == old(self).actions()
                            &&& r matches Some(pr) && pr@ == p
                        },
                    }
                },
                TransportEvent::Terminated(_) => {
                    &&& final(self).actions() == old(self).actions() + seq![
                        ActionModel::UnregisterTransport(id),
                    ]
                    &&& final(self).outbox() == old(self).outbox()
                    &&& final(self).registry() == registry_after_terminated(
                        old(self).registry(),
                        id,
                    )
                    &&& final(self).pending() == pending_after_terminated(
                        old(self).pending(),
                        old(self).registry(),
                        id,
                    )
                    &&& r is None
                },
            },
    {
        match event {
            TransportEvent::Established { fd, key: _ } => {
                let mut acts = self.delegate.new_client(fd, id);
                self.action_queue.append(&mut acts);
                proof {
                    assert(self.actions() =~~= old(self).actions() + new_client_actions(
                        old(self).pending(),
                        fd,
                        id,
                    ));
                }
                let ghost mid = self.actions();
                let msgs: Vec<Vec<u8>> = match self.outbox.remove(&fd) {
                    Some(v) => v,
                    None => Vec::new(),
                };
                proof {
                    if !old(self).outbox().contains_key(fd) {
                        assert(old(self).outbox().remove(fd) =~~= old(self).outbox());
                    }
                    assert(self.outbox() =~~= old(self).outbox().remove(fd));
                    assert(msgs.deep_view() =~~= (if old(self).outbox().contains_key(fd) {
                        old(self).outbox()[fd]
                    } else {
                        Seq::<Seq<u8>>::empty()
                    }));
                    assert(mid + flushed(old(self).outbox(), fd, id).take(0) =~~= mid);
                }
                let mut i: usize = 0;
                while i < msgs.len()
                    invariant
                        i <= msgs.len(),
                        self.actions() == mid + flushed(old(self).outbox(), fd, id).take(
                            i as int,
                        ),
                        mid == old(self).actions() + new_client_actions(
                            old(self).pending(),
                            fd,
                            id,
                        ),
                        self.outbox() == old(self).outbox().remove(fd),
                        self.registry() == old(self).registry(),
                        self.pending() == pending_after_new_client(old(self).pending(), fd),
                        msgs.deep_view() == (if old(self).outbox().contains_key(fd) {
                            old(self).outbox()[fd]
                        } else {
                            Seq::<Seq<u8>>::empty()
                        }),
                    decreases msgs.len() - i,
                {
                    let msg = copy_payload(&msgs, i);
                    let ghost prev = self.actions();
                    self.action_queue.push(Action::Send(id, msg));
                    proof {
                        let f = flushed(old(self).outbox(), fd, id);
                        assert(msgs.deep_view().len() == msgs@.len());
                        assert(old(self).outbox().contains_key(fd));
                        assert(f[i as int] == ActionModel::Send(id, msgs.deep_view()[i as int]));
                        assert(self.actions() =~~= prev.push(ActionModel::Send(id, msg@)));
                        assert(prev.push(f[i as int]) =~~= mid + f.take(i + 1));
                        assert(self.actions() =~~= mid + f.take(i + 1));
                    }
                    i += 1;
                }
                proof {
                    let f = flushed(old(self).outbox(), fd, id);
                    assert(f.take(f.len() as int) =~~= f);
                    assert(self.actions() =~~= old(self).actions() + new_client_actions(
                        old(self).pending(),
                        fd,
                        id,
                    ) + f);
                }
                None
            },
            TransportEvent::Data(data) => {
                let reaction = self.delegate.input(id, data);
                match reaction {
                    Reaction::Done(mut acts) => {
                        let ghost a0 = acts.deep_view();
                        self.action_queue.append(&mut acts);
                        proof {
                            assert(self.actions() =~~= old(self).actions() + a0);
                        }
                        None
                    },
                    Reaction::Defer(p) => Some(p),
                }
            },
            TransportEvent::Terminated(_) => {
                self.action_queue.push(Action::UnregisterTransport(id));
                proof {
                    assert(self.actions() =~~= old(self).actions() + seq![
                        ActionModel::UnregisterTransport(id),
                    ]);
                }
                match self.registry.remove(&id) {
                    Some(fd) => {
                        self.delegate.client_lost(fd);
                    },
                    None => {
                        proof {
                            assert(old(self).registry().remove(id) =~~= old(self).registry());
                        }
                    },
                }
                None
            },
        }
    }

    /// The runtime acknowledged a registration: remember which descriptor
    /// the identity stands for, so descriptor-keyed state can be cleared
    /// when the connection terminates.
    pub fn handle_registered(&mut self, fd: Descriptor, id: ResourceId)
        ensures
            final(self).registry() == old(self).registry().insert(id, fd),
            final(self).actions() == old(self).actions(),
            final(self).outbox() == old(self).outbox(),
            final(self).pending() == old(self).pending(),
    {
        self.registry.insert(id, fd);
    }

    /// An error surfaced by the runtime itself.
    pub fn handle_error(&mut self, event: ErrorEvent)
        ensures
            final(self).actions() == old(self).actions() + error_actions(event),
            final(self).outbox() == old(self).outbox(),
            final(self).registry() == old(self).registry(),
            final(self).pending() == old(self).pending(),
    {
        match event {
            ErrorEvent::ListenerDisconnect(id) => {
                self.action_queue.push(Action::UnregisterListener(id));
                proof {
                    assert(self.actions() =~~= old(self).actions() + error_actions(event));
                }
            },
            _ => {
                proof {
                    assert(self.actions() =~~= old(self).actions() + error_actions(event));
                }
            },
        }
    }

    /// The outcome of the local echo run a message asked for.
    pub fn echo_done(&mut self, id: ResourceId, outcome: Result<Vec<u8>, Vec<u8>>)
        ensures
            final(self).actions() == old(self).actions() + echo_actions(id, outcome),
            final(self).outbox() == old(self).outbox(),
            final(self).registry() == old(self).registry(),
            final(self).pending() == old(self).pending(),
    {
        let ghost a0 = echo_actions(id, outcome);
        let mut acts = crate::processor::echo_done(id, outcome);
        self.action_queue.append(&mut acts);
        proof {
            assert(self.actions() =~~= old(self).actions() + a0);
        }
    }

    /// The outcome of the dial a forward asked for.
    pub fn forward_dialed(
        &mut self,
        id: ResourceId,
        command: LocalCommand,
        outcome: DialOutcome,
    )
        ensures
            final(self).actions() == old(self).actions() + dial_actions(id, outcome),
            final(self).pending() == pending_after_dial(old(self).pending(), command, outcome),
            final(self).outbox() == old(self).outbox(),
            final(self).registry() == old(self).registry(),
    {
        let ghost a0 = dial_actions(id, outcome);
        let mut acts = self.delegate.forward_dialed(id, command, outcome);
        self.action_queue.append(&mut acts);
        proof {
            assert(self.actions() =~~= old(self).actions() + a0);
        }
    }

    /// The oldest queued action, removed from the mailbox; the runtime
    /// drains the mailbox by calling this until it is empty.
    pub fn next(&mut self) -> (r: Option<Action>)
        ensures
            final(self).outbox() == old(self).outbox(),
            final(self).registry() == old(self).registry(),
            final(self).pending() == old(self).pending(),
            match r {
                Option::Some(a) => old(self).actions().len() > 0 && a@ == old(self).actions()[0]
                    && final(self).actions() == old(self).actions().skip(1),
                Option::None => old(self).actions().len() == 0 && final(self).actions() == old(
                    self,
                ).actions(),
            },
    {
        if self.action_queue.len() == 0 {
            None
        } else {
            let a = self.action_queue.remove(0);
            proof {
                assert(self.actions() =~~= old(self).actions().skip(1));
            }
            Some(a)
        }
    }
}

/// A copy of one queued payload.
fn copy_payload(msgs: &Vec<Vec<u8>>, i: usize) -> (r: Vec<u8>)
    requires
        i < msgs.len(),
    ensures
        r@ == msgs.deep_view()[i as int],
{
    let ghost target = msgs.deep_view()[i as int];
    let src = &msgs[i];
    let mut out: Vec<u8> = Vec::new();
    let mut j: usize = 0;
    while j < src.len()
        invariant
            j <= src.len(),
            src@ == target,
            out@ == target.subrange(0, j as int),
        decreases src.len() - j,
    {
        out.push(src[j]);
        proof {
            assert(out@ =~= target.subrange(0, j + 1));
        }
        j += 1;
    }
    proof {
        assert(target.subrange(0, target.len() as int) =~= target);
    }
    out
}

// ---------------------------------------------------------------------------
// Laws
// ---------------------------------------------------------------------------

/// On an established event the delegate's own send comes first, then the
/// pre-identity outbox's messages, each as a send to the new identity, in
/// their insertion order.
pub proof fn lemma_established_ordering(
    q: Map<Descriptor, LocalCommand>,
    ob: Map<Descriptor, Seq<Seq<u8>>>,
    fd: Descriptor,
    id: ResourceId,
)
    ensures
        ({
            let a = new_client_actions(q, fd, id);
            let f = flushed(ob, fd, id);
            let all = a + f;
            &&& all.len() == a.len() + f.len()
            &&& forall|i: int| 0 <= i < a.len() ==> all[i] == a[i]
            &&& forall|i: int|
                0 <= i < f.len() ==> all[a.len() + i] == ActionModel::Send(id, ob[fd][i])
        }),
{
}

/// A second terminated event for the same resource identity changes
/// nothing: the registry binding and any queued command are already gone.
pub proof fn lemma_terminated_idempotent(
    q: Map<Descriptor, LocalCommand>,
    reg: Map<ResourceId, Descriptor>,
    id: ResourceId,
)
    ensures
        ({
            let reg1 = registry_after_terminated(reg, id);
            let q1 = pending_after_terminated(q, reg, id);
            &&& registry_after_terminated(reg1, id) == reg1
            &&& pending_after_terminated(q1, reg1, id) == q1
        }),
{
}

} // verus!

//! The command processor: the application half of the relay.
//!
//! The processor interprets inbound command bytes and owns the
//! pending-command map, which correlates an outbound connection known only
//! by its raw descriptor with the command that must be delivered to it once
//! its handshake completes. The processor performs no I/O itself: a message
//! that calls for outside work (running the local echo command, dialing the
//! next hop) is answered with a deferred request, and the outcome of that
//! work is handed back in as a plain value.

use vstd::prelude::*;

verus! {

use std::collections::HashMap;

use crate::{Descriptor, ResourceId};
use crate::action::{Action, ActionModel};
use crate::command::{
    Command, Hop, HopModel, LocalCommand, failure_prefix, failure_prefix_token, invalid_bytes,
    invalid_token, local_bytes, non_text_bytes, non_text_token, parse_command, parse_spec,
    serialize_local, CommandModel,
};

use crate::text::{is_text, is_valid_text};

broadcast use vstd::std_specs::hash::group_hash_axioms;

/// Outside work that a message asks for. The surrounding process performs
/// it and hands the outcome back through [`echo_done`] or
/// [`Processor::forward_dialed`].
pub enum Pending {
    /// Run the local echo command with no arguments and capture its output.
    RunEcho { id: ResourceId },
    /// Dial `hop` as an outbound secure session, pinned to `hop`'s signing
    /// identity, and wrap it as a transport.
    Dial { id: ResourceId, hop: Hop, command: LocalCommand },
}

/// The mathematical value of a [`Pending`] request.
#[verifier::ext_equal]
pub enum PendingModel {
    RunEcho { id: ResourceId },
    Dial { id: ResourceId, hop: HopModel, command: LocalCommand },
}

impl View for Pending {
    type V = PendingModel;

    open spec fn view(&self) -> PendingModel {
        match self {
            Pending::RunEcho { id } => PendingModel::RunEcho { id: *id },
            Pending::Dial { id, hop, command } => PendingModel::Dial {
                id: *id,
                hop: hop@,
                command: *command,
            },
        }
    }
}

/// The processor's answer to one inbound message: either a finished list of
/// actions, or a request for outside work.
pub enum Reaction {
    Done(Vec<Action>),
    Defer(Pending),
}

/// The mathematical value of a [`Reaction`].
#[verifier::ext_equal]
pub enum ReactionModel {
    Done(Seq<ActionModel>),
    Defer(PendingModel),
}

impl View for Reaction {
    type V = ReactionModel;

    open spec fn view(&self) -> ReactionModel {
        match self {
            Reaction::Done(v) => ReactionModel::Done(v.deep_view()),
            Reaction::Defer(p) => ReactionModel::Defer(p@),
        }
    }
}

/// The outcome of the outside work behind a forward: the dial itself and
/// the wrapping of the dialed session as a transport. Error details arrive
/// rendered as text.
pub enum DialOutcome {
    /// The outbound connect or its session setup failed.
    DialFailed(Vec<u8>),
    /// The session was dialed but could not be wrapped as a transport.
    WrapFailed(Vec<u8>),
    /// The transport exists; it is known by this raw descriptor.
    Connected(Descriptor),
}

// ---------------------------------------------------------------------------
// Transition functions
// ---------------------------------------------------------------------------

/// A failure report: the fixed prefix followed by the rendered error.
pub open spec fn failure_msg(e: Seq<u8>) -> Seq<u8> {
    failure_prefix() + e
}

/// What one inbound message decides: reject bytes that are not text, then
/// reject text that does not match the grammar — each with its fixed error
/// token followed by an unregister — and defer a recognized command to the
/// outside work it asks for.
pub open spec fn on_input(id: ResourceId, data: Seq<u8>) -> ReactionModel {
    if !is_text(data) {
        ReactionModel::Done(
            seq![
                ActionModel::Send(id, non_text_bytes()),
                ActionModel::UnregisterTransport(id),
            ],
        )
    } else {
        match parse_spec(data) {
            Option::None => ReactionModel::Done(
                seq![
                    ActionModel::Send(id, invalid_bytes()),
                    ActionModel::UnregisterTransport(id),
                ],
            ),
            Option::Some(CommandModel::Echo) => ReactionModel::Defer(
                PendingModel::RunEcho { id },
            ),
            Option::Some(CommandModel::Forward { hop, command }) => ReactionModel::Defer(
                PendingModel::Dial { id, hop, command },
            ),
        }
    }
}

/// The actions an echo outcome turns into: the captured output as a single
/// send on success; the rendered error and an unregister on failure.
pub open spec fn echo_actions(id: ResourceId, outcome: Result<Vec<u8>, Vec<u8>>) -> Seq<
    ActionModel,
> {
    match outcome {
        Result::Ok(out) => seq![ActionModel::Send(id, out@)],
        Result::Err(e) => seq![
            ActionModel::Send(id, e@),
            ActionModel::UnregisterTransport(id),
        ],
    }
}

/// The actions a dial outcome turns into: one register request on success;
/// a failure report to the original caller on a failed dial, the caller's
/// connection left alone; the report plus an unregister of the caller when
/// the dialed session could not be wrapped.
pub open spec fn dial_actions(id: ResourceId, outcome: DialOutcome) -> Seq<ActionModel> {
    match outcome {
        DialOutcome::DialFailed(e) => seq![ActionModel::Send(id, failure_msg(e@))],
        DialOutcome::WrapFailed(e) => seq![
            ActionModel::Send(id, failure_msg(e@)),
            ActionModel::UnregisterTransport(id),
        ],
        DialOutcome::Connected(fd) => seq![ActionModel::RegisterTransport(fd)],
    }
}

/// The pending-command map after a dial outcome: exactly one entry, keyed
/// by the new transport's descriptor, is added on success; a failure adds
/// nothing.
pub open spec fn pending_after_dial(
    q: Map<Descriptor, LocalCommand>,
    command: LocalCommand,
    outcome: DialOutcome,
) -> Map<Descriptor, LocalCommand> {
    match outcome {
        DialOutcome::Connected(fd) => q.insert(fd, command),
        _ => q,
    }
}

/// The actions emitted when a connection reports established: the queued
/// command for its descriptor, serialized, as a single send to its newly
/// assigned identity — or nothing when no command waits.
pub open spec fn new_client_actions(
    q: Map<Descriptor, LocalCommand>,
    fd: Descriptor,
    id: ResourceId,
) -> Seq<ActionModel> {
    if q.contains_key(fd) {
        seq![ActionModel::Send(id, local_bytes(q[fd]))]
    } else {
        Seq::empty()
    }
}

/// The pending-command map after an established event: the entry for the
/// descriptor, if any, is consumed.
pub open spec fn pending_after_new_client(
    q: Map<Descriptor, LocalCommand>,
    fd: Descriptor,
) -> Map<Descriptor, LocalCommand> {
    if q.contains_key(fd) {
        q.remove(fd)
    } else {
        q
    }
}

/// The pending-command map after a descriptor's connection is gone for
/// good: a command still queued for it can never be delivered and is
/// dropped.
pub open spec fn pending_after_lost(
    q: Map<Descriptor, LocalCommand>,
    fd: Descriptor,
) -> Map<Descriptor, LocalCommand> {
    pending_after_new_client(q, fd)
}

// ---------------------------------------------------------------------------
// The processor
// ---------------------------------------------------------------------------

/// Application logic for the relay: interprets commands and owns the
/// pending-command map.
pub struct Processor {
    queue: HashMap<Descriptor, LocalCommand>,
}

impl Processor {
    /// The pending-command map: descriptor of a dialed, not yet established
    /// connection, to the command queued for it.
    pub closed spec fn pending(&self) -> Map<Descriptor, LocalCommand> {
        self.queue@
    }

    /// A processor with nothing queued.
    pub fn with() -> (r: Self)
        ensures
            r.pending() == Map::<Descriptor, LocalCommand>::empty(),
    {
        Processor { queue: HashMap::new() }
    }

    /// A connection completed its handshake and was assigned a resource
    /// identity: deliver the command queued for its descriptor, if one is,
    /// and consume the entry. This is the only consumer of the
    /// pending-command map's entries.
    pub fn new_client(&mut self, fd: Descriptor, id: ResourceId) -> (r: Vec<Action>)
        ensures
            final(self).pending() == pending_after_new_client(old(self).pending(), fd),
            r.deep_view() == new_client_actions(old(self).pending(), fd, id),
    {
        match self.queue.remove(&fd) {
            Some(command) => {
                let mut v: Vec<Action> = Vec::new();
                v.push(Action::Send(id, serialize_local(&command)));
                proof {
                    assert(v.deep_view() =~= new_client_actions(old(self).pending(), fd, id));
                }
                v
            },
            None => {
                let v: Vec<Action> = Vec::new();
                proof {
                    assert(old(self).pending().remove(fd) =~= old(self).pending());
                    assert(v.deep_view() =~= Seq::<ActionModel>::empty());
                }
                v
            },
        }
    }

    /// One inbound message from an established connection. The
    /// pending-command map is untouched; the answer is [`on_input`] of the
    /// bytes.
    pub fn input(&mut self, id: ResourceId, data: Vec<u8>) -> (r: Reaction)
        ensures
            final(self).pending() == old(self).pending(),
            r@ == on_input(id, data@),
    {
        if !is_valid_text(&data) {
            let mut v: Vec<Action> = Vec::new();
            v.push(Action::Send(id, non_text_token()));
            v.push(Action::UnregisterTransport(id));
            proof {
                assert(v.deep_view() =~= seq![
                    ActionModel::Send(id, non_text_bytes()),
                    ActionModel::UnregisterTransport(id),
                ]);
            }
            Reaction::Done(v)
        } else {
            match parse_command(&data) {
                None => {
                    let mut v: Vec<Action> = Vec::new();
                    v.push(Action::Send(id, invalid_token()));
                    v.push(Action::UnregisterTransport(id));
                    proof {
                        assert(v.deep_view() =~= seq![
                            ActionModel::Send(id, invalid_bytes()),
                            ActionModel::UnregisterTransport(id),
                        ]);
                    }
                    Reaction::Done(v)
                },
                Some(Command::Echo) => Reaction::Defer(Pending::RunEcho { id }),
                Some(Command::Forward { hop, command }) => Reaction::Defer(
                    Pending::Dial { id, hop, command },
                ),
            }
        }
    }

    /// The outcome of the dial a forward asked for. On success the command
    /// is queued under the new transport's descriptor and the transport is
    /// registered; on failure the original caller is told, and only a
    /// wrapping failure costs it its connection.
    pub fn forward_dialed(
        &mut self,
        id: ResourceId,
        command: LocalCommand,
        outcome: DialOutcome,
    ) -> (r: Vec<Action>)
        ensures
            final(self).pending() == pending_after_dial(old(self).pending(), command, outcome),
            r.deep_view() == dial_actions(id, outcome),
    {
        match &outcome {
            DialOutcome::DialFailed(e) => {
                let mut msg = failure_prefix_token();
                let mut tail = copy_bytes(e);
                msg.append(&mut tail);
                let mut v: Vec<Action> = Vec::new();
                v.push(Action::Send(id, msg));
                proof {
                    assert(v.deep_view() =~= dial_actions(id, outcome));
                }
                v
            },
            DialOutcome::WrapFailed(e) => {
                let mut msg = failure_prefix_token();
                let mut tail = copy_bytes(e);
                msg.append(&mut tail);
                let mut v: Vec<Action> = Vec::new();
                v.push(Action::Send(id, msg));
                v.push(Action::UnregisterTransport(id));
                proof {
                    assert(v.deep_view() =~= dial_actions(id, outcome));
                }
                v
            },
            DialOutcome::Connected(fd) => {
                self.queue.insert(*fd, command);
                let mut v: Vec<Action> = Vec::new();
                v.push(Action::RegisterTransport(*fd));
                proof {
                    assert(v.deep_view() =~= dial_actions(id, outcome));
                }
                v
            },
        }
    }

    /// A connection terminated before it ever established: its queued
    /// command, if any, can no longer be delivered and is dropped, so the
    /// map does not leak entries for dead descriptors.
    pub fn client_lost(&mut self, fd: Descriptor) -> (r: ())
        ensures
            final(self).pending() == pending_after_lost(old(self).pending(), fd),
    {
        let _ = self.queue.remove(&fd);
        proof {
            if !old(self).pending().contains_key(fd) {
                assert(old(self).pending().remove(fd) =~= old(self).pending());
            }
        }
    }
}

/// The actions an echo outcome turns into; see [`echo_actions`].
pub fn echo_done(id: ResourceId, outcome: Result<Vec<u8>, Vec<u8>>) -> (r: Vec<Action>)
    ensures
        r.deep_view() == echo_actions(id, outcome),
{
    match outcome {
        Ok(out) => {
            let ghost out0 = out@;
            let mut v: Vec<Action> = Vec::new();
            v.push(Action::Send(id, out));
            proof {
                assert(v.deep_view() =~= seq![ActionModel::Send(id, out0)]);
            }
            v
        },
        Err(e) => {
            let ghost e0 = e@;
            let mut v: Vec<Action> = Vec::new();
            v.push(Action::Send(id, e));
            v.push(Action::UnregisterTransport(id));
            proof {
                assert(v.deep_view() =~= seq![
                    ActionModel::Send(id, e0),
                    ActionModel::UnregisterTransport(id),
                ]);
            }
            v
        },
    }
}

/// A copy of the given bytes.
fn copy_bytes(data: &Vec<u8>) -> (r: Vec<u8>)
    ensures
        r@ == data@,
{
    let mut out: Vec<u8> = Vec::new();
    let mut i: usize = 0;
    while i < data.len()
        invariant
            i <= data.len(),
            out@ == data@.subrange(0, i as int),
        decreases data.len() - i,
    {
        out.push(data[i]);
        proof {
            assert(out@ =~= data@.subrange(0, i + 1));
        }
        i += 1;
    }
    proof {
        assert(data@.subrange(0, data@.len() as int) =~= data@);
    }
    out
}

// ---------------------------------------------------------------------------
// Laws
// ---------------------------------------------------------------------------

/// A queued command is delivered at most once: once an established event
/// has consumed the entry for a descriptor, a second established event for
/// the same descriptor finds nothing, emits nothing, and leaves the map as
/// it is.
pub proof fn lemma_new_client_consumes(
    q: Map<Descriptor, LocalCommand>,
    fd: Descriptor,
    id: ResourceId,
    id2: ResourceId,
)
    ensures
        new_client_actions(pending_after_new_client(q, fd), fd, id2)
            == Seq::<ActionModel>::empty(),
        pending_after_new_client(pending_after_new_client(q, fd), fd)
            == pending_after_new_client(q, fd),
{
    if q.contains_key(fd) {
        assert(!q.remove(fd).contains_key(fd));
    }
}

/// Every failure report begins with the fixed failure prefix.
pub proof fn lemma_failure_msg_prefix(e: Seq<u8>)
    ensures
        failure_msg(e).len() >= failure_prefix().len(),
        failure_msg(e).subrange(0, failure_prefix().len() as int) == failure_prefix(),
{
    assert(failure_msg(e).subrange(0, failure_prefix().len() as int) =~= failure_prefix());
}

/// A failed dial leaves the pending-command map exactly as it was: no entry
/// is leaked for the failed attempt, and the one action is a failure report
/// to the caller that asked for the forward.
pub proof fn lemma_dial_failure_leaks_nothing(
    q: Map<Descriptor, LocalCommand>,
    id: ResourceId,
    command: LocalCommand,
    e: Vec<u8>,
)
    ensures
        pending_after_dial(q, command, DialOutcome::DialFailed(e)) == q,
        dial_actions(id, DialOutcome::DialFailed(e)) == seq![
            ActionModel::Send(id, failure_msg(e@)),
        ],
{
}

} // verus!

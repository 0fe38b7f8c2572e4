//! Actions: the one-way instructions that the relay's logic hands to the
//! reactor runtime. Application logic never touches a socket directly; it
//! only emits actions, and the runtime applies them in FIFO order.

use vstd::prelude::*;

verus! {

use crate::{Descriptor, ResourceId};

/// A request to the reactor runtime.
///
/// A newly created transport is not yet known to the runtime, so a
/// register request names it by its raw descriptor; the surrounding
/// process keeps the descriptor-to-transport association and attaches
/// the real connection object when it applies the action. All other
/// requests name an already-registered resource by its stable identity.
pub enum Action {
    /// Register the single listening socket with the runtime.
    RegisterListener,
    /// Register the transport known by this raw descriptor.
    RegisterTransport(Descriptor),
    /// Remove a registered listener.
    UnregisterListener(ResourceId),
    /// Remove a registered transport.
    UnregisterTransport(ResourceId),
    /// Write these bytes to an established resource.
    Send(ResourceId, Vec<u8>),
}

/// The mathematical value of an [`Action`]: payload bytes as a sequence.
#[verifier::ext_equal]
pub enum ActionModel {
    RegisterListener,
    RegisterTransport(Descriptor),
    UnregisterListener(ResourceId),
    UnregisterTransport(ResourceId),
    Send(ResourceId, Seq<u8>),
}

impl View for Action {
    type V = ActionModel;

    open spec fn view(&self) -> ActionModel {
        match self {
            Action::RegisterListener => ActionModel::RegisterListener,
            Action::RegisterTransport(fd) => ActionModel::RegisterTransport(*fd),
            Action::UnregisterListener(id) => ActionModel::UnregisterListener(*id),
            Action::UnregisterTransport(id) => ActionModel::UnregisterTransport(*id),
            Action::Send(id, data) => ActionModel::Send(*id, data@),
        }
    }
}

impl DeepView for Action {
    type V = ActionModel;

    open spec fn deep_view(&self) -> ActionModel {
        self.view()
    }
}

} // verus!

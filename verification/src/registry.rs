//! The client registry: a cache with a single slot for the live client of the
//! external service.
//!
//! The service allows one live client in a process. The registry owns it,
//! together with the handle through which it is serviced, under the context
//! it was made for. Every change goes through `&mut self`, so whoever shares a
//! registry between tasks puts it behind one lock, and a switch of context is
//! then a single step for everyone else.

use crate::error::ErrorKind;
use crate::text::{append_decimal, decimal};
use vstd::prelude::*;

verus! {

/// A live client: the context it was made for, the handle on which requests
/// are made and the handle on which the servicing routine runs.
pub struct ClientEntry<C, P> {
    pub context_id: u32,
    pub client: C,
    pub pump: P,
}

/// A change to the registry.
pub enum RegistryOp<C, P> {
    /// Install a client for a context.
    Install(u32, C, P),
    /// Release whatever is cached.
    Release,
}

/// The slot after one change: a new client takes the place of whatever was
/// cached, of which nothing remains.
pub open spec fn apply<C, P>(slot: Option<ClientEntry<C, P>>, op: RegistryOp<C, P>) -> Option<
    ClientEntry<C, P>,
> {
    match op {
        RegistryOp::Install(context_id, client, pump) => Some(ClientEntry { context_id, client, pump }),
        RegistryOp::Release => None,
    }
}

/// The slot after a sequence of changes, first to last.
pub open spec fn replay<C, P>(
    slot: Option<ClientEntry<C, P>>,
    ops: Seq<RegistryOp<C, P>>,
) -> Option<ClientEntry<C, P>>
    decreases ops.len(),
{
    if ops.len() == 0 {
        slot
    } else {
        apply(replay(slot, ops.drop_last()), ops.last())
    }
}

/// The contexts whose client is live in a slot.
pub open spec fn live_contexts<C, P>(slot: Option<ClientEntry<C, P>>) -> Seq<u32> {
    match slot {
        Some(entry) => seq![entry.context_id],
        None => Seq::empty(),
    }
}

/// Why the registry could not serve a request, over plain text.
pub enum RegistryFault {
    NoClient(u32),
    InitFailed(Seq<char>),
    ClientMissing,
}

/// Why the registry could not serve a request.
#[derive(Debug)]
pub enum RegistryError {
    /// No client is cached for the context that was to be serviced.
    NoClient { context_id: u32 },
    /// No client could be constructed, with the service's explanation.
    InitFailed { detail: String },
    /// The client that was just installed is not there.
    ClientMissing,
}

impl View for RegistryError {
    type V = RegistryFault;

    open spec fn view(&self) -> RegistryFault {
        match self {
            RegistryError::NoClient { context_id } => RegistryFault::NoClient(*context_id),
            RegistryError::InitFailed { detail } => RegistryFault::InitFailed(detail@),
            RegistryError::ClientMissing => RegistryFault::ClientMissing,
        }
    }
}

/// The message that goes with a failure of the registry.
pub open spec fn registry_fault_message(fault: RegistryFault) -> Seq<char> {
    match fault {
        RegistryFault::NoClient(context_id) => "No Steam client for app "@ + decimal(
            context_id as nat,
        ),
        RegistryFault::InitFailed(detail) => "Failed to initialize Steam client: "@ + detail,
        RegistryFault::ClientMissing => "Failed to get Steam client"@,
    }
}

impl RegistryError {
    /// The message shown to the user.
    pub fn message(&self) -> (text: String)
        ensures
            text@ == registry_fault_message(self@),
    {
        match self {
            RegistryError::NoClient { context_id } => {
                let mut text = "No Steam client for app ".to_owned();
                append_decimal(&mut text, *context_id);
                text
            },
            RegistryError::InitFailed { detail } => {
                let mut text = "Failed to initialize Steam client: ".to_owned();
                text.append(detail.as_str());
                text
            },
            RegistryError::ClientMissing => "Failed to get Steam client".to_owned(),
        }
    }

    /// The kind of this error: the service is unavailable.
    pub fn kind(&self) -> (kind: ErrorKind)
        ensures
            kind == ErrorKind::ExternalServiceUnavailable,
    {
        ErrorKind::ExternalServiceUnavailable
    }
}

/// The registry. It holds at most one client.
pub struct ClientRegistry<C, P> {
    slot: Option<ClientEntry<C, P>>,
}

impl<C, P> ClientRegistry<C, P> {
    /// What is cached.
    pub closed spec fn entry(&self) -> Option<ClientEntry<C, P>> {
        self.slot
    }

    /// A client is cached for `context_id`.
    pub open spec fn caches(&self, context_id: u32) -> bool {
        self.entry() matches Some(entry) && entry.context_id == context_id
    }

    /// A registry with nothing cached.
    pub fn new() -> (registry: Self)
        ensures
            registry.entry() is None,
    {
        ClientRegistry { slot: None }
    }

    /// Tells whether the cached client was made for `context_id`.
    pub fn has_client(&self, context_id: u32) -> (r: bool)
        ensures
            r == self.caches(context_id),
    {
        match &self.slot {
            Some(entry) => entry.context_id == context_id,
            None => false,
        }
    }

    /// The cached client, if it was made for `context_id`. Nothing is
    /// constructed.
    pub fn get_client(&self, context_id: u32) -> (r: Option<&C>)
        ensures
            self.caches(context_id) ==> r == Some(&self.entry()->0.client),
            !self.caches(context_id) ==> r is None,
    {
        match &self.slot {
            Some(entry) => {
                if entry.context_id == context_id {
                    Some(&entry.client)
                } else {
                    None
                }
            },
            None => None,
        }
    }

    /// Installs a client for `context_id`. Whatever was cached is released
    /// first.
    pub fn set_client(&mut self, context_id: u32, client: C, pump: P)
        ensures
            final(self).entry() == apply(old(self).entry(), RegistryOp::Install(context_id, client, pump)),
            final(self).entry() == Some(ClientEntry { context_id, client, pump }),
    {
        self.slot = None;
        self.slot = Some(ClientEntry { context_id, client, pump });
    }

    /// Releases the cached client and its servicing handle. Does nothing when
    /// nothing is cached.
    pub fn drop_all_clients(&mut self)
        ensures
            final(self).entry() == apply(old(self).entry(), RegistryOp::<C, P>::Release),
            final(self).entry() is None,
    {
        self.slot = None;
    }

    /// Runs the servicing routine `service` once on the handle cached for
    /// `context_id`. Fails, without running it, when no client is cached for
    /// that context.
    pub fn run_callbacks<F: FnOnce(&P)>(&self, context_id: u32, service: F) -> (r: Result<
        (),
        RegistryError,
    >)
        requires
            self.caches(context_id) ==> service.requires((&self.entry()->0.pump,)),
        ensures
            r is Ok <==> self.caches(context_id),
            r is Ok ==> service.ensures((&self.entry()->0.pump,), ()),
            r matches Err(e) ==> e@ == RegistryFault::NoClient(context_id),
    {
        match &self.slot {
            Some(entry) => {
                if entry.context_id == context_id {
                    service(&entry.pump);
                    Ok(())
                } else {
                    Err(RegistryError::NoClient { context_id })
                }
            },
            None => Err(RegistryError::NoClient { context_id }),
        }
    }

    /// Makes sure that the cached client is one for `context_id`.
    ///
    /// Where it already is, nothing changes and `connect` is not called.
    /// Otherwise the cached client is released, and only then `connect` is
    /// asked for a new one: what it returns is installed, and where it fails
    /// the registry stays empty and the failure is handed on.
    pub fn ensure_client<E, F: FnOnce(u32) -> Result<(C, P), E>>(
        &mut self,
        context_id: u32,
        connect: F,
    ) -> (r: Result<(), E>)
        requires
            !old(self).caches(context_id) ==> connect.requires((context_id,)),
        ensures
            old(self).caches(context_id) ==> r is Ok && final(self).entry() == old(self).entry(),
            !old(self).caches(context_id) ==> match r {
                Ok(()) => exists|client: C, pump: P|
                    {
                        &&& connect.ensures((context_id,), Ok((client, pump)))
                        &&& final(self).entry() == Some(ClientEntry { context_id, client, pump })
                    },
                Err(e) => connect.ensures((context_id,), Err(e)) && final(self).entry() is None,
            },
    {
        if self.has_client(context_id) {
            return Ok(());
        }
        self.drop_all_clients();
        match connect(context_id) {
            Ok((client, pump)) => {
                self.set_client(context_id, client, pump);
                Ok(())
            },
            Err(e) => Err(e),
        }
    }
}

/// Single active client: whatever was cached and whatever changes are made,
/// at most one client is live after each of them; after a client is installed
/// it is the only one, and nothing of the entry before it remains; after a
/// release none is live.
pub proof fn lemma_single_active_client<C, P>(
    slot: Option<ClientEntry<C, P>>,
    ops: Seq<RegistryOp<C, P>>,
)
    ensures
        forall|n: int| 0 <= n <= ops.len() ==> live_contexts(#[trigger] replay(slot, ops.take(n))).len() <= 1,
        ops.len() > 0 ==> match ops.last() {
            RegistryOp::Install(context_id, client, pump) => replay(slot, ops) == Some(
                ClientEntry { context_id, client, pump },
            ) && live_contexts(replay(slot, ops)) == seq![context_id],
            RegistryOp::Release => replay(slot, ops) is None && live_contexts(replay(slot, ops))
                == Seq::<u32>::empty(),
        },
{
}

} // verus!

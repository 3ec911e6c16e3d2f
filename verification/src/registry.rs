//! The state of the handler registry and its transitions.
//!
//! A registry holds the handler of the node's own primary, the handlers of
//! its workers by identity, and a shutdown flag. Once it is shut down it is
//! empty and stays so.

use vstd::prelude::*;
use crate::handler_map::HandlerMap;
use crate::peer_id::PeerId;

verus! {

/// What one look at the registry finds for a target.
#[derive(Debug)]
pub enum Lookup<H> {
    /// The registry is shut down.
    ShuttingDown,
    /// The target is registered with this handler.
    Found(H),
    /// The target is not registered (yet).
    Missing,
}

impl<'a, H> Lookup<&'a H> {
    /// The same finding, of the handler itself.
    pub open spec fn owned(self) -> Lookup<H> {
        match self {
            Lookup::ShuttingDown => Lookup::ShuttingDown,
            Lookup::Found(handler) => Lookup::Found(*handler),
            Lookup::Missing => Lookup::Missing,
        }
    }
}

impl<'a, H: Clone> Lookup<&'a H> {
    /// The same finding, with a clone of the handler.
    pub fn cloned(self) -> (copy: Lookup<H>)
        ensures
            match (self, copy) {
                (Lookup::ShuttingDown, Lookup::ShuttingDown) => true,
                (Lookup::Found(handler), Lookup::Found(clone)) => cloned(*handler, clone),
                (Lookup::Missing, Lookup::Missing) => true,
                _ => false,
            },
    {
        match self {
            Lookup::ShuttingDown => Lookup::ShuttingDown,
            Lookup::Found(handler) => Lookup::Found(handler.clone()),
            Lookup::Missing => Lookup::Missing,
        }
    }
}

/// The registry as a mathematical value: `WP` is the handler that workers
/// call on the primary, `PW` the one that the primary calls on a worker, `WW`
/// the one that a worker calls on another worker.
pub struct RegistryState<WP, PW, WW> {
    pub worker_to_primary: Option<WP>,
    pub primary_to_worker: Map<PeerId, PW>,
    pub worker_to_worker: Map<PeerId, WW>,
    pub shutdown: bool,
}

impl<WP, PW, WW> RegistryState<WP, PW, WW> {
    /// The registry of a node that just started: nothing registered.
    pub open spec fn empty() -> Self {
        RegistryState {
            worker_to_primary: None,
            primary_to_worker: Map::empty(),
            worker_to_worker: Map::empty(),
            shutdown: false,
        }
    }

    /// Whether no handler is registered.
    pub open spec fn holds_nothing(self) -> bool {
        &&& self.worker_to_primary is None
        &&& self.primary_to_worker == Map::<PeerId, PW>::empty()
        &&& self.worker_to_worker == Map::<PeerId, WW>::empty()
    }

    /// A registry that is shut down holds nothing.
    pub open spec fn wf(self) -> bool {
        self.shutdown ==> self.holds_nothing()
    }

    /// The registry after the primary registered `handler`.
    pub open spec fn register_worker_to_primary(self, handler: WP) -> Self {
        if self.shutdown {
            self
        } else {
            RegistryState { worker_to_primary: Some(handler), ..self }
        }
    }

    /// The registry after the worker `worker_id` registered `handler` for
    /// calls from the primary.
    pub open spec fn register_primary_to_worker(self, worker_id: PeerId, handler: PW) -> Self {
        if self.shutdown {
            self
        } else {
            RegistryState {
                primary_to_worker: self.primary_to_worker.insert(worker_id, handler),
                ..self
            }
        }
    }

    /// The registry after the worker `worker_id` registered `handler` for
    /// calls from other workers.
    pub open spec fn register_worker_to_worker(self, worker_id: PeerId, handler: WW) -> Self {
        if self.shutdown {
            self
        } else {
            RegistryState {
                worker_to_worker: self.worker_to_worker.insert(worker_id, handler),
                ..self
            }
        }
    }

    /// The registry after a shutdown.
    pub open spec fn shut_down(self) -> Self {
        RegistryState {
            worker_to_primary: None,
            primary_to_worker: Map::empty(),
            worker_to_worker: Map::empty(),
            shutdown: true,
        }
    }

    /// What a look for the primary's handler finds.
    pub open spec fn find_worker_to_primary(self) -> Lookup<WP> {
        if self.shutdown {
            Lookup::ShuttingDown
        } else {
            match self.worker_to_primary {
                Some(handler) => Lookup::Found(handler),
                None => Lookup::Missing,
            }
        }
    }

    /// What a look for the handler that the primary calls on `worker_id`
    /// finds.
    pub open spec fn find_primary_to_worker(self, worker_id: PeerId) -> Lookup<PW> {
        if self.shutdown {
            Lookup::ShuttingDown
        } else if self.primary_to_worker.contains_key(worker_id) {
            Lookup::Found(self.primary_to_worker[worker_id])
        } else {
            Lookup::Missing
        }
    }

    /// What a look for the handler that workers call on `worker_id` finds.
    pub open spec fn find_worker_to_worker(self, worker_id: PeerId) -> Lookup<WW> {
        if self.shutdown {
            Lookup::ShuttingDown
        } else if self.worker_to_worker.contains_key(worker_id) {
            Lookup::Found(self.worker_to_worker[worker_id])
        } else {
            Lookup::Missing
        }
    }
}

impl<WP, PW, WW> RegistryState<WP, PW, WW> {
    /// A new registry is well formed, and every transition keeps a registry
    /// well formed.
    pub proof fn lemma_transitions_keep_wf(
        self,
        worker_id: PeerId,
        to_primary: WP,
        to_worker: PW,
        between_workers: WW,
    )
        requires
            self.wf(),
        ensures
            Self::empty().wf(),
            self.register_worker_to_primary(to_primary).wf(),
            self.register_primary_to_worker(worker_id, to_worker).wf(),
            self.register_worker_to_worker(worker_id, between_workers).wf(),
            self.shut_down().wf(),
    {
    }

    /// A new registry holds nothing and is not shut down: no look finds
    /// anything in it.
    pub proof fn lemma_nothing_registered_at_first(worker_id: PeerId)
        ensures
            Self::empty().holds_nothing(),
            !Self::empty().shutdown,
            Self::empty().find_worker_to_primary() == Lookup::<WP>::Missing,
            Self::empty().find_primary_to_worker(worker_id) == Lookup::<PW>::Missing,
            Self::empty().find_worker_to_worker(worker_id) == Lookup::<WW>::Missing,
    {
    }

    /// In a registry that is not shut down, a look right after a
    /// registration finds the handler that was registered.
    pub proof fn lemma_registered_is_found(
        self,
        worker_id: PeerId,
        to_primary: WP,
        to_worker: PW,
        between_workers: WW,
    )
        requires
            !self.shutdown,
        ensures
            self.register_worker_to_primary(to_primary).find_worker_to_primary() == Lookup::Found(
                to_primary,
            ),
            self.register_primary_to_worker(worker_id, to_worker).find_primary_to_worker(worker_id)
                == Lookup::Found(to_worker),
            self.register_worker_to_worker(worker_id, between_workers).find_worker_to_worker(
                worker_id,
            ) == Lookup::Found(between_workers),
    {
    }

    /// In a registry that is not shut down, of two handlers registered one
    /// after the other for the same target the second is found, and the
    /// registry is as if the first had never been registered.
    pub proof fn lemma_later_registration_replaces(
        self,
        worker_id: PeerId,
        first_to_primary: WP,
        second_to_primary: WP,
        first_to_worker: PW,
        second_to_worker: PW,
        first_between_workers: WW,
        second_between_workers: WW,
    )
        requires
            !self.shutdown,
        ensures
            self.register_worker_to_primary(first_to_primary).register_worker_to_primary(
                second_to_primary,
            ) == self.register_worker_to_primary(second_to_primary),
            self.register_worker_to_primary(first_to_primary).register_worker_to_primary(
                second_to_primary,
            ).find_worker_to_primary() == Lookup::Found(second_to_primary),
            self.register_primary_to_worker(worker_id, first_to_worker).register_primary_to_worker(
                worker_id,
                second_to_worker,
            ) == self.register_primary_to_worker(worker_id, second_to_worker),
            self.register_primary_to_worker(worker_id, first_to_worker).register_primary_to_worker(
                worker_id,
                second_to_worker,
            ).find_primary_to_worker(worker_id) == Lookup::Found(second_to_worker),
            self.register_worker_to_worker(
                worker_id,
                first_between_workers,
            ).register_worker_to_worker(worker_id, second_between_workers)
                == self.register_worker_to_worker(worker_id, second_between_workers),
            self.register_worker_to_worker(
                worker_id,
                first_between_workers,
            ).register_worker_to_worker(worker_id, second_between_workers).find_worker_to_worker(
                worker_id,
            ) == Lookup::Found(second_between_workers),
    {
        assert(self.primary_to_worker.insert(worker_id, first_to_worker).insert(
            worker_id,
            second_to_worker,
        ) =~= self.primary_to_worker.insert(worker_id, second_to_worker));
        assert(self.worker_to_worker.insert(worker_id, first_between_workers).insert(
            worker_id,
            second_between_workers,
        ) =~= self.worker_to_worker.insert(worker_id, second_between_workers));
    }

    /// A registration for one worker changes nothing of what a look finds
    /// for another worker, or for the primary.
    pub proof fn lemma_registration_leaves_others(
        self,
        worker_id: PeerId,
        other_id: PeerId,
        to_primary: WP,
        to_worker: PW,
        between_workers: WW,
    )
        requires
            worker_id != other_id,
        ensures
            self.register_primary_to_worker(worker_id, to_worker).find_primary_to_worker(other_id)
                == self.find_primary_to_worker(other_id),
            self.register_primary_to_worker(worker_id, to_worker).find_worker_to_worker(other_id)
                == self.find_worker_to_worker(other_id),
            self.register_primary_to_worker(worker_id, to_worker).find_worker_to_worker(worker_id)
                == self.find_worker_to_worker(worker_id),
            self.register_primary_to_worker(worker_id, to_worker).find_worker_to_primary()
                == self.find_worker_to_primary(),
            self.register_worker_to_worker(worker_id, between_workers).find_worker_to_worker(
                other_id,
            ) == self.find_worker_to_worker(other_id),
            self.register_worker_to_worker(worker_id, between_workers).find_primary_to_worker(
                other_id,
            ) == self.find_primary_to_worker(other_id),
            self.register_worker_to_worker(worker_id, between_workers).find_primary_to_worker(
                worker_id,
            ) == self.find_primary_to_worker(worker_id),
            self.register_worker_to_worker(worker_id, between_workers).find_worker_to_primary()
                == self.find_worker_to_primary(),
            self.register_worker_to_primary(to_primary).find_primary_to_worker(worker_id)
                == self.find_primary_to_worker(worker_id),
            self.register_worker_to_primary(to_primary).find_worker_to_worker(worker_id)
                == self.find_worker_to_worker(worker_id),
    {
    }

    /// After a shutdown every look fails with a shutdown, whatever was
    /// registered before.
    pub proof fn lemma_shut_down_finds_nothing(self, worker_id: PeerId)
        ensures
            self.shut_down().shutdown,
            self.shut_down().holds_nothing(),
            self.shut_down().find_worker_to_primary() == Lookup::<WP>::ShuttingDown,
            self.shut_down().find_primary_to_worker(worker_id) == Lookup::<PW>::ShuttingDown,
            self.shut_down().find_worker_to_worker(worker_id) == Lookup::<WW>::ShuttingDown,
    {
    }

    /// A second shutdown changes nothing: on a well-formed registry that is
    /// shut down, and so after any shutdown.
    pub proof fn lemma_shutdown_is_idempotent(self)
        ensures
            self.shut_down().shut_down() == self.shut_down(),
            self.wf() && self.shutdown ==> self.shut_down() == self,
    {
        if self.wf() && self.shutdown {
            assert(self.primary_to_worker =~= Map::<PeerId, PW>::empty());
            assert(self.worker_to_worker =~= Map::<PeerId, WW>::empty());
        }
    }

    /// A shutdown is for good: no registration changes a registry that is
    /// shut down, so it stays empty and shut down.
    pub proof fn lemma_shutdown_is_final(
        self,
        worker_id: PeerId,
        to_primary: WP,
        to_worker: PW,
        between_workers: WW,
    )
        requires
            self.shutdown,
        ensures
            self.register_worker_to_primary(to_primary) == self,
            self.register_primary_to_worker(worker_id, to_worker) == self,
            self.register_worker_to_worker(worker_id, between_workers) == self,
            self.shut_down().shutdown,
    {
    }
}

/// The handlers of one node and its shutdown flag.
pub struct Registry<WP, PW, WW> {
    worker_to_primary_handler: Option<WP>,
    primary_to_own_worker_handler: HandlerMap<PW>,
    worker_to_own_worker_handler: HandlerMap<WW>,
    shutdown: bool,
}

impl<WP, PW, WW> View for Registry<WP, PW, WW> {
    type V = RegistryState<WP, PW, WW>;

    closed spec fn view(&self) -> RegistryState<WP, PW, WW> {
        RegistryState {
            worker_to_primary: self.worker_to_primary_handler,
            primary_to_worker: self.primary_to_own_worker_handler@,
            worker_to_worker: self.worker_to_own_worker_handler@,
            shutdown: self.shutdown,
        }
    }
}

impl<WP, PW, WW> Registry<WP, PW, WW> {
    #[verifier::type_invariant]
    spec fn well_formed(self) -> bool {
        self@.wf()
    }

    /// A registry with nothing registered, not shut down.
    pub fn new() -> (registry: Self)
        ensures
            registry@ == RegistryState::<WP, PW, WW>::empty(),
    {
        Registry {
            worker_to_primary_handler: None,
            primary_to_own_worker_handler: HandlerMap::new(),
            worker_to_own_worker_handler: HandlerMap::new(),
            shutdown: false,
        }
    }

    /// Whether the registry is shut down.
    pub fn is_shut_down(&self) -> (down: bool)
        ensures
            down == self@.shutdown,
            self@.wf(),
    {
        proof {
            use_type_invariant(self);
        }
        self.shutdown
    }

    /// Whether no handler is registered.
    pub fn is_empty(&self) -> (empty: bool)
        ensures
            empty == self@.holds_nothing(),
            self@.shutdown ==> empty,
    {
        proof {
            use_type_invariant(self);
        }
        self.worker_to_primary_handler.is_none() && self.primary_to_own_worker_handler.is_empty()
            && self.worker_to_own_worker_handler.is_empty()
    }

    /// Registers the handler of the node's primary, in place of an earlier
    /// one. A registry that is shut down takes no handler.
    pub fn register_worker_to_primary(&mut self, handler: WP)
        ensures
            final(self)@ == old(self)@.register_worker_to_primary(handler),
    {
        if !self.shutdown {
            self.worker_to_primary_handler = Some(handler);
        }
    }

    /// Registers the handler that the primary calls on the worker
    /// `worker_id`, in place of an earlier one for that worker. A registry
    /// that is shut down takes no handler.
    pub fn register_primary_to_worker(&mut self, worker_id: PeerId, handler: PW)
        ensures
            final(self)@ == old(self)@.register_primary_to_worker(worker_id, handler),
    {
        if !self.shutdown {
            // An insertion may panic: the map is taken out for it, so that
            // the registry is whole whenever it can be seen.
            let mut handlers: HandlerMap<PW> = HandlerMap::new();
            std::mem::swap(&mut self.primary_to_own_worker_handler, &mut handlers);
            handlers.insert(worker_id, handler);
            self.primary_to_own_worker_handler = handlers;
        }
    }

    /// Registers the handler that other workers call on the worker
    /// `worker_id`, in place of an earlier one for that worker. A registry
    /// that is shut down takes no handler.
    pub fn register_worker_to_worker(&mut self, worker_id: PeerId, handler: WW)
        ensures
            final(self)@ == old(self)@.register_worker_to_worker(worker_id, handler),
    {
        if !self.shutdown {
            let mut handlers: HandlerMap<WW> = HandlerMap::new();
            std::mem::swap(&mut self.worker_to_own_worker_handler, &mut handlers);
            handlers.insert(worker_id, handler);
            self.worker_to_own_worker_handler = handlers;
        }
    }

    /// Shuts the registry down: drops every handler and raises the flag, in
    /// one step. On a registry that is shut down already this changes
    /// nothing.
    pub fn shutdown(&mut self)
        ensures
            final(self)@ == old(self)@.shut_down(),
            old(self)@.shutdown ==> final(self)@ == old(self)@,
    {
        proof {
            use_type_invariant(&*self);
        }
        if self.shutdown {
            return ;
        }
        *self = Registry {
            worker_to_primary_handler: None,
            primary_to_own_worker_handler: HandlerMap::new(),
            worker_to_own_worker_handler: HandlerMap::new(),
            shutdown: true,
        };
    }

    /// Looks once for the handler of the node's primary.
    pub fn find_worker_to_primary(&self) -> (found: Lookup<&WP>)
        ensures
            found.owned() == self@.find_worker_to_primary(),
    {
        if self.shutdown {
            return Lookup::ShuttingDown;
        }
        match &self.worker_to_primary_handler {
            Some(handler) => Lookup::Found(handler),
            None => Lookup::Missing,
        }
    }

    /// Looks once for the handler that the primary calls on `worker_id`.
    pub fn find_primary_to_worker(&self, worker_id: &PeerId) -> (found: Lookup<&PW>)
        ensures
            found.owned() == self@.find_primary_to_worker(*worker_id),
    {
        if self.shutdown {
            return Lookup::ShuttingDown;
        }
        match self.primary_to_own_worker_handler.get(worker_id) {
            Some(handler) => Lookup::Found(handler),
            None => Lookup::Missing,
        }
    }

    /// Looks once for the handler that workers call on `worker_id`.
    pub fn find_worker_to_worker(&self, worker_id: &PeerId) -> (found: Lookup<&WW>)
        ensures
            found.owned() == self@.find_worker_to_worker(*worker_id),
    {
        if self.shutdown {
            return Lookup::ShuttingDown;
        }
        match self.worker_to_own_worker_handler.get(worker_id) {
            Some(handler) => Lookup::Found(handler),
            None => Lookup::Missing,
        }
    }
}

} // verus!

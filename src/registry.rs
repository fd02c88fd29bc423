//! Which model, if any, is resident: the identity of the model in the single
//! accelerator slot, with the addresses of its inference and shutdown
//! mailboxes.

use vstd::prelude::*;

verus! {

/// The map whose keys are the views of the first components, later pairs
/// replacing earlier ones.
pub open spec fn pairs_map<A>(s: Seq<(String, A)>) -> Map<Seq<char>, A>
    decreases s.len(),
{
    if s.len() == 0 {
        Map::empty()
    } else {
        pairs_map(s.drop_last()).insert(s.last().0@, s.last().1)
    }
}

/// The two mappings from model identity to mailbox address: `P` addresses
/// inference requests, `S` shutdown requests.
pub struct SlotRegistry<P, S> {
    inference: Vec<(String, P)>,
    shutdown: Vec<(String, S)>,
}

impl<P, S> SlotRegistry<P, S> {
    /// Identity to inference address.
    pub closed spec fn inference_map(&self) -> Map<Seq<char>, P> {
        pairs_map(self.inference@)
    }

    /// Identity to shutdown address.
    pub closed spec fn shutdown_map(&self) -> Map<Seq<char>, S> {
        pairs_map(self.shutdown@)
    }

    /// The registered shutdown addresses, in order of registration.
    pub closed spec fn shutdown_addrs(&self) -> Seq<S> {
        self.shutdown@.map_values(|e: (String, S)| e.1)
    }

    /// Both mappings hold the same keys, and at most one of them.
    pub closed spec fn wf(&self) -> bool {
        &&& self.inference@.len() <= 1
        &&& self.shutdown@.len() == self.inference@.len()
        &&& forall|i: int|
            0 <= i < self.inference@.len() ==> #[trigger] self.inference@[i].0@
                == self.shutdown@[i].0@
    }

    proof fn lemma_maps(&self)
        requires
            self.wf(),
        ensures
            self.inference@.len() == 0 ==> self.inference_map() == Map::<Seq<char>, P>::empty()
                && self.shutdown_map() == Map::<Seq<char>, S>::empty(),
            self.inference@.len() == 1 ==> self.inference_map() == Map::<Seq<char>, P>::empty().insert(
                self.inference@[0].0@,
                self.inference@[0].1,
            ) && self.shutdown_map() == Map::<Seq<char>, S>::empty().insert(
                self.inference@[0].0@,
                self.shutdown@[0].1,
            ),
    {
        if self.inference@.len() == 1 {
            assert(pairs_map(self.inference@.drop_last()) =~= Map::<Seq<char>, P>::empty());
            assert(pairs_map(self.shutdown@.drop_last()) =~= Map::<Seq<char>, S>::empty());
            assert(self.inference@[0].0@ == self.shutdown@[0].0@);
        }
    }

    /// An empty registry: no model is resident.
    pub fn new() -> (r: Self)
        ensures
            r.wf(),
            r.inference_map() == Map::<Seq<char>, P>::empty(),
            r.shutdown_map() == Map::<Seq<char>, S>::empty(),
            r.shutdown_addrs() == Seq::<S>::empty(),
    {
        let r = SlotRegistry { inference: Vec::new(), shutdown: Vec::new() };
        assert(r.shutdown_addrs() =~= Seq::<S>::empty());
        r
    }

    /// Whether model `id` is resident.
    pub fn is_resident(&self, id: &str) -> (r: bool)
        requires
            self.wf(),
        ensures
            r == self.inference_map().contains_key(id@),
    {
        proof {
            self.lemma_maps();
        }
        if self.inference.len() == 0 {
            false
        } else {
            let key = id.to_owned();
            self.inference[0].0 == key
        }
    }

    /// The inference address of model `id`, if it is resident.
    pub fn get(&self, id: &str) -> (r: Option<&P>)
        requires
            self.wf(),
        ensures
            r is Some <==> self.inference_map().contains_key(id@),
            r matches Some(p) ==> *p == self.inference_map()[id@],
    {
        proof {
            self.lemma_maps();
        }
        if self.inference.len() == 0 {
            None
        } else {
            let key = id.to_owned();
            if self.inference[0].0 == key {
                Some(&self.inference[0].1)
            } else {
                None
            }
        }
    }

    /// The identity of the resident model, if any.
    pub fn resident(&self) -> (r: Option<&String>)
        requires
            self.wf(),
        ensures
            r is None <==> self.inference_map().dom().is_empty(),
            r matches Some(k) ==> self.inference_map().dom() == set![k@],
    {
        proof {
            self.lemma_maps();
        }
        if self.inference.len() == 0 {
            proof {
                assert(self.inference_map().dom() =~= Set::<Seq<char>>::empty());
            }
            None
        } else {
            proof {
                assert(self.inference_map().dom() =~= set![self.inference@[0].0@]);
            }
            Some(&self.inference[0].0)
        }
    }

    /// Empties both mappings and hands back every shutdown address that was
    /// registered, so that the caller can shut those models down.
    pub fn evict_all(&mut self) -> (r: Vec<S>)
        requires
            old(self).wf(),
        ensures
            final(self).wf(),
            final(self).inference_map() == Map::<Seq<char>, P>::empty(),
            final(self).shutdown_map() == Map::<Seq<char>, S>::empty(),
            final(self).shutdown_addrs() == Seq::<S>::empty(),
            r@ == old(self).shutdown_addrs(),
            r@.len() == old(self).shutdown_map().dom().len(),
            forall|k: Seq<char>| #[trigger]
                old(self).shutdown_map().contains_key(k) ==> r@.contains(
                    old(self).shutdown_map()[k],
                ),
    {
        proof {
            self.lemma_maps();
        }
        let ghost old_shutdown = self.shutdown_map();
        let mut out: Vec<S> = Vec::new();
        self.inference.clear();
        if self.shutdown.len() > 0 {
            let (_, s) = self.shutdown.remove(0);
            out.push(s);
            proof {
                assert(old_shutdown.dom() =~= set![old(self).shutdown@[0].0@]);
                assert(out@[0] == old(self).shutdown@[0].1);
                assert(out@ =~= old(self).shutdown_addrs());
            }
        } else {
            proof {
                assert(old_shutdown.dom() =~= Set::<Seq<char>>::empty());
                assert(out@ =~= old(self).shutdown_addrs());
            }
        }
        proof {
            self.lemma_maps();
            assert(self.shutdown_addrs() =~= Seq::<S>::empty());
        }
        out
    }

    /// Makes `id` the resident model. Whatever was registered before is
    /// removed, and its shutdown addresses are handed back.
    pub fn install(&mut self, id: String, inference: P, shutdown: S) -> (r: Vec<S>)
        requires
            old(self).wf(),
        ensures
            final(self).wf(),
            final(self).inference_map() == Map::<Seq<char>, P>::empty().insert(id@, inference),
            final(self).shutdown_map() == Map::<Seq<char>, S>::empty().insert(id@, shutdown),
            final(self).shutdown_addrs() == seq![shutdown],
            r@ == old(self).shutdown_addrs(),
            r@.len() == old(self).shutdown_map().dom().len(),
            forall|k: Seq<char>| #[trigger]
                old(self).shutdown_map().contains_key(k) ==> r@.contains(
                    old(self).shutdown_map()[k],
                ),
    {
        let displaced = self.evict_all();
        proof {
            self.lemma_maps();
            if self.inference@.len() == 1 {
                assert(self.inference_map().contains_key(self.inference@[0].0@));
            }
        }
        let key = id.clone();
        self.inference.push((id, inference));
        self.shutdown.push((key, shutdown));
        proof {
            self.lemma_maps();
            assert(self.shutdown_addrs() =~= seq![shutdown]);
        }
        displaced
    }
}

/// In every well-formed registry the inference and shutdown mappings have
/// the same key set.
pub proof fn lemma_key_sets_agree<P, S>(r: &SlotRegistry<P, S>)
    requires
        r.wf(),
    ensures
        r.inference_map().dom() == r.shutdown_map().dom(),
{
    r.lemma_maps();
    assert(r.inference_map().dom() =~= r.shutdown_map().dom());
}

/// In every well-formed registry at most one model is resident.
pub proof fn lemma_at_most_one_resident<P, S>(r: &SlotRegistry<P, S>)
    requires
        r.wf(),
    ensures
        r.inference_map().dom().len() <= 1,
        r.shutdown_map().dom().len() <= 1,
{
    r.lemma_maps();
    lemma_key_sets_agree(r);
    if r.inference@.len() == 1 {
        assert(r.inference_map().dom() =~= set![r.inference@[0].0@]);
        assert(set![r.inference@[0].0@].len() == 1);
    } else {
        assert(r.inference_map().dom() =~= Set::<Seq<char>>::empty());
    }
}

/// One step of switching the resident model.
pub enum SwapAction<S> {
    /// Send a shutdown to this evicted model; a failure is only logged.
    ShutDown(S),
    /// Every evicted model has been told to shut down: load the new one.
    Load,
    /// Nothing is left to do.
    Done,
}

/// The switch of the resident model: first a shutdown for every model
/// evicted from the registry, each once, then a single load.
pub struct ModelSwap<S> {
    pending: Vec<S>,
    load_issued: bool,
    evicted: Ghost<Seq<S>>,
    sent: Ghost<nat>,
}

impl<S> ModelSwap<S> {
    /// The shutdown addresses that the eviction handed back.
    pub closed spec fn evicted(&self) -> Seq<S> {
        self.evicted@
    }

    /// How many shutdowns have been handed out.
    pub closed spec fn sent(&self) -> nat {
        self.sent@
    }

    /// Whether the load has been handed out.
    pub closed spec fn load_issued(&self) -> bool {
        self.load_issued
    }

    pub closed spec fn wf(&self) -> bool {
        &&& self.sent@ <= self.evicted@.len()
        &&& self.pending@ == self.evicted@.skip(self.sent@ as int)
        &&& self.load_issued ==> self.sent@ == self.evicted@.len()
    }

    /// Empties `registry` and starts the switch.
    pub fn begin<P>(registry: &mut SlotRegistry<P, S>) -> (r: Self)
        requires
            old(registry).wf(),
        ensures
            r.wf(),
            final(registry).wf(),
            final(registry).inference_map() == Map::<Seq<char>, P>::empty(),
            final(registry).shutdown_map() == Map::<Seq<char>, S>::empty(),
            r.evicted() == old(registry).shutdown_addrs(),
            r.sent() == 0,
            !r.load_issued(),
    {
        let pending = registry.evict_all();
        let ghost evicted = pending@;
        assert(evicted.skip(0) =~= evicted);
        ModelSwap { pending, load_issued: false, evicted: Ghost(evicted), sent: Ghost(0) }
    }

    /// The next step: the evicted models' shutdowns in order, then the load,
    /// then nothing.
    pub fn next_action(&mut self) -> (r: SwapAction<S>)
        requires
            old(self).wf(),
        ensures
            final(self).wf(),
            final(self).evicted() == old(self).evicted(),
            old(self).sent() < old(self).evicted().len() ==> {
                &&& r == SwapAction::ShutDown(old(self).evicted()[old(self).sent() as int])
                &&& final(self).sent() == old(self).sent() + 1
                &&& !final(self).load_issued()
            },
            old(self).sent() == old(self).evicted().len() && !old(self).load_issued() ==> {
                &&& r == SwapAction::<S>::Load
                &&& final(self).sent() == old(self).sent()
                &&& final(self).load_issued()
            },
            old(self).sent() == old(self).evicted().len() && old(self).load_issued() ==> {
                &&& r == SwapAction::<S>::Done
                &&& final(self).sent() == old(self).sent()
                &&& final(self).load_issued()
            },
    {
        if self.pending.len() > 0 {
            let s = self.pending.remove(0);
            proof {
                assert(self.pending@ =~= self.evicted@.skip(self.sent@ as int + 1));
                self.sent = Ghost(self.sent@ + 1);
            }
            SwapAction::ShutDown(s)
        } else if !self.load_issued {
            self.load_issued = true;
            SwapAction::Load
        } else {
            SwapAction::Done
        }
    }
}

/// A switch hands out the load only after the shutdown of every model it
/// evicted, and hands it out once.
pub proof fn lemma_shutdowns_precede_load<S>(s: &ModelSwap<S>)
    requires
        s.wf(),
    ensures
        s.load_issued() ==> s.sent() == s.evicted().len(),
{
}

} // verus!

//! User hooks run at points of the window manager's life, and their chains.
use vstd::prelude::*;
use crate::xid::Xid;

verus! {

/// The error that a user hook reports.
#[derive(Debug, PartialEq, Eq, Clone)]
pub struct HookError {
    pub message: String,
}

/// A hook that runs against the state `S` of the window manager and its
/// connection `X`: at startup, or each time the screen is refreshed.
pub trait StateHook<S, X> {
    fn call(&self, state: &mut S, x: &X) -> Result<(), HookError>;
}

/// A hook that runs before the default handling of each event `E`. It
/// returns `false` to skip that handling.
pub trait EventHook<S, X, E> {
    fn call(&self, event: &E, state: &mut S, x: &X) -> Result<bool, HookError>;
}

/// A hook that runs after a window becomes managed.
pub trait ManageHook<S, X> {
    fn call(&self, id: Xid, state: &mut S, x: &X) -> Result<(), HookError>;
}

/// An ordered chain of hooks for one point of the life cycle. The hooks run
/// in the order of the chain; the most recently composed one stands first.
pub struct HookChain<H> {
    hooks: Vec<H>,
}

impl<H> View for HookChain<H> {
    type V = Seq<H>;

    closed spec fn view(&self) -> Seq<H> {
        self.hooks@
    }
}

/// The chain that composing `hooks` in order onto `chain` leaves.
pub open spec fn composed<H>(chain: Seq<H>, hooks: Seq<H>) -> Seq<H>
    decreases hooks.len(),
{
    if hooks.len() == 0 {
        chain
    } else {
        seq![hooks.last()] + composed(chain, hooks.drop_last())
    }
}

/// The hooks of a slot, in the order in which they run.
pub open spec fn slot_view<H>(slot: Option<HookChain<H>>) -> Seq<H> {
    match slot {
        Some(c) => c@,
        None => Seq::empty(),
    }
}

impl<H> HookChain<H> {
    /// A chain of one hook.
    pub fn single(hook: H) -> (r: HookChain<H>)
        ensures
            r@ == seq![hook],
    {
        let mut hooks: Vec<H> = Vec::new();
        hooks.push(hook);
        HookChain { hooks }
    }

    /// Composes `hook` onto this chain: it runs first, and the chain as it was after it.
    pub fn prepend(self, hook: H) -> (r: HookChain<H>)
        ensures
            r@ == seq![hook] + self@,
    {
        let mut hooks = self.hooks;
        hooks.insert(0, hook);
        proof {
            assert(hooks@ =~= seq![hook] + self@);
        }
        HookChain { hooks }
    }

    /// The number of hooks in the chain.
    pub fn len(&self) -> (r: usize)
        ensures
            r == self@.len(),
    {
        self.hooks.len()
    }

    /// The hook that runs at position `i` of the chain.
    pub fn hook(&self, i: usize) -> (r: &H)
        requires
            i < self@.len(),
        ensures
            *r == self@[i as int],
    {
        &self.hooks[i]
    }

    /// Runs each hook of the chain once against `state`, in the order of the
    /// chain, and returns what each reported, in the same order.
    ///
    /// The i-th outcome is what the call of the i-th hook returned. The calls
    /// pass the state along: the first begins on the state given, each next
    /// one on the state that the one before it left, and the last leaves the
    /// state returned.
    pub fn run_state<S, X>(&self, state: &mut S, x: &X) -> (r: Vec<Result<(), HookError>>)
        where
            H: StateHook<S, X>,
        ensures
            r@.len() == self@.len(),
            exists|states: Seq<S>|
                #![trigger states.len()]
                states.len() == self@.len() + 1
                && states[0] == *old(state)
                && states.last() == *final(state)
                && forall|i: int| #![trigger states[i]] 0 <= i < self@.len() ==> exists|m: &mut S|
                    *m == states[i] && *final(m) == states[i + 1] && call_ensures(
                        <H as StateHook<S, X>>::call,
                        (&self@[i], m, x),
                        r@[i],
                    ),
    {
        let mut outcomes: Vec<Result<(), HookError>> = Vec::new();
        let ghost mut states: Seq<S> = seq![*state];
        let mut i: usize = 0;
        while i < self.hooks.len()
            invariant
                i <= self@.len(),
                outcomes@.len() == i,
                states.len() == i + 1,
                states[0] == *old(state),
                states.last() == *state,
                forall|j: int| #![trigger states[j]] 0 <= j < i ==> exists|m: &mut S|
                    *m == states[j] && *final(m) == states[j + 1] && call_ensures(
                        <H as StateHook<S, X>>::call,
                        (&self@[j], m, x),
                        outcomes@[j],
                    ),
            decreases self.hooks.len() - i,
        {
            let ghost pre = *state;
            let outcome = self.hooks[i].call(state, x);
            proof {
                assert(exists|m: &mut S| *m == pre && *final(m) == *state && call_ensures(
                    <H as StateHook<S, X>>::call,
                    (&self@[i as int], m, x),
                    outcome,
                ));
                states = states.push(*state);
            }
            outcomes.push(outcome);
            i = i + 1;
        }
        outcomes
    }

    /// Runs each hook of the chain once for `event`, in the order of the
    /// chain, and returns what each reported, in the same order.
    ///
    /// The i-th outcome is what the call of the i-th hook returned. The calls
    /// pass the state along: the first begins on the state given, each next
    /// one on the state that the one before it left, and the last leaves the
    /// state returned.
    pub fn run_event<S, X, E>(&self, event: &E, state: &mut S, x: &X) -> (r: Vec<Result<bool, HookError>>)
        where
            H: EventHook<S, X, E>,
        ensures
            r@.len() == self@.len(),
            exists|states: Seq<S>|
                #![trigger states.len()]
                states.len() == self@.len() + 1
                && states[0] == *old(state)
                && states.last() == *final(state)
                && forall|i: int| #![trigger states[i]] 0 <= i < self@.len() ==> exists|m: &mut S|
                    *m == states[i] && *final(m) == states[i + 1] && call_ensures(
                        <H as EventHook<S, X, E>>::call,
                        (&self@[i], event, m, x),
                        r@[i],
                    ),
    {
        let mut outcomes: Vec<Result<bool, HookError>> = Vec::new();
        let ghost mut states: Seq<S> = seq![*state];
        let mut i: usize = 0;
        while i < self.hooks.len()
            invariant
                i <= self@.len(),
                outcomes@.len() == i,
                states.len() == i + 1,
                states[0] == *old(state),
                states.last() == *state,
                forall|j: int| #![trigger states[j]] 0 <= j < i ==> exists|m: &mut S|
                    *m == states[j] && *final(m) == states[j + 1] && call_ensures(
                        <H as EventHook<S, X, E>>::call,
                        (&self@[j], event, m, x),
                        outcomes@[j],
                    ),
            decreases self.hooks.len() - i,
        {
            let ghost pre = *state;
            let outcome = self.hooks[i].call(event, state, x);
            proof {
                assert(exists|m: &mut S| *m == pre && *final(m) == *state && call_ensures(
                    <H as EventHook<S, X, E>>::call,
                    (&self@[i as int], event, m, x),
                    outcome,
                ));
                states = states.push(*state);
            }
            outcomes.push(outcome);
            i = i + 1;
        }
        outcomes
    }

    /// Runs each hook of the chain once for the newly managed window `id`, in
    /// the order of the chain, and returns what each reported, in the same order.
    ///
    /// The i-th outcome is what the call of the i-th hook returned. The calls
    /// pass the state along: the first begins on the state given, each next
    /// one on the state that the one before it left, and the last leaves the
    /// state returned.
    pub fn run_manage<S, X>(&self, id: Xid, state: &mut S, x: &X) -> (r: Vec<Result<(), HookError>>)
        where
            H: ManageHook<S, X>,
        ensures
            r@.len() == self@.len(),
            exists|states: Seq<S>|
                #![trigger states.len()]
                states.len() == self@.len() + 1
                && states[0] == *old(state)
                && states.last() == *final(state)
                && forall|i: int| #![trigger states[i]] 0 <= i < self@.len() ==> exists|m: &mut S|
                    *m == states[i] && *final(m) == states[i + 1] && call_ensures(
                        <H as ManageHook<S, X>>::call,
                        (&self@[i], id, m, x),
                        r@[i],
                    ),
    {
        let mut outcomes: Vec<Result<(), HookError>> = Vec::new();
        let ghost mut states: Seq<S> = seq![*state];
        let mut i: usize = 0;
        while i < self.hooks.len()
            invariant
                i <= self@.len(),
                outcomes@.len() == i,
                states.len() == i + 1,
                states[0] == *old(state),
                states.last() == *state,
                forall|j: int| #![trigger states[j]] 0 <= j < i ==> exists|m: &mut S|
                    *m == states[j] && *final(m) == states[j + 1] && call_ensures(
                        <H as ManageHook<S, X>>::call,
                        (&self@[j], id, m, x),
                        outcomes@[j],
                    ),
            decreases self.hooks.len() - i,
        {
            let ghost pre = *state;
            let outcome = self.hooks[i].call(id, state, x);
            proof {
                assert(exists|m: &mut S| *m == pre && *final(m) == *state && call_ensures(
                    <H as ManageHook<S, X>>::call,
                    (&self@[i as int], id, m, x),
                    outcome,
                ));
                states = states.push(*state);
            }
            outcomes.push(outcome);
            i = i + 1;
        }
        outcomes
    }

}

/// Whether the default handling of an event runs, given what the event hooks
/// reported in the order in which they ran: the first hook that fails, or
/// that answers, decides; a failure counts as "run", and so does a chain
/// whose hooks all answered `true`.
pub open spec fn event_verdict(outcomes: Seq<Result<bool, HookError>>) -> bool
    decreases outcomes.len(),
{
    if outcomes.len() == 0 {
        true
    } else {
        match outcomes[0] {
            Ok(true) => event_verdict(outcomes.drop_first()),
            Ok(false) => false,
            Err(_) => true,
        }
    }
}

/// Decides from the event hooks' reports whether an event gets its default handling.
pub fn should_handle(outcomes: &Vec<Result<bool, HookError>>) -> (r: bool)
    ensures
        r == event_verdict(outcomes@),
{
    let mut i: usize = 0;
    proof {
        assert(outcomes@.subrange(0, outcomes@.len() as int) =~= outcomes@);
    }
    while i < outcomes.len()
        invariant
            i <= outcomes@.len(),
            event_verdict(outcomes@) == event_verdict(outcomes@.subrange(i as int, outcomes@.len() as int)),
        decreases outcomes.len() - i,
    {
        proof {
            let rest = outcomes@.subrange(i as int, outcomes@.len() as int);
            assert(rest.drop_first() =~= outcomes@.subrange(i + 1, outcomes@.len() as int));
            assert(rest[0] == outcomes@[i as int]);
        }
        match &outcomes[i] {
            Ok(true) => {},
            Ok(false) => return false,
            Err(_) => return true,
        }
        i = i + 1;
    }
    proof {
        assert(outcomes@.subrange(i as int, outcomes@.len() as int).len() == 0);
    }
    true
}

/// Sets a hook slot to `hook` where it is empty, and composes `hook` onto the
/// chain that it holds otherwise, so that the new hook runs first.
pub fn compose_or_set<H>(slot: &mut Option<HookChain<H>>, hook: H)
    ensures
        final(slot).is_some(),
        slot_view(*final(slot)) == seq![hook] + slot_view(*old(slot)),
{
    let chain = match slot.take() {
        Some(c) => c.prepend(hook),
        None => {
            let c = HookChain::single(hook);
            proof {
                assert(c@ =~= seq![hook] + Seq::<H>::empty());
            }
            c
        },
    };
    *slot = Some(chain);
}

/// Composing hooks one after another onto a slot leaves a chain in which
/// they run in the reverse order of composition, each once, before the hooks
/// that the slot held.
pub proof fn lemma_composition_runs_last_first<H>(chain: Seq<H>, hooks: Seq<H>)
    ensures
        composed(chain, hooks) == hooks.reverse() + chain,
        composed(chain, hooks).len() == hooks.len() + chain.len(),
    decreases hooks.len(),
{
    if hooks.len() > 0 {
        lemma_composition_runs_last_first(chain, hooks.drop_last());
        assert(hooks.reverse() =~= seq![hooks.last()] + hooks.drop_last().reverse());
        assert(composed(chain, hooks) =~= hooks.reverse() + chain);
    }
}

/// Composing one more hook onto a slot puts it in front of the chain that the
/// earlier compositions left: one step of [`compose_or_set`].
pub proof fn lemma_compose_one_more<H>(chain: Seq<H>, hooks: Seq<H>, hook: H)
    ensures
        composed(chain, hooks.push(hook)) == seq![hook] + composed(chain, hooks),
{
    assert(hooks.push(hook).drop_last() =~= hooks);
}

} // verus!

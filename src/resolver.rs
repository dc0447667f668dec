//! Lookup of one address over several chains in a fixed order of priority,
//! as a state machine: the caller performs each lookup it asks for and
//! reports the outcome.
use vstd::prelude::*;
use crate::token::{Chain, LookupFailure};

verus! {

/// The failure of the lookup on one chain.
#[derive(Clone, Copy, Debug, PartialEq, Eq, Structural)]
pub struct ChainFailure {
    pub chain: Chain,
    pub failure: LookupFailure,
}

/// What the caller does next.
pub enum ResolveStep<T> {
    /// Look the address up on this chain and report the outcome.
    Lookup(Chain),
    /// A chain answered: this is the result.
    Found(T),
    /// Every chain failed: the failure of each, in the order tried.
    Exhausted(Vec<ChainFailure>),
}

pub struct ResolverState {
    pub order: Seq<Chain>,
    pub failures: Seq<ChainFailure>,
    pub finished: bool,
}

pub open spec fn initial_state(order: Seq<Chain>) -> ResolverState {
    ResolverState { order, failures: Seq::empty(), finished: order.len() == 0 }
}

/// The chain whose lookup is awaited, if any.
pub open spec fn pending(s: ResolverState) -> Option<Chain> {
    if !s.finished && s.failures.len() < s.order.len() {
        Some(s.order[s.failures.len() as int])
    } else {
        None
    }
}

/// The state after the awaited lookup reported `outcome`: a success ends the
/// resolution; a failure is kept and the next chain is up, if there is one.
pub open spec fn after_outcome<T>(s: ResolverState, outcome: Result<T, LookupFailure>) -> ResolverState {
    match outcome {
        Ok(_) => ResolverState { finished: true, ..s },
        Err(e) => {
            let failures = s.failures.push(
                ChainFailure { chain: s.order[s.failures.len() as int], failure: e },
            );
            ResolverState { order: s.order, failures, finished: failures.len() >= s.order.len() }
        },
    }
}

pub struct FallbackResolver {
    order: Vec<Chain>,
    failures: Vec<ChainFailure>,
    finished: bool,
}

impl View for FallbackResolver {
    type V = ResolverState;

    closed spec fn view(&self) -> ResolverState {
        ResolverState { order: self.order@, failures: self.failures@, finished: self.finished }
    }
}

impl FallbackResolver {
    pub closed spec fn wf(&self) -> bool {
        self.failures@.len() <= self.order@.len() && (self.failures@.len() == self.order@.len()
            ==> self.finished)
    }

    /// A resolution over `order`, highest priority first; each chain is
    /// named once, so that none is tried twice.
    pub fn new(order: Vec<Chain>) -> (r: FallbackResolver)
        requires
            order@.no_duplicates(),
        ensures
            r.wf(),
            r@ == initial_state(order@),
    {
        let finished: bool = order.len() == 0;
        FallbackResolver { order, failures: Vec::new(), finished }
    }

    /// The chain whose lookup is awaited, if any.
    pub fn pending(&self) -> (r: Option<Chain>)
        requires
            self.wf(),
        ensures
            r == pending(self@),
    {
        if !self.finished && self.failures.len() < self.order.len() {
            Some(self.order[self.failures.len()])
        } else {
            None
        }
    }

    fn failures_copy(&self) -> (r: Vec<ChainFailure>)
        ensures
            r@ == self.failures@,
    {
        let mut out: Vec<ChainFailure> = Vec::new();
        let mut i: usize = 0;
        while i < self.failures.len()
            invariant
                i <= self.failures@.len(),
                out@ == self.failures@.subrange(0, i as int),
            decreases self.failures@.len() - i,
        {
            out.push(self.failures[i]);
            i += 1;
        }
        assert(out@ =~= self.failures@);
        out
    }

    /// The first step: the lookup on the first chain, or `Exhausted` with no
    /// failures where no chain is configured.
    pub fn start<T>(&self) -> (r: ResolveStep<T>)
        requires
            self.wf(),
            self@.failures.len() == 0,
        ensures
            match pending(self@) {
                Some(c) => r == ResolveStep::<T>::Lookup(c),
                None => r is Exhausted && r->Exhausted_0@ == self@.failures,
            },
    {
        match self.pending() {
            Some(c) => ResolveStep::Lookup(c),
            None => ResolveStep::Exhausted(self.failures_copy()),
        }
    }

    /// Takes the outcome of the awaited lookup and says what comes next.
    pub fn on_outcome<T>(&mut self, outcome: Result<T, LookupFailure>) -> (r: ResolveStep<T>)
        requires
            old(self).wf(),
            pending(old(self)@) is Some,
        ensures
            final(self).wf(),
            final(self)@ == after_outcome(old(self)@, outcome),
            match outcome {
                Ok(v) => r == ResolveStep::<T>::Found(v),
                Err(_) => match pending(final(self)@) {
                    Some(c) => r == ResolveStep::<T>::Lookup(c),
                    None => r is Exhausted && r->Exhausted_0@ == final(self)@.failures,
                },
            },
    {
        match outcome {
            Ok(v) => {
                self.finished = true;
                ResolveStep::Found(v)
            },
            Err(e) => {
                let chain: Chain = self.order[self.failures.len()];
                self.failures.push(ChainFailure { chain, failure: e });
                if self.failures.len() >= self.order.len() {
                    self.finished = true;
                }
                match self.pending() {
                    Some(c) => ResolveStep::Lookup(c),
                    None => ResolveStep::Exhausted(self.failures_copy()),
                }
            },
        }
    }
}

/// Once a lookup has succeeded, no chain is looked up any more.
pub proof fn lemma_success_ends<T>(s: ResolverState, v: T)
    ensures
        pending(after_outcome(s, Ok::<T, LookupFailure>(v))) is None,
{
}

/// Over chains `a` then `b`, where `a` fails and `b` succeeds: `a` is tried
/// first, `b` second, and nothing after `b`; the failure of `a` is kept.
pub proof fn lemma_second_chain_answers<T>(a: Chain, b: Chain, e: LookupFailure, v: T)
    ensures
        ({
            let s0 = initial_state(seq![a, b]);
            let s1 = after_outcome(s0, Err::<T, LookupFailure>(e));
            let s2 = after_outcome(s1, Ok::<T, LookupFailure>(v));
            &&& pending(s0) == Some(a)
            &&& pending(s1) == Some(b)
            &&& pending(s2) is None
            &&& s2.failures == seq![ChainFailure { chain: a, failure: e }]
        }),
{
    let s0 = initial_state(seq![a, b]);
    assert(s0.failures.push(ChainFailure { chain: a, failure: e }) =~= seq![
        ChainFailure { chain: a, failure: e },
    ]);
}

/// The state after each of `errors` was reported in turn.
pub open spec fn after_failures(s: ResolverState, errors: Seq<LookupFailure>) -> ResolverState
    decreases errors.len(),
{
    if errors.len() == 0 {
        s
    } else {
        after_failures(
            after_outcome(s, Err::<(), LookupFailure>(errors[0])),
            errors.subrange(1, errors.len() as int),
        )
    }
}

proof fn lemma_failures_prefix(order: Seq<Chain>, s: ResolverState, errors: Seq<LookupFailure>)
    requires
        s.order == order,
        s.failures.len() + errors.len() == order.len(),
        forall|i: int| 0 <= i < s.failures.len() ==> (#[trigger] s.failures[i]).chain == order[i],
        errors.len() > 0 ==> !s.finished,
    ensures
        after_failures(s, errors).failures.len() == order.len(),
        forall|i: int|
            0 <= i < order.len() ==> (#[trigger] after_failures(s, errors).failures[i]).chain
                == order[i],
        errors.len() > 0 ==> after_failures(s, errors).finished,
        after_failures(s, errors).order == order,
    decreases errors.len(),
{
    if errors.len() > 0 {
        let s1 = after_outcome(s, Err::<(), LookupFailure>(errors[0]));
        lemma_failures_prefix(order, s1, errors.subrange(1, errors.len() as int));
    }
}

/// Where every chain fails, the resolution ends with the failure of each
/// chain, in the order given, and no lookup is left.
pub proof fn lemma_all_failures_aggregated(order: Seq<Chain>, errors: Seq<LookupFailure>)
    requires
        errors.len() == order.len(),
    ensures
        ({
            let s = after_failures(initial_state(order), errors);
            &&& s.failures.map_values(|f: ChainFailure| f.chain) == order
            &&& pending(s) is None
        }),
{
    lemma_failures_prefix(order, initial_state(order), errors);
    let s = after_failures(initial_state(order), errors);
    assert(s.failures.map_values(|f: ChainFailure| f.chain) =~= order);
}

} // verus!

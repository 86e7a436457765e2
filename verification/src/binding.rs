//! The per-view resource binding: one piece of view state synchronized
//! with the latest settled fetch, guarded by an owner token.
//!
//! Each navigable view owns one [`ViewBinding`]. Activating it hands out a
//! fresh token and moves the state to `Loading`; a settlement is applied
//! only when it presents the token of the still-active instance, so a
//! slow fetch whose view was superseded by navigation can never overwrite
//! the newer instance's state.

use vstd::prelude::*;

use crate::fetch::FetchError;
use crate::fetch::FetchErrorV;

verus! {

/// The lifecycle of one view's resource: nothing asked for yet, a fetch
/// in flight, the settled envelope, or a terminal failure.
#[derive(Clone, PartialEq, Debug)]
pub enum ViewState<T> {
    Idle,
    Loading,
    Ready(T),
    Failed(FetchError),
}

/// Ghost image of a [`ViewState`].
pub enum ViewStateV<V> {
    Idle,
    Loading,
    Ready(V),
    Failed(FetchErrorV),
}

impl<T: DeepView> DeepView for ViewState<T> {
    type V = ViewStateV<T::V>;

    open spec fn deep_view(&self) -> ViewStateV<T::V> {
        match self {
            ViewState::Idle => ViewStateV::Idle,
            ViewState::Loading => ViewStateV::Loading,
            ViewState::Ready(envelope) => ViewStateV::Ready(envelope.deep_view()),
            ViewState::Failed(error) => ViewStateV::Failed(error.deep_view()),
        }
    }
}

/// One view's binding: the owner token of the currently active view
/// instance, and the state the latest applied settlement produced.
/// A token of 0 means no instance has activated yet.
#[derive(Clone, PartialEq, Debug)]
pub struct ViewBinding<T> {
    pub token: u64,
    pub state: ViewState<T>,
}

impl<T> ViewBinding<T> {
    /// The state a settlement outcome maps to.
    pub open spec fn outcome_state(outcome: Result<T, FetchError>) -> ViewState<T> {
        match outcome {
            Ok(envelope) => ViewState::Ready(envelope),
            Err(error) => ViewState::Failed(error),
        }
    }

    /// The binding after a new view instance activates: a fresh owner
    /// token, and a fetch in flight.
    pub open spec fn activated(b: ViewBinding<T>) -> ViewBinding<T> {
        ViewBinding { token: (b.token + 1) as u64, state: ViewState::Loading }
    }

    /// The binding after a settlement arrives bearing `token`: applied
    /// when the token is the active instance's and its fetch is still in
    /// flight, discarded otherwise. Tokens are handed out by activation
    /// alone, so a binding never settles out of `Loading`.
    pub open spec fn settled(
        b: ViewBinding<T>,
        token: u64,
        outcome: Result<T, FetchError>,
    ) -> ViewBinding<T> {
        if token == b.token && b.state is Loading {
            ViewBinding { token: b.token, state: Self::outcome_state(outcome) }
        } else {
            b
        }
    }

    /// A binding that no view instance has activated yet.
    pub fn new() -> (b: Self)
        ensures
            b.token == 0,
            b.state is Idle,
    {
        ViewBinding { token: 0, state: ViewState::Idle }
    }

    /// A new view instance takes ownership: the state moves to `Loading`
    /// and the instance receives the token its settlement must present.
    pub fn activate(&mut self) -> (token: u64)
        requires
            old(self).token < u64::MAX,
        ensures
            *final(self) == Self::activated(*old(self)),
            token == final(self).token,
            final(self).token == old(self).token + 1,
            final(self).state is Loading,
    {
        self.token = self.token + 1;
        self.state = ViewState::Loading;
        self.token
    }

    /// Applies one settlement: with the active instance's token and a
    /// fetch in flight, the state becomes `Ready` or `Failed` as the
    /// outcome says; with a superseded instance's token, or none in
    /// flight, the binding is left exactly as it was.
    pub fn settle(&mut self, token: u64, outcome: Result<T, FetchError>)
        ensures
            *final(self) == Self::settled(*old(self), token, outcome),
            token == old(self).token && old(self).state is Loading ==> final(self).state
                == Self::outcome_state(outcome),
            token != old(self).token || !(old(self).state is Loading) ==> *final(self) == *old(
                self,
            ),
    {
        let in_flight = match &self.state {
            ViewState::Loading => true,
            _ => false,
        };
        if token == self.token && in_flight {
            self.state = match outcome {
                Ok(envelope) => ViewState::Ready(envelope),
                Err(error) => ViewState::Failed(error),
            };
        }
    }
}

/// Staleness law: when instance A activates and is then superseded by
/// instance B before A's fetch settles, A's late settlement changes
/// nothing, while a settlement bearing B's own token is applied.
pub proof fn lemma_stale_settlement_discarded<T>(b: ViewBinding<T>, outcome: Result<T, FetchError>)
    requires
        b.token + 2 <= u64::MAX,
    ensures
        ({
            let first = ViewBinding::activated(b);
            let second = ViewBinding::activated(first);
            &&& first.token != second.token
            &&& ViewBinding::settled(second, first.token, outcome) == second
            &&& ViewBinding::settled(second, second.token, outcome).state
                == ViewBinding::outcome_state(outcome)
        }),
{
}

} // verus!

//! The handlers that act on the store for an authenticated session: the
//! session's tokens are checked first, and the store is only reached when
//! they hold.

use crate::reply::Reply;
use vstd::prelude::*;

verus! {

/// How far a guarded request has come: what it waits for.
pub enum RouteStage {
    AwaitingStart,
    AwaitingToken,
    AwaitingStore,
    Finished,
}

/// A request that may reach the store only for an authenticated session.
pub struct GuardedRoute {
    pub stage: RouteStage,
}

/// What came of the last action of a guarded request.
pub enum RouteEvent<T> {
    /// The request starts.
    Begin,
    /// Whether the session's tokens hold.
    TokenChecked(bool),
    /// What the store operation returned, or none when it failed.
    StoreDone(Option<T>),
}

/// What a guarded request asks its caller to do next.
pub enum RouteAction<T> {
    /// Check the session's tokens.
    CheckToken,
    /// Perform the store operation.
    RunStore,
    /// Answer the client.
    Respond(Reply<T>),
}

/// The events that a guarded request waiting at `stage` accepts.
pub open spec fn route_accepts<T>(stage: RouteStage, e: RouteEvent<T>) -> bool {
    match stage {
        RouteStage::AwaitingStart => e is Begin,
        RouteStage::AwaitingToken => e is TokenChecked,
        RouteStage::AwaitingStore => e is StoreDone,
        RouteStage::Finished => false,
    }
}

/// The transition of a guarded request on event `e` to stage `t`, asking
/// for action `a`.
pub open spec fn route_step_spec<T>(e: RouteEvent<T>, t: RouteStage, a: RouteAction<T>) -> bool {
    match e {
        RouteEvent::Begin => t == RouteStage::AwaitingToken && a == RouteAction::<T>::CheckToken,
        RouteEvent::TokenChecked(true) => t == RouteStage::AwaitingStore && a
            == RouteAction::<T>::RunStore,
        RouteEvent::TokenChecked(false) => t == RouteStage::Finished && a == RouteAction::<
            T,
        >::Respond(Reply::Unauthorized),
        RouteEvent::StoreDone(Some(v)) => t == RouteStage::Finished && a == RouteAction::<
            T,
        >::Respond(Reply::Success(v)),
        RouteEvent::StoreDone(None) => t == RouteStage::Finished && a == RouteAction::<
            T,
        >::Respond(Reply::BadRequest),
    }
}

impl GuardedRoute {
    /// A request that has not started.
    pub fn new() -> (r: GuardedRoute)
        ensures
            r.stage == RouteStage::AwaitingStart,
    {
        GuardedRoute { stage: RouteStage::AwaitingStart }
    }

    /// The next stage and action after event `e`: a session whose tokens do
    /// not hold is refused before the store is reached; otherwise the store's
    /// result is the answer, and its failure a bad request.
    pub fn step<T>(self, e: RouteEvent<T>) -> (r: (GuardedRoute, RouteAction<T>))
        requires
            route_accepts(self.stage, e),
        ensures
            route_step_spec(e, r.0.stage, r.1),
    {
        match e {
            RouteEvent::Begin => (
                GuardedRoute { stage: RouteStage::AwaitingToken },
                RouteAction::CheckToken,
            ),
            RouteEvent::TokenChecked(authorized) => {
                if authorized {
                    (GuardedRoute { stage: RouteStage::AwaitingStore }, RouteAction::RunStore)
                } else {
                    (
                        GuardedRoute { stage: RouteStage::Finished },
                        RouteAction::Respond(Reply::Unauthorized),
                    )
                }
            },
            RouteEvent::StoreDone(result) => match result {
                Some(v) => (
                    GuardedRoute { stage: RouteStage::Finished },
                    RouteAction::Respond(Reply::Success(v)),
                ),
                None => (
                    GuardedRoute { stage: RouteStage::Finished },
                    RouteAction::Respond(Reply::BadRequest),
                ),
            },
        }
    }
}

} // verus!

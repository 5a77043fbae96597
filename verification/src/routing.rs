//! The choice of a backend for one request, from the state that the poller
//! keeps.

use crate::config::{
    CAPACITY_THRESHOLD_DEN, CAPACITY_THRESHOLD_NUM, FALLBACK_URL, PRIMARY_URL,
};
use crate::state::MetricsState;
use vstd::prelude::*;

verus! {

/// The backend that a request goes to.
#[derive(Clone, Copy, Debug, PartialEq, Eq)]
pub enum RoutingDecision {
    Primary,
    Fallback,
}

/// The backend for a request that arrives in `state`. An offline primary
/// sends it to the fallback whatever the ratio; so does a primary whose ratio
/// has reached the threshold, the threshold itself included.
pub open spec fn decision_for(state: MetricsState) -> RoutingDecision {
    if !state.primary_online {
        RoutingDecision::Fallback
    } else if state.utilization_ratio.reaches(CAPACITY_THRESHOLD_NUM, CAPACITY_THRESHOLD_DEN) {
        RoutingDecision::Fallback
    } else {
        RoutingDecision::Primary
    }
}

/// The generation endpoint of the backend that `decision` names.
pub open spec fn url_of(decision: RoutingDecision) -> Seq<char> {
    match decision {
        RoutingDecision::Primary => PRIMARY_URL@,
        RoutingDecision::Fallback => FALLBACK_URL@,
    }
}

/// Chooses the backend for a request that arrives in `state`.
pub fn select_backend(state: &MetricsState) -> (decision: RoutingDecision)
    ensures
        decision == decision_for(*state),
        !state.primary_online ==> decision == RoutingDecision::Fallback,
        state.primary_online ==> (decision == RoutingDecision::Fallback
            <==> state.utilization_ratio.reaches(CAPACITY_THRESHOLD_NUM, CAPACITY_THRESHOLD_DEN)),
{
    if !state.primary_online {
        RoutingDecision::Fallback
    } else if state.utilization_ratio.at_least(CAPACITY_THRESHOLD_NUM, CAPACITY_THRESHOLD_DEN) {
        RoutingDecision::Fallback
    } else {
        RoutingDecision::Primary
    }
}

/// Gives the generation endpoint of a backend.
pub fn backend_url(decision: RoutingDecision) -> (url: &'static str)
    ensures
        url@ == url_of(decision),
{
    match decision {
        RoutingDecision::Primary => PRIMARY_URL,
        RoutingDecision::Fallback => FALLBACK_URL,
    }
}

} // verus!

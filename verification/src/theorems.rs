//! What holds of the router as a whole, proved from the definitions of the
//! other modules.

use crate::metrics::{
    last_reading, line_reading, names_counter, sample_of, MAX_MARKER, USED_MARKER,
};
use crate::proxy::{outbound_for, reply_for, BackendOutcome, ProxyReply, RequestView};
use crate::routing::{decision_for, RoutingDecision};
use crate::state::{MetricsState, PollOutcome, Ratio};
use crate::text::lines;
use vstd::prelude::*;

verus! {

/// While the primary is online and reports a capacity, a request goes to the
/// fallback exactly when ten times the used units are at least seven times the
/// capacity: a ratio of seven tenths itself already turns the request away.
pub proof fn threshold_is_inclusive(state: MetricsState)
    requires
        state.primary_online,
        state.utilization_ratio.capacity > 0,
    ensures
        decision_for(state) == RoutingDecision::Fallback <==> 10 * state.utilization_ratio.used
            >= 7 * state.utilization_ratio.capacity,
        decision_for(state) == RoutingDecision::Primary <==> 10 * state.utilization_ratio.used < 7
            * state.utilization_ratio.capacity,
{
}

/// A primary that reports no capacity at all counts as full.
pub proof fn zero_capacity_is_full(state: MetricsState)
    requires
        state.utilization_ratio.capacity == 0,
    ensures
        decision_for(state) == RoutingDecision::Fallback,
{
}

/// A primary that is offline gets no request, however low its last ratio.
pub proof fn offline_overrides_ratio(state: MetricsState)
    requires
        !state.primary_online,
    ensures
        decision_for(state) == RoutingDecision::Fallback,
{
}

/// The reading of a document is that of its last line that has one; where no
/// line has one, there is none.
pub proof fn last_line_wins(lines: Seq<Seq<char>>, block: Seq<char>)
    ensures
        match last_reading(lines, block) {
            Some(value) => exists|i: int|
                {
                    &&& 0 <= i < lines.len()
                    &&& #[trigger] line_reading(lines[i], block) == Some(value)
                    &&& forall|j: int|
                        i < j < lines.len() ==> #[trigger] line_reading(lines[j], block) is None
                },
            None => forall|i: int|
                0 <= i < lines.len() ==> #[trigger] line_reading(lines[i], block) is None,
        },
    decreases lines.len(),
{
    if lines.len() > 0 {
        let init = lines.drop_last();
        last_line_wins(init, block);
        match line_reading(lines.last(), block) {
            Some(value) => {
                assert(line_reading(lines[lines.len() - 1], block) == Some(value));
            },
            None => {
                match last_reading(init, block) {
                    Some(value) => {
                        let i = choose|i: int|
                            {
                                &&& 0 <= i < init.len()
                                &&& #[trigger] line_reading(init[i], block) == Some(value)
                                &&& forall|j: int|
                                    i < j < init.len() ==> #[trigger] line_reading(
                                        init[j],
                                        block,
                                    ) is None
                            };
                        assert(line_reading(lines[i], block) == Some(value));
                        assert forall|j: int| i < j < lines.len() implies #[trigger] line_reading(
                            lines[j],
                            block,
                        ) is None by {
                            if j < init.len() {
                                assert(line_reading(init[j], block) is None);
                            }
                        }
                    },
                    None => {
                        assert forall|i: int| 0 <= i < lines.len() implies #[trigger] line_reading(
                            lines[i],
                            block,
                        ) is None by {
                            if i < init.len() {
                                assert(line_reading(init[i], block) is None);
                            }
                        }
                    },
                }
            },
        }
    }
}

/// A document none of whose lines names a counter gives no reading of it.
pub proof fn unnamed_counter_has_no_reading(lines: Seq<Seq<char>>, block: Seq<char>)
    requires
        forall|i: int| 0 <= i < lines.len() ==> !names_counter(#[trigger] lines[i], block),
    ensures
        last_reading(lines, block) is None,
    decreases lines.len(),
{
    if lines.len() > 0 {
        let init = lines.drop_last();
        assert forall|i: int| 0 <= i < init.len() implies !names_counter(
            #[trigger] init[i],
            block,
        ) by {
            assert(init[i] == lines[i]);
        }
        unnamed_counter_has_no_reading(init, block);
        assert(!names_counter(lines[lines.len() - 1], block));
    }
}

/// A metrics document that lacks the line of one of the two counters marks
/// the primary offline and leaves the ratio as it was.
pub proof fn missing_counter_degrades(state: MetricsState, text: Seq<char>)
    requires
        (forall|i: int|
            0 <= i < lines(text).len() ==> !names_counter(#[trigger] lines(text)[i], MAX_MARKER@))
            || (forall|i: int|
            0 <= i < lines(text).len() ==> !names_counter(#[trigger] lines(text)[i], USED_MARKER@)),
    ensures
        state.after(sample_of(text).reading()) == (MetricsState {
            utilization_ratio: state.utilization_ratio,
            primary_online: false,
        }),
{
    if forall|i: int|
        0 <= i < lines(text).len() ==> !names_counter(#[trigger] lines(text)[i], MAX_MARKER@) {
        unnamed_counter_has_no_reading(lines(text), MAX_MARKER@);
    } else {
        unnamed_counter_has_no_reading(lines(text), USED_MARKER@);
    }
}

/// A fetch that failed marks the primary offline and leaves the ratio as it
/// was.
pub proof fn failed_fetch_degrades(state: MetricsState)
    ensures
        state.after(PollOutcome::Failed.reading()) == (MetricsState {
            utilization_ratio: state.utilization_ratio,
            primary_online: false,
        }),
{
}

/// After a poll that gave `ratio`, a poll that gives none keeps `ratio` and
/// marks the primary offline; a request that arrives then goes to the
/// fallback, however low `ratio` is.
pub proof fn failure_keeps_ratio(state: MetricsState, ratio: Ratio)
    ensures
        state.after(Some(ratio)).utilization_ratio == ratio,
        state.after(Some(ratio)).primary_online,
        state.after(Some(ratio)).after(None).utilization_ratio == ratio,
        !state.after(Some(ratio)).after(None).primary_online,
        decision_for(state.after(Some(ratio)).after(None)) == RoutingDecision::Fallback,
{
}

/// A backend that runs out of time is answered for with status 504 and a
/// text that is not empty.
pub proof fn timeout_is_answered<R, E>()
    ensures
        reply_for(BackendOutcome::<R, E>::TimedOut) matches Ok(ProxyReply::Synthesized(response))
            && response.status == 504 && response.body@.len() > 0,
{
    reveal_strlit("Backend timeout");
}

/// A request goes out with the method, the header fields and the body that
/// it came in with, and the response of a backend goes back as it came.
pub proof fn relay_is_faithful<R, E>(
    url: Seq<char>,
    request: RequestView,
    accepted: bool,
    response: R,
)
    ensures
        outbound_for(url, request, accepted) matches Ok(outbound) ==> outbound.request == request
            && outbound.url == url,
        reply_for(BackendOutcome::<R, E>::Responded(response)) == Ok::<ProxyReply<R>, E>(
            ProxyReply::Relayed(response),
        ),
{
}

} // verus!

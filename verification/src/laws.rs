//! What holds of every run of the coordinator, proved from the routing rule.
//!
//! A run is a sequence of the things that happen to the pending-request
//! table: a reply slot is registered under a token, the engine reports an
//! event, or the worker gives up what is outstanding.

use crate::coordinator::{content_of, route, Delivery, Routed};
use crate::engine::{EngineEvent, Event, Pending};
use vstd::prelude::*;

verus! {

/// One thing that happens to the pending-request table.
pub ghost enum Step<C> {
    /// `Coordinator::register`
    Register { token: u64, slot: Pending },
    /// `Coordinator::on_event`
    Report { event: EngineEvent<C> },
    /// `Coordinator::shutdown`
    Shutdown,
}

/// The token of the operation that an event completes, if it completes one.
pub open spec fn token_of<C>(event: EngineEvent<C>) -> Option<u64> {
    match event {
        EngineEvent::AdvertiseDone { token, .. } => Some(token),
        EngineEvent::DiscoverDone { token, .. } => Some(token),
        EngineEvent::RequestDone { token, .. } => Some(token),
        EngineEvent::InboundRequestReceived { .. } => None,
    }
}

/// Whether an event carries the kind of result that a reply slot waits for.
pub open spec fn answers<C>(event: EngineEvent<C>, slot: Pending) -> bool {
    match event {
        EngineEvent::AdvertiseDone { .. } => slot is Done,
        EngineEvent::DiscoverDone { .. } => slot is Providers,
        EngineEvent::RequestDone { .. } => slot is Content,
        EngineEvent::InboundRequestReceived { .. } => false,
    }
}

/// The delivery that hands an event's result to a reply slot that waits for
/// it.
pub open spec fn delivery_of<C>(slot: Pending, event: EngineEvent<C>) -> Delivery
    recommends
        answers(event, slot),
{
    match event {
        EngineEvent::AdvertiseDone { result, .. } => Delivery::Done {
            sender: slot->Done_0,
            result,
        },
        EngineEvent::DiscoverDone { result, .. } => Delivery::Providers {
            sender: slot->Providers_0,
            result,
        },
        EngineEvent::RequestDone { result, .. } => Delivery::Content {
            sender: slot->Content_0,
            result: content_of(result),
        },
        EngineEvent::InboundRequestReceived { .. } => arbitrary(),
    }
}

/// The table after one step.
pub open spec fn table_step<C>(table: Map<u64, Pending>, step: Step<C>) -> Map<u64, Pending> {
    match step {
        Step::Register { token, slot } => table.insert(token, slot),
        Step::Report { event } => route(table, event).0,
        Step::Shutdown => Map::empty(),
    }
}

/// The table after the first `n` steps of a run that began with `start`.
pub open spec fn table_after<C>(start: Map<u64, Pending>, steps: Seq<Step<C>>, n: int) -> Map<
    u64,
    Pending,
>
    decreases n,
{
    if n <= 0 {
        start
    } else {
        table_step(table_after(start, steps, n - 1), steps[n - 1])
    }
}

/// Whether step `n` of a run hands a result to a caller, and which.
pub open spec fn delivered_at<C>(start: Map<u64, Pending>, steps: Seq<Step<C>>, n: int) -> Option<
    Delivery,
> {
    match steps[n] {
        Step::Report { event } => match route(table_after(start, steps, n), event).1 {
            Routed::Deliver(delivery) => Some(delivery),
            _ => None,
        },
        _ => None,
    }
}

/// Whether a step registers a reply slot under `token`.
pub open spec fn registers<C>(step: Step<C>, token: u64) -> bool {
    step is Register && step->token == token
}

/// Whether a step reports the completion of the operation `token`.
pub open spec fn completes<C>(step: Step<C>, token: u64) -> bool {
    step is Report && token_of(step->event) == Some(token)
}

/// Whether a step can take the entry of `token` out of a table in which it
/// stands with `slot`, or put another in its place.
pub open spec fn disturbs<C>(step: Step<C>, token: u64, slot: Pending) -> bool {
    ||| registers(step, token)
    ||| step is Shutdown
    ||| completes(step, token) && answers(step->event, slot)
}

/// An event is handed to a caller exactly when its token stands in the table
/// with a reply slot that waits for this kind of result. The caller is then
/// the one registered under that token, the result is the event's own, and
/// the entry is gone. In every other case the table is untouched.
pub proof fn law_delivery_follows_the_token<C>(table: Map<u64, Pending>, event: EngineEvent<C>)
    ensures
        route(table, event).1 is Deliver <==> token_of(event) is Some && table.contains_key(
            token_of(event)->0,
        ) && answers(event, table[token_of(event)->0]),
        route(table, event).1 is Deliver ==> {
            &&& route(table, event).1->Deliver_0 == delivery_of(
                table[token_of(event)->0],
                event,
            )
            &&& route(table, event).0 == table.remove(token_of(event)->0)
        },
        !(route(table, event).1 is Deliver) ==> route(table, event).0 == table,
{
}

/// Routing an event leaves every entry but that of the event's own token as
/// it was: what one caller is owed never depends on another's.
pub proof fn law_routing_leaves_other_callers_alone<C>(
    table: Map<u64, Pending>,
    event: EngineEvent<C>,
    other: u64,
)
    requires
        token_of(event) != Some(other),
    ensures
        route(table, event).0.contains_key(other) == table.contains_key(other),
        table.contains_key(other) ==> route(table, event).0[other] == table[other],
{
}

/// Where an event goes depends on the entry of its own token alone: two
/// tables that agree on that entry route it alike, whatever else they hold.
pub proof fn law_routing_reads_one_entry<C>(
    first: Map<u64, Pending>,
    second: Map<u64, Pending>,
    event: EngineEvent<C>,
)
    requires
        token_of(event) is Some ==> {
            let token = token_of(event)->0;
            &&& first.contains_key(token) == second.contains_key(token)
            &&& first.contains_key(token) ==> first[token] == second[token]
        },
    ensures
        route(first, event).1 == route(second, event).1,
{
}

/// A request that a remote peer sent unasked always goes to the
/// notification stream, with its key and its reply token as they came, and
/// never to a waiting caller; the table is untouched.
pub proof fn law_unsolicited_events_are_forwarded<C>(
    table: Map<u64, Pending>,
    event: EngineEvent<C>,
)
    requires
        event is InboundRequestReceived,
    ensures
        route(table, event) == (
            table,
            Routed::Forward(
                Event::InboundRequest {
                    request: event->request.0,
                    channel: event->InboundRequestReceived_reply_token,
                },
            ),
        ),
{
}

/// Nothing but a request from a remote peer reaches the notification
/// stream.
pub proof fn law_only_unsolicited_events_are_forwarded<C>(
    table: Map<u64, Pending>,
    event: EngineEvent<C>,
)
    ensures
        route(table, event).1 is Forward <==> event is InboundRequestReceived,
{
}

/// Whether step `i` is the last one before step `j` that registers a reply
/// slot under `token`, with no shutdown after it.
pub open spec fn last_registration<C>(steps: Seq<Step<C>>, i: int, j: int, token: u64) -> bool {
    &&& 0 <= i < j
    &&& registers(steps[i], token)
    &&& forall|k: int|
        i < k < j ==> !registers(#[trigger] steps[k], token) && !(steps[k] is Shutdown)
}

/// An entry stays as it is for as long as no step disturbs it.
proof fn lemma_entry_stays<C>(
    start: Map<u64, Pending>,
    steps: Seq<Step<C>>,
    a: int,
    b: int,
    token: u64,
    slot: Pending,
)
    requires
        0 <= a <= b <= steps.len(),
        table_after(start, steps, a).contains_key(token),
        table_after(start, steps, a)[token] == slot,
        forall|k: int| a <= k < b ==> !disturbs(#[trigger] steps[k], token, slot),
    ensures
        table_after(start, steps, b).contains_key(token),
        table_after(start, steps, b)[token] == slot,
    decreases b - a,
{
    if a < b {
        lemma_entry_stays(start, steps, a, b - 1, token, slot);
        assert(!disturbs(steps[b - 1], token, slot));
    }
}

/// An entry that was not there and now is was registered in between; the
/// last such registration put in the slot that stands there.
proof fn lemma_entry_was_registered<C>(
    start: Map<u64, Pending>,
    steps: Seq<Step<C>>,
    a: int,
    b: int,
    token: u64,
) -> (m: int)
    requires
        0 <= a <= b <= steps.len(),
        !table_after(start, steps, a).contains_key(token),
        table_after(start, steps, b).contains_key(token),
    ensures
        a <= m,
        last_registration(steps, m, b, token),
        steps[m]->slot == table_after(start, steps, b)[token],
    decreases b - a,
{
    let step = steps[b - 1];
    if registers(step, token) {
        b - 1
    } else {
        let before = table_after(start, steps, b - 1);
        assert(before.contains_key(token) && before[token] == table_after(
            start,
            steps,
            b,
        )[token]);
        let m = lemma_entry_was_registered(start, steps, a, b - 1, token);
        assert forall|k: int| m < k < b implies !registers(#[trigger] steps[k], token) && !(
        steps[k] is Shutdown) by {
            if k == b - 1 {
                assert(!(step is Shutdown));
            }
        }
        m
    }
}

/// No cross-delivery. In a run that began with an empty table, a result
/// that is handed out goes to the reply slot of the call that was last
/// registered under the event's token, and it is that event's result.
pub proof fn law_result_reaches_the_caller_that_started_it<C>(steps: Seq<Step<C>>, j: int)
    requires
        0 <= j < steps.len(),
        delivered_at(Map::empty(), steps, j) is Some,
    ensures
        steps[j] is Report,
        token_of(steps[j]->event) is Some,
        exists|i: int|
            {
                &&& #[trigger] last_registration(steps, i, j, token_of(steps[j]->event)->0)
                &&& answers(steps[j]->event, steps[i]->slot)
                &&& delivered_at(Map::empty(), steps, j) == Some(
                    delivery_of(steps[i]->slot, steps[j]->event),
                )
            },
{
    let event = steps[j]->event;
    let table = table_after(Map::<u64, Pending>::empty(), steps, j);
    law_delivery_follows_the_token(table, event);
    let token = token_of(event)->0;
    let i = lemma_entry_was_registered(Map::empty(), steps, 0, j, token);
    assert(last_registration(steps, i, j, token));
}

/// At most one result per call. Two results handed out for the same token
/// belong to two calls: a reply slot was registered under the token in
/// between.
pub proof fn law_at_most_one_result_per_call<C>(
    start: Map<u64, Pending>,
    steps: Seq<Step<C>>,
    j: int,
    k: int,
    token: u64,
)
    requires
        0 <= j < k < steps.len(),
        completes(steps[j], token),
        completes(steps[k], token),
        delivered_at(start, steps, j) is Some,
        delivered_at(start, steps, k) is Some,
    ensures
        exists|m: int| j < m < k && registers(#[trigger] steps[m], token),
{
    law_delivery_follows_the_token(table_after(start, steps, j), steps[j]->event);
    law_delivery_follows_the_token(table_after(start, steps, k), steps[k]->event);
    assert(table_after(start, steps, j + 1) == table_step(
        table_after(start, steps, j),
        steps[j],
    ));
    let m = lemma_entry_was_registered(start, steps, j + 1, k, token);
    assert(registers(steps[m], token));
}

/// Every call resolves, in whatever order the engine completes others. Once
/// a reply slot is registered, the first completion of its kind for its
/// token hands the event's result to that slot, whatever was registered,
/// completed or dropped for other tokens in the meantime.
pub proof fn law_every_registered_call_resolves<C>(
    start: Map<u64, Pending>,
    steps: Seq<Step<C>>,
    i: int,
    j: int,
)
    requires
        0 <= i < j < steps.len(),
        steps[i] is Register,
        completes(steps[j], steps[i]->token),
        answers(steps[j]->event, steps[i]->slot),
        forall|k: int| i < k < j ==> !disturbs(#[trigger] steps[k], steps[i]->token, steps[i]->slot),
    ensures
        delivered_at(start, steps, j) == Some(delivery_of(steps[i]->slot, steps[j]->event)),
{
    assert(table_after(start, steps, i + 1) == table_step(
        table_after(start, steps, i),
        steps[i],
    ));
    lemma_entry_stays(start, steps, i + 1, j, steps[i]->token, steps[i]->slot);
    law_delivery_follows_the_token(table_after(start, steps, j), steps[j]->event);
}

/// The run in which `calls` are registered one after another and the engine
/// then reports `reports` in their order.
pub open spec fn calls_then_reports<C>(
    calls: Seq<(u64, Pending)>,
    reports: Seq<EngineEvent<C>>,
) -> Seq<Step<C>> {
    Seq::new(
        calls.len() + reports.len(),
        |n: int|
            if n < calls.len() {
                Step::Register { token: calls[n].0, slot: calls[n].1 }
            } else {
                Step::Report { event: reports[n - calls.len()] }
            },
    )
}

/// Completion order is free. Let any number of calls be outstanding under
/// distinct tokens, and let the engine complete each operation at most
/// once, in any order. Then the report that completes a call hands its
/// result to that call's reply slot, wherever in the order it stands.
pub proof fn law_all_resolve_in_any_completion_order<C>(
    calls: Seq<(u64, Pending)>,
    reports: Seq<EngineEvent<C>>,
    i: int,
    j: int,
)
    requires
        forall|a: int, b: int|
            0 <= a < b < calls.len() ==> (#[trigger] calls[a]).0 != (#[trigger] calls[b]).0,
        forall|a: int, b: int|
            0 <= a < b < reports.len() && token_of(#[trigger] reports[a]) is Some ==> token_of(
                reports[a],
            ) != token_of(#[trigger] reports[b]),
        0 <= i < calls.len(),
        0 <= j < reports.len(),
        token_of(reports[j]) == Some(calls[i].0),
        answers(reports[j], calls[i].1),
    ensures
        delivered_at(Map::empty(), calls_then_reports(calls, reports), calls.len() + j) == Some(
            delivery_of(calls[i].1, reports[j]),
        ),
{
    let steps = calls_then_reports(calls, reports);
    let n = calls.len() as int;
    assert forall|k: int| i < k < n + j implies !disturbs(
        #[trigger] steps[k],
        calls[i].0,
        calls[i].1,
    ) by {
        if k < n {
            assert(calls[i].0 != calls[k].0);
        } else {
            assert(token_of(reports[k - n]) != token_of(reports[j]));
        }
    }
    law_every_registered_call_resolves(Map::empty(), steps, i, n + j);
}

/// What is outstanding at shutdown is never answered: a result that is
/// handed out after a shutdown belongs to a call that was registered after
/// it.
pub proof fn law_shutdown_abandons_what_is_outstanding<C>(
    start: Map<u64, Pending>,
    steps: Seq<Step<C>>,
    s: int,
    j: int,
)
    requires
        0 <= s < j < steps.len(),
        steps[s] is Shutdown,
        delivered_at(start, steps, j) is Some,
    ensures
        table_after(start, steps, s + 1) == Map::<u64, Pending>::empty(),
        exists|m: int| s < m < j && registers(#[trigger] steps[m], token_of(steps[j]->event)->0),
{
    law_delivery_follows_the_token(table_after(start, steps, j), steps[j]->event);
    assert(table_after(start, steps, s + 1) == table_step(
        table_after(start, steps, s),
        steps[s],
    ));
    let token = token_of(steps[j]->event)->0;
    let m = lemma_entry_was_registered(start, steps, s + 1, j, token);
    assert(registers(steps[m], token));
}

} // verus!

//! What a whole call does: the phase after a sequence of events, how many
//! exchanges and deserializations it asked for, and the laws of these.
use crate::dispatch::{next_action, next_phase, Action, Event, Phase};
use vstd::prelude::*;

verus! {

/// The phase after taking in `evs` in order, starting from `p`.
pub open spec fn phase_after<T>(p: Phase, timed: bool, evs: Seq<Event<T>>) -> Phase
    decreases evs.len(),
{
    if evs.len() == 0 {
        p
    } else {
        next_phase(phase_after(p, timed, evs.drop_last()), timed, evs.last())
    }
}

/// The action that the last of `evs` called for.
pub open spec fn last_action<T>(p: Phase, timed: bool, evs: Seq<Event<T>>) -> Action<T>
    recommends
        evs.len() > 0,
{
    next_action(phase_after(p, timed, evs.drop_last()), timed, evs.last())
}

/// How many connector exchanges the events called for.
pub open spec fn exchanges<T>(p: Phase, timed: bool, evs: Seq<Event<T>>) -> nat
    decreases evs.len(),
{
    if evs.len() == 0 {
        0
    } else {
        exchanges(p, timed, evs.drop_last()) + if last_action(p, timed, evs) is Exchange {
            1nat
        } else {
            0nat
        }
    }
}

/// How many deserializations the events called for.
pub open spec fn deserializations<T>(p: Phase, timed: bool, evs: Seq<Event<T>>) -> nat
    decreases evs.len(),
{
    if evs.len() == 0 {
        0
    } else {
        deserializations(p, timed, evs.drop_last()) + if last_action(p, timed, evs) is Deserialize {
            1nat
        } else {
            0nat
        }
    }
}

/// Taking in `a` and then `b` is taking in `a + b`.
pub proof fn lemma_runs_compose<T>(p: Phase, timed: bool, a: Seq<Event<T>>, b: Seq<Event<T>>)
    ensures
        phase_after(p, timed, a + b) == phase_after(phase_after(p, timed, a), timed, b),
        exchanges(p, timed, a + b) == exchanges(p, timed, a) + exchanges(
            phase_after(p, timed, a),
            timed,
            b,
        ),
        deserializations(p, timed, a + b) == deserializations(p, timed, a) + deserializations(
            phase_after(p, timed, a),
            timed,
            b,
        ),
    decreases b.len(),
{
    if b.len() == 0 {
        assert(a + b =~= a);
    } else {
        lemma_runs_compose(p, timed, a, b.drop_last());
        assert((a + b).drop_last() =~= a + b.drop_last());
        assert((a + b).last() == b.last());
    }
}

/// A settled call stays where it is and asks for nothing more, whatever
/// events still arrive.
pub proof fn lemma_settled_is_final<T>(p: Phase, timed: bool, evs: Seq<Event<T>>)
    requires
        p.settled(),
    ensures
        phase_after(p, timed, evs) == p,
        exchanges(p, timed, evs) == 0,
        deserializations(p, timed, evs) == 0,
        evs.len() > 0 ==> last_action(p, timed, evs) is Wait,
    decreases evs.len(),
{
    if evs.len() > 0 {
        lemma_settled_is_final(p, timed, evs.drop_last());
    }
}

/// Counts of a call from its start, by the phase it has reached.
proof fn lemma_counts_by_phase<T>(timed: bool, evs: Seq<Event<T>>)
    ensures
        exchanges(Phase::Serializing, timed, evs) <= 1,
        deserializations(Phase::Serializing, timed, evs) <= exchanges(
            Phase::Serializing,
            timed,
            evs,
        ),
        phase_after(Phase::Serializing, timed, evs) is Serializing ==> exchanges(
            Phase::Serializing,
            timed,
            evs,
        ) == 0,
        phase_after(Phase::Serializing, timed, evs) is AwaitingTransport ==> exchanges(
            Phase::Serializing,
            timed,
            evs,
        ) == 1 && deserializations(Phase::Serializing, timed, evs) == 0,
        phase_after(Phase::Serializing, timed, evs) is Deserializing || phase_after(
            Phase::Serializing,
            timed,
            evs,
        ) is Done ==> exchanges(Phase::Serializing, timed, evs) == 1 && deserializations(
            Phase::Serializing,
            timed,
            evs,
        ) == 1,
    decreases evs.len(),
{
    if evs.len() > 0 {
        lemma_counts_by_phase(timed, evs.drop_last());
    }
}

/// Whatever events arrive, a call asks the connector at most once and
/// deserializes at most once; a call that has delivered its response has
/// done each exactly once.
pub proof fn lemma_one_exchange_per_call<T>(timed: bool, evs: Seq<Event<T>>)
    ensures
        exchanges(Phase::Serializing, timed, evs) <= 1,
        deserializations(Phase::Serializing, timed, evs) <= 1,
        phase_after(Phase::Serializing, timed, evs) is Done ==> exchanges(
            Phase::Serializing,
            timed,
            evs,
        ) == 1 && deserializations(Phase::Serializing, timed, evs) == 1,
{
    lemma_counts_by_phase(timed, evs);
}

/// Whatever has happened by some point of a call, and whatever events come
/// after it, the whole call asks the connector at most once and deserializes
/// at most once.
pub proof fn lemma_continuation_bounded<T>(timed: bool, pre: Seq<Event<T>>, rest: Seq<Event<T>>)
    ensures
        exchanges(Phase::Serializing, timed, pre) + exchanges(
            phase_after(Phase::Serializing, timed, pre),
            timed,
            rest,
        ) <= 1,
        deserializations(Phase::Serializing, timed, pre) + deserializations(
            phase_after(Phase::Serializing, timed, pre),
            timed,
            rest,
        ) <= 1,
{
    lemma_runs_compose(Phase::Serializing, timed, pre, rest);
    lemma_counts_by_phase(timed, pre + rest);
}

/// A call whose request serializes, whose connector answers, and whose reply
/// reads as `v`, responds with `v`, with or without a deadline that has not
/// passed.
pub proof fn lemma_round_trip<T>(
    timed: bool,
    q: telegram_bot_raw::HttpRequest,
    resp: telegram_bot_raw::HttpResponse,
    v: T,
)
    ensures
        ({
            let evs = seq![
                Event::Serialized(Ok(q)),
                Event::Exchanged(Ok(resp)),
                Event::Deserialized(Ok(v)),
            ];
            &&& phase_after(Phase::Serializing, timed, evs) is Done
            &&& last_action(Phase::Serializing, timed, evs) == Action::Respond(v)
            &&& exchanges(Phase::Serializing, timed, evs) == 1
        }),
{
    let e1 = seq![Event::<T>::Serialized(Ok(q))];
    let e2 = e1.push(Event::Exchanged(Ok(resp)));
    let evs = e2.push(Event::Deserialized(Ok(v)));
    assert(e1.drop_last() =~= Seq::<Event<T>>::empty());
    assert(phase_after(Phase::Serializing, timed, e1.drop_last()) is Serializing);
    assert(exchanges(Phase::Serializing, timed, e1.drop_last()) == 0);
    assert(e1.last() == Event::<T>::Serialized(Ok(q)));
    assert(phase_after(Phase::Serializing, timed, e1) is AwaitingTransport);
    assert(exchanges(Phase::Serializing, timed, e1) == 1);
    assert(e2.drop_last() =~= e1);
    assert(phase_after(Phase::Serializing, timed, e2) is Deserializing);
    assert(exchanges(Phase::Serializing, timed, e2) == 1);
    assert(evs.drop_last() =~= e2);
    assert(evs =~= seq![
        Event::Serialized(Ok(q)),
        Event::Exchanged(Ok(resp)),
        Event::Deserialized(Ok(v)),
    ]);
}

/// A call whose serialize step fails never reaches the connector nor the
/// deserialize step, whatever events follow.
pub proof fn lemma_serialize_failure_skips_connector<T>(
    timed: bool,
    pre: Seq<Event<T>>,
    x: telegram_bot_raw::Error,
    rest: Seq<Event<T>>,
)
    requires
        phase_after(Phase::Serializing, timed, pre) is Serializing,
    ensures
        ({
            let evs = pre.push(Event::Serialized(Err(x))) + rest;
            &&& exchanges(Phase::Serializing, timed, evs) == 0
            &&& deserializations(Phase::Serializing, timed, evs) == 0
            &&& phase_after(Phase::Serializing, timed, evs) is Failed
        }),
{
    let a = pre.push(Event::<T>::Serialized(Err(x)));
    lemma_counts_by_phase(timed, pre);
    lemma_counts_by_phase(timed, a);
    assert(a.drop_last() =~= pre);
    lemma_runs_compose(Phase::Serializing, timed, a, rest);
    lemma_settled_is_final(Phase::Failed, timed, rest);
}

/// A call whose connector fails never deserializes, whatever events follow.
pub proof fn lemma_transport_failure_skips_deserialize<T>(
    timed: bool,
    pre: Seq<Event<T>>,
    x: crate::errors::ApiError,
    rest: Seq<Event<T>>,
)
    requires
        phase_after(Phase::Serializing, timed, pre) is AwaitingTransport,
    ensures
        ({
            let evs = pre.push(Event::Exchanged(Err(x))) + rest;
            &&& deserializations(Phase::Serializing, timed, evs) == 0
            &&& phase_after(Phase::Serializing, timed, evs) is Failed
        }),
{
    let a = pre.push(Event::<T>::Exchanged(Err(x)));
    lemma_counts_by_phase(timed, pre);
    assert(a.drop_last() =~= pre);
    lemma_runs_compose(Phase::Serializing, timed, a, rest);
    lemma_settled_is_final(Phase::Failed, timed, rest);
}

/// A call without a deadline never expires: no event sequence leads it to
/// `Expired`, nor has it ask for `Expire`.
pub proof fn lemma_untimed_never_expires<T>(evs: Seq<Event<T>>)
    ensures
        !(phase_after(Phase::Serializing, false, evs) is Expired),
        evs.len() > 0 ==> !(last_action(Phase::Serializing, false, evs) is Expire),
    decreases evs.len(),
{
    if evs.len() > 0 {
        lemma_untimed_never_expires(evs.drop_last());
    }
}

/// An expired timed call met its deadline before it settled.
proof fn lemma_expiry_has_cause<T>(evs: Seq<Event<T>>)
    requires
        phase_after(Phase::Serializing, true, evs) is Expired,
    ensures
        exists|i: int|
            0 <= i < evs.len() && #[trigger] evs[i] is DeadlineElapsed && !phase_after(
                Phase::Serializing,
                true,
                evs.take(i),
            ).settled(),
    decreases evs.len(),
{
    let n = evs.len() - 1;
    let init = evs.drop_last();
    if phase_after(Phase::Serializing, true, init) is Expired {
        lemma_expiry_has_cause(init);
        let i = choose|i: int|
            0 <= i < init.len() && #[trigger] init[i] is DeadlineElapsed && !phase_after(
                Phase::Serializing,
                true,
                init.take(i),
            ).settled();
        assert(evs.take(i) =~= init.take(i));
        assert(evs[i] == init[i]);
    } else {
        assert(evs.take(n) =~= init);
        assert(evs[n] is DeadlineElapsed);
    }
}

/// A deadline that passes before a timed call has settled expires it.
proof fn lemma_deadline_expires<T>(evs: Seq<Event<T>>, i: int)
    requires
        0 <= i < evs.len(),
        evs[i] is DeadlineElapsed,
        !phase_after(Phase::Serializing, true, evs.take(i)).settled(),
    ensures
        phase_after(Phase::Serializing, true, evs) is Expired,
    decreases evs.len(),
{
    let n = evs.len() - 1;
    let init = evs.drop_last();
    if i == n {
        assert(evs.take(i) =~= init);
    } else {
        assert(evs.take(i) =~= init.take(i));
        lemma_deadline_expires(init, i);
    }
}

/// A timed call expires exactly when its deadline passes before it has
/// settled.
pub proof fn lemma_expires_iff_deadline_first<T>(evs: Seq<Event<T>>)
    ensures
        phase_after(Phase::Serializing, true, evs) is Expired <==> exists|i: int|
            0 <= i < evs.len() && #[trigger] evs[i] is DeadlineElapsed && !phase_after(
                Phase::Serializing,
                true,
                evs.take(i),
            ).settled(),
{
    if phase_after(Phase::Serializing, true, evs) is Expired {
        lemma_expiry_has_cause(evs);
    }
    if exists|i: int|
        0 <= i < evs.len() && #[trigger] evs[i] is DeadlineElapsed && !phase_after(
            Phase::Serializing,
            true,
            evs.take(i),
        ).settled() {
        let i = choose|i: int|
            0 <= i < evs.len() && #[trigger] evs[i] is DeadlineElapsed && !phase_after(
                Phase::Serializing,
                true,
                evs.take(i),
            ).settled();
        lemma_deadline_expires(evs, i);
    }
}

/// The event that a call awaits in each phase is always answered: with the
/// next action of the call, or with its outcome, never with `Wait`.
pub proof fn lemma_awaited_event_is_answered<T>(
    timed: bool,
    ser: Result<telegram_bot_raw::HttpRequest, telegram_bot_raw::Error>,
    ex: Result<telegram_bot_raw::HttpResponse, crate::errors::ApiError>,
    de: Result<T, telegram_bot_raw::Error>,
)
    ensures
        !(next_action(Phase::Serializing, timed, Event::<T>::Serialized(ser)) is Wait),
        !(next_action(Phase::AwaitingTransport, timed, Event::<T>::Exchanged(ex)) is Wait),
        !(next_action(Phase::Deserializing, timed, Event::Deserialized(de)) is Wait),
        timed ==> forall|p: Phase|
            !p.settled() ==> #[trigger] next_action::<T>(p, timed, Event::DeadlineElapsed) is Expire,
{
}

/// The deadline is never an error: it leads to `Expire` or to nothing.
pub proof fn lemma_deadline_is_no_error<T>(p: Phase, timed: bool)
    ensures
        next_action::<T>(p, timed, Event::DeadlineElapsed) is Expire || next_action::<T>(
            p,
            timed,
            Event::DeadlineElapsed,
        ) is Wait,
{
}

/// Once a deadline has passed on an unsettled timed call, the call is over:
/// it asked for `Expire`, and no later event leads to an exchange or a
/// deserialization.
pub proof fn lemma_expiry_ends_call<T>(pre: Seq<Event<T>>, rest: Seq<Event<T>>)
    requires
        !phase_after(Phase::Serializing, true, pre).settled(),
    ensures
        ({
            let a = pre.push(Event::DeadlineElapsed);
            &&& last_action(Phase::Serializing, true, a) is Expire
            &&& phase_after(Phase::Serializing, true, a + rest) is Expired
            &&& exchanges(Phase::Serializing, true, a + rest) == exchanges(
                Phase::Serializing,
                true,
                pre,
            )
            &&& deserializations(Phase::Serializing, true, a + rest) == deserializations(
                Phase::Serializing,
                true,
                pre,
            )
        }),
{
    let a = pre.push(Event::<T>::DeadlineElapsed);
    assert(a.drop_last() =~= pre);
    lemma_runs_compose(Phase::Serializing, true, a, rest);
    lemma_settled_is_final(Phase::Expired, true, rest);
}

} // verus!

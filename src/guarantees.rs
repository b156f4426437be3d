//! What every run of the controller guarantees, whatever its caller reports:
//! it ends within its budgets, and the objective rises with every step taken.
use crate::irls::{Event, IrlsConfig, IrlsState, Phase, Trend};
use vstd::prelude::*;

verus! {

/// The state after the caller's answers `events`; answers that come after
/// the fit ended change nothing.
pub open spec fn run(s: IrlsState, events: Seq<Event>) -> IrlsState
    decreases events.len(),
{
    if events.len() == 0 || s.is_done() {
        s
    } else {
        run(s.next(events[0]), events.drop_first())
    }
}

/// Every answer in `events`, up to the end of the fit, answers the action
/// that the controller asked for.
pub open spec fn answers(s: IrlsState, events: Seq<Event>) -> bool
    decreases events.len(),
{
    ||| events.len() == 0
    ||| s.is_done()
    ||| s.expects(events[0]) && answers(s.next(events[0]), events.drop_first())
}

/// A bound on the number of answers the fit still takes before it ends: at
/// most `max_halvings + 2` for each iteration not yet begun (one solve and
/// every evaluation down to the smallest step), and the evaluations left in
/// the current step.
pub open spec fn budget(s: IrlsState) -> nat {
    let per_iteration = s.config.max_halvings + 2;
    let later = (s.config.max_iterations - s.iteration) * per_iteration;
    match s.phase {
        Phase::Solve => later as nat,
        Phase::Evaluate => (s.config.max_halvings + 1 - s.halvings + later) as nat,
        _ => 0,
    }
}

proof fn lemma_budget_positive(s: IrlsState)
    requires
        s.wf(),
        !s.is_done(),
    ensures
        budget(s) >= 1,
{
    let per_iteration = s.config.max_halvings + 2;
    let left = s.config.max_iterations - s.iteration;
    assert(left >= 0);
    assert(left * per_iteration >= 0) by (nonlinear_arith)
        requires
            left >= 0,
            per_iteration >= 2,
    ;
    if s.phase is Solve {
        assert(left * per_iteration >= 2) by (nonlinear_arith)
            requires
                left >= 1,
                per_iteration >= 2,
        ;
    }
}

proof fn lemma_step(s: IrlsState, e: Event)
    requires
        s.wf(),
        s.expects(e),
    ensures
        s.next(e).wf(),
        budget(s.next(e)) < budget(s),
{
    let t = s.next(e);
    lemma_budget_positive(s);
    let per_iteration = s.config.max_halvings + 2;
    let left = s.config.max_iterations - s.iteration;
    assert(left * per_iteration >= 0) by (nonlinear_arith)
        requires
            left >= 0,
            per_iteration >= 2,
    ;
    if s.phase is Solve && e is Solved {
        assert(left * per_iteration == (left - 1) * per_iteration + per_iteration)
            by (nonlinear_arith);
        assert((left - 1) * per_iteration >= 0) by (nonlinear_arith)
            requires
                left >= 1,
                per_iteration >= 2,
        ;
    }
    if !t.is_done() {
        lemma_budget_positive(t);
    }
}

proof fn lemma_run(s: IrlsState, events: Seq<Event>)
    requires
        s.wf(),
        answers(s, events),
    ensures
        run(s, events).wf(),
        run(s, events).config == s.config,
        events.len() >= budget(s) ==> run(s, events).is_done(),
    decreases events.len(),
{
    if events.len() == 0 || s.is_done() {
        if !s.is_done() {
            lemma_budget_positive(s);
        }
    } else {
        lemma_step(s, events[0]);
        lemma_run(s.next(events[0]), events.drop_first());
    }
}

/// Bounded iteration: whatever its caller observes, a fit never begins more
/// than `max_iterations` iterations nor halves a step more than
/// `max_halvings` times, and it has ended once it has been answered
/// `max_iterations * (max_halvings + 2)` times.
pub proof fn lemma_fit_terminates(config: IrlsConfig, events: Seq<Event>)
    requires
        answers(IrlsState::start(config), events),
    ensures
        run(IrlsState::start(config), events).iteration <= config.max_iterations,
        run(IrlsState::start(config), events).halvings <= config.max_halvings,
        events.len() >= config.max_iterations * (config.max_halvings + 2) ==> run(
            IrlsState::start(config),
            events,
        ).is_done(),
{
    let s = IrlsState::start(config);
    lemma_run(s, events);
}

/// What the caller observed, with the objective as a number.
pub enum Observation {
    Solved,
    Singular,
    Objective { value: int, within_tolerance: bool },
}

/// How `value` compares with the objective `held`.
pub open spec fn trend_of(value: int, held: int) -> Trend {
    if value > held {
        Trend::Increased
    } else if value == held {
        Trend::Unchanged
    } else {
        Trend::Decreased
    }
}

/// The answer a caller gives for observation `o` while holding objective `held`.
pub open spec fn event_of(o: Observation, held: int) -> Event {
    match o {
        Observation::Solved => Event::Solved,
        Observation::Singular => Event::Singular,
        Observation::Objective { value, within_tolerance } => Event::Evaluated {
            trend: trend_of(value, held),
            within_tolerance,
        },
    }
}

/// The objective once observation `o` is answered: the new value where the
/// step is taken, else `held`.
pub open spec fn held_after(s: IrlsState, o: Observation, held: int) -> int {
    match o {
        Observation::Objective { value, .. } => if s.accepts(event_of(o, held)) {
            value
        } else {
            held
        },
        _ => held,
    }
}

/// The objectives at the coefficients the fit takes, in turn, when it starts
/// in `s` holding objective `held` and observes `obs`.
pub open spec fn accepted_objectives(s: IrlsState, held: int, obs: Seq<Observation>) -> Seq<int>
    decreases obs.len(),
{
    if obs.len() == 0 || s.is_done() {
        seq![]
    } else {
        let e = event_of(obs[0], held);
        let rest = accepted_objectives(s.next(e), held_after(s, obs[0], held), obs.drop_first());
        if s.accepts(e) {
            seq![held_after(s, obs[0], held)] + rest
        } else {
            rest
        }
    }
}

proof fn lemma_accepted_rise(s: IrlsState, held: int, obs: Seq<Observation>)
    ensures
        forall|i: int|
            0 <= i < accepted_objectives(s, held, obs).len() ==> held < #[trigger] accepted_objectives(
                s,
                held,
                obs,
            )[i],
        forall|i: int, j: int|
            0 <= i < j < accepted_objectives(s, held, obs).len() ==> #[trigger] accepted_objectives(
                s,
                held,
                obs,
            )[i] < #[trigger] accepted_objectives(s, held, obs)[j],
    decreases obs.len(),
{
    if obs.len() > 0 && !s.is_done() {
        let e = event_of(obs[0], held);
        let now = held_after(s, obs[0], held);
        lemma_accepted_rise(s.next(e), now, obs.drop_first());
        let rest = accepted_objectives(s.next(e), now, obs.drop_first());
        if s.accepts(e) {
            let all = accepted_objectives(s, held, obs);
            assert(all == seq![now] + rest);
            assert(held < now);
            assert forall|i: int, j: int| 0 <= i < j < all.len() implies all[i] < all[j] by {
                if i > 0 {
                    assert(all[i] == rest[i - 1]);
                }
                assert(all[j] == rest[j - 1]);
            }
        }
    }
}

/// Monotonic objective: starting from a held objective `held`, the objectives
/// at the coefficients that a fit takes, in the order taken, each exceed the
/// one held before, whatever the caller observes.
pub proof fn lemma_objective_rises(config: IrlsConfig, held: int, obs: Seq<Observation>)
    ensures
        forall|i: int|
            0 <= i < accepted_objectives(IrlsState::start(config), held, obs).len()
                ==> held < #[trigger] accepted_objectives(IrlsState::start(config), held, obs)[i],
        forall|i: int|
            0 < i < accepted_objectives(IrlsState::start(config), held, obs).len()
                ==> #[trigger] accepted_objectives(IrlsState::start(config), held, obs)[i - 1]
                < accepted_objectives(IrlsState::start(config), held, obs)[i],
{
    let all = accepted_objectives(IrlsState::start(config), held, obs);
    lemma_accepted_rise(IrlsState::start(config), held, obs);
    assert forall|i: int| 0 < i < all.len() implies #[trigger] all[i - 1] < all[i] by {
        assert(all[i - 1] < all[i]);
    }
}

} // verus!

//! Whole runs of the acquisition state machine: what it emits over a
//! sequence of signals, and what holds of every run.

use vstd::prelude::*;
use crate::classifier::classify_spec;
use crate::machine::{
    ending_succeeds, finished, initial_progress, is_retry, on_order_retry, spent_spec, transition_spec,
    CheckFault, Ending, GrabMode, Phase, Progress, RetryBudget, Signal, Transition,
};

verus! {

/// Where an attempt stands after a sequence of signals.
pub open spec fn run_state(p: Progress, signals: Seq<Signal>, budget: RetryBudget, mode: GrabMode) -> Progress
    decreases signals.len(),
{
    if signals.len() == 0 {
        p
    } else {
        run_state(
            transition_spec(p, signals[0], budget, mode).0,
            signals.drop_first(),
            budget,
            mode,
        )
    }
}

/// What an attempt asks of its driver over a sequence of signals, one
/// transition per signal.
pub open spec fn run_outputs(p: Progress, signals: Seq<Signal>, budget: RetryBudget, mode: GrabMode) -> Seq<
    Transition,
>
    decreases signals.len(),
{
    if signals.len() == 0 {
        Seq::empty()
    } else {
        seq![transition_spec(p, signals[0], budget, mode).1] + run_outputs(
            transition_spec(p, signals[0], budget, mode).0,
            signals.drop_first(),
            budget,
            mode,
        )
    }
}

/// How many results a sequence of transitions reports.
pub open spec fn count_done(outputs: Seq<Transition>) -> nat
    decreases outputs.len(),
{
    if outputs.len() == 0 {
        0
    } else {
        (if outputs[0] is Done {
            1nat
        } else {
            0nat
        }) + count_done(outputs.drop_first())
    }
}

/// An order rejection that lets the same order be submitted again.
pub open spec fn is_retriable_rejection(signal: Signal) -> bool {
    signal matches Signal::OrderRejected(code) && is_retry(classify_spec(code as int))
}

/// A transition reports a result exactly when it takes the attempt from a
/// live phase to the end; once at the end, the attempt stays there and every
/// further signal is answered with `Halted`.
pub proof fn done_is_final(p: Progress, signal: Signal, budget: RetryBudget, mode: GrabMode)
    ensures
        transition_spec(p, signal, budget, mode).1 is Done <==> (p.phase !is Done && transition_spec(
            p,
            signal,
            budget,
            mode,
        ).0.phase is Done),
        p.phase is Done ==> transition_spec(p, signal, budget, mode) == (p, Transition::Halted),
{
}

proof fn count_done_of_prepend(first: Transition, rest: Seq<Transition>)
    ensures
        count_done(seq![first] + rest) == (if first is Done {
            1nat
        } else {
            0nat
        }) + count_done(rest),
{
    assert((seq![first] + rest).drop_first() =~= rest);
}

/// After the end no run reports anything.
pub proof fn nothing_after_done(p: Progress, signals: Seq<Signal>, budget: RetryBudget, mode: GrabMode)
    requires
        p.phase is Done,
    ensures
        count_done(run_outputs(p, signals, budget, mode)) == 0,
        run_state(p, signals, budget, mode) == p,
        forall|i: int|
            0 <= i < signals.len() ==> #[trigger] run_outputs(p, signals, budget, mode)[i]
                == Transition::Halted,
        run_outputs(p, signals, budget, mode).len() == signals.len(),
    decreases signals.len(),
{
    if signals.len() > 0 {
        let rest = signals.drop_first();
        nothing_after_done(p, rest, budget, mode);
        count_done_of_prepend(Transition::Halted, run_outputs(p, rest, budget, mode));
    }
}

/// Whatever signals arrive, in whatever order, an attempt reports at most
/// one result, and none once it is over.
pub proof fn at_most_one_result(p: Progress, signals: Seq<Signal>, budget: RetryBudget, mode: GrabMode)
    ensures
        count_done(run_outputs(p, signals, budget, mode)) <= 1,
        count_done(run_outputs(p, signals, budget, mode)) == 1 ==> run_state(
            p,
            signals,
            budget,
            mode,
        ).phase is Done,
    decreases signals.len(),
{
    if signals.len() > 0 {
        let step = transition_spec(p, signals[0], budget, mode);
        let rest = signals.drop_first();
        done_is_final(p, signals[0], budget, mode);
        count_done_of_prepend(step.1, run_outputs(step.0, rest, budget, mode));
        if step.0.phase is Done {
            nothing_after_done(step.0, rest, budget, mode);
        } else {
            at_most_one_result(step.0, rest, budget, mode);
        }
    }
}

/// Order creation that is rejected again and again, each time in a way that
/// allows another try, uses up the order budget: outside scalping, as many
/// such rejections in a row as the budget counts are answered with retries
/// up to the last one, which ends the attempt with the one and only result,
/// a failure.
pub proof fn order_budget_exhaustion(p: Progress, signals: Seq<Signal>, budget: RetryBudget, mode: GrabMode)
    requires
        mode !is Leak,
        p.phase is CreateOrder,
        signals.len() >= 1,
        p.order_retry + signals.len() == budget.max_order_retry,
        forall|i: int| 0 <= i < signals.len() ==> is_retriable_rejection(#[trigger] signals[i]),
    ensures
        run_outputs(p, signals, budget, mode).len() == signals.len(),
        forall|i: int|
            0 <= i < signals.len() - 1 ==> #[trigger] run_outputs(p, signals, budget, mode)[i] is Retry,
        run_outputs(p, signals, budget, mode)[signals.len() - 1] == Transition::Done(
            Ending::OrderExhausted,
        ),
        count_done(run_outputs(p, signals, budget, mode)) == 1,
        !ending_succeeds(Ending::OrderExhausted),
        run_state(p, signals, budget, mode).phase is Done,
    decreases signals.len(),
{
    let step = transition_spec(p, signals[0], budget, mode);
    let rest = signals.drop_first();
    let tail = run_outputs(step.0, rest, budget, mode);
    assert(is_retriable_rejection(signals[0]));
    count_done_of_prepend(step.1, tail);
    if signals.len() == 1 {
        assert(spent_spec(p.order_retry, budget.max_order_retry));
        assert(step.1 == Transition::Done(Ending::OrderExhausted));
        assert(rest.len() == 0);
        assert(tail =~= Seq::<Transition>::empty());
        assert(run_state(step.0, rest, budget, mode) == step.0);
    } else {
        assert(!spent_spec(p.order_retry, budget.max_order_retry));
        assert(step.1 is Retry);
        assert(step.0.phase is CreateOrder);
        assert(step.0.order_retry == p.order_retry + 1);
        assert forall|i: int| 0 <= i < rest.len() implies is_retriable_rejection(#[trigger] rest[i]) by {
            assert(rest[i] == signals[i + 1]);
        }
        order_budget_exhaustion(step.0, rest, budget, mode);
        let outputs = run_outputs(p, signals, budget, mode);
        assert forall|i: int| 0 <= i < signals.len() - 1 implies #[trigger] outputs[i] is Retry by {
            if i > 0 {
                assert(outputs[i] == tail[i - 1]);
            }
        }
        assert(outputs[signals.len() - 1] == tail[rest.len() - 1]);
    }
}

/// An order that turns out to be a phantom sends the attempt back to order
/// creation and nowhere else, as long as the order budget lasts: the token
/// and the confirmation stay in use, and neither token acquisition nor
/// confirmation is asked for.
pub proof fn fake_order_reenters_creation(p: Progress, budget: RetryBudget, mode: GrabMode)
    requires
        p.phase is VerifyNotFake,
        !spent_spec(p.order_retry, budget.max_order_retry),
    ensures
        transition_spec(p, Signal::OrderFake, budget, mode) == (
            Progress { phase: Phase::CreateOrder, order_retry: (p.order_retry + 1) as u32, ..p },
            Transition::Retry(budget.retry_interval_ms),
        ),
{
}

/// A phantom order never takes the attempt to token acquisition or to
/// confirmation, whatever the budget: it leads to order creation, or to the
/// end, or while scalping to the next target.
pub proof fn fake_order_never_reacquires(p: Progress, budget: RetryBudget, mode: GrabMode)
    requires
        p.phase is VerifyNotFake,
    ensures
        transition_spec(p, Signal::OrderFake, budget, mode).1 is Retry ==> transition_spec(
            p,
            Signal::OrderFake,
            budget,
            mode,
        ).0.phase is CreateOrder,
        transition_spec(p, Signal::OrderFake, budget, mode).1 is Retry || transition_spec(
            p,
            Signal::OrderFake,
            budget,
            mode,
        ).1 == Transition::Done(Ending::OrderExhausted) || (mode is Leak && transition_spec(
            p,
            Signal::OrderFake,
            budget,
            mode,
        ).1 is SwitchTarget),
{
}

/// When the order status cannot be established as often as the budget
/// counts, the attempt ends as a success: the order is presumed to stand.
pub proof fn check_budget_exhaustion(p: Progress, fault: CheckFault, budget: RetryBudget, mode: GrabMode)
    requires
        p.phase is VerifyNotFake,
        spent_spec(p.fake_retry, budget.max_fake_check_retry),
    ensures
        transition_spec(p, Signal::CheckFailed(fault), budget, mode) == (
            finished(p),
            Transition::Done(Ending::PresumedPlaced(fault)),
        ),
        ending_succeeds(Ending::PresumedPlaced(fault)),
{
}

/// A failed confirmation never touches the count of token refusals.
pub proof fn confirm_failure_spares_token_budget(p: Progress, budget: RetryBudget, mode: GrabMode)
    requires
        p.phase is ConfirmOrder,
    ensures
        transition_spec(p, Signal::ConfirmFailed, budget, mode).0.token_retry == p.token_retry,
{
}

/// Only scalping ever switches targets.
pub proof fn switch_target_only_in_leak(p: Progress, signal: Signal, budget: RetryBudget, mode: GrabMode)
    ensures
        transition_spec(p, signal, budget, mode).1 is SwitchTarget ==> mode is Leak,
{
}

/// The phantom order, from start to end: a token is granted, the order is
/// confirmed and created, the first order turns out to be a phantom, the
/// second is genuine. With a budget of at least two order creations, token
/// acquisition and confirmation are each asked for once and never again,
/// order creation and the check twice, nothing is reported for the phantom,
/// and the one result is the purchase.
pub proof fn phantom_order_scenario(budget: RetryBudget, mode: GrabMode)
    requires
        budget.max_order_retry >= 2,
    ensures
        ({
            let signals = seq![
                Signal::TokenGranted,
                Signal::Confirmed,
                Signal::OrderCreated,
                Signal::OrderFake,
                Signal::OrderCreated,
                Signal::OrderGenuine,
            ];
            let outputs = run_outputs(initial_progress(), signals, budget, mode);
            &&& outputs == seq![
                Transition::Continue(Phase::ConfirmOrder),
                Transition::Continue(Phase::CreateOrder),
                Transition::Continue(Phase::VerifyNotFake),
                Transition::Retry(budget.retry_interval_ms),
                Transition::Continue(Phase::VerifyNotFake),
                Transition::Done(Ending::Purchased),
            ]
            &&& count_done(outputs) == 1
            &&& run_state(initial_progress(), signals, budget, mode).phase is Done
        }),
{
    let signals = seq![
        Signal::TokenGranted,
        Signal::Confirmed,
        Signal::OrderCreated,
        Signal::OrderFake,
        Signal::OrderCreated,
        Signal::OrderGenuine,
    ];
    let p0 = initial_progress();
    let s1 = transition_spec(p0, signals[0], budget, mode);
    let s2 = transition_spec(s1.0, signals[1], budget, mode);
    let s3 = transition_spec(s2.0, signals[2], budget, mode);
    let s4 = transition_spec(s3.0, signals[3], budget, mode);
    let s5 = transition_spec(s4.0, signals[4], budget, mode);
    let s6 = transition_spec(s5.0, signals[5], budget, mode);
    let r1 = signals.drop_first();
    let r2 = r1.drop_first();
    let r3 = r2.drop_first();
    let r4 = r3.drop_first();
    let r5 = r4.drop_first();
    let r6 = r5.drop_first();
    assert(r1[0] == signals[1] && r2[0] == signals[2] && r3[0] == signals[3] && r4[0] == signals[4]
        && r5[0] == signals[5]);
    assert(r6.len() == 0);
    assert(run_outputs(s6.0, r6, budget, mode) =~= Seq::<Transition>::empty());
    assert(run_outputs(s5.0, r5, budget, mode) =~= seq![s6.1]);
    assert(run_outputs(s4.0, r4, budget, mode) =~= seq![s5.1, s6.1]);
    assert(run_outputs(s3.0, r3, budget, mode) =~= seq![s4.1, s5.1, s6.1]);
    assert(run_outputs(s2.0, r2, budget, mode) =~= seq![s3.1, s4.1, s5.1, s6.1]);
    assert(run_outputs(s1.0, r1, budget, mode) =~= seq![s2.1, s3.1, s4.1, s5.1, s6.1]);
    let outputs = run_outputs(p0, signals, budget, mode);
    assert(outputs =~= seq![s1.1, s2.1, s3.1, s4.1, s5.1, s6.1]);
    assert(run_state(s6.0, r6, budget, mode) == s6.0);
    assert(run_state(s5.0, r5, budget, mode) == s6.0);
    assert(run_state(s4.0, r4, budget, mode) == s6.0);
    assert(run_state(s3.0, r3, budget, mode) == s6.0);
    assert(run_state(s2.0, r2, budget, mode) == s6.0);
    assert(run_state(s1.0, r1, budget, mode) == s6.0);
    at_most_one_result(p0, signals, budget, mode);
    assert(count_done(outputs) >= 1) by {
        count_done_of_prepend(s6.1, Seq::<Transition>::empty());
        count_done_of_prepend(s5.1, seq![s6.1]);
        count_done_of_prepend(s4.1, seq![s5.1, s6.1]);
        count_done_of_prepend(s3.1, seq![s4.1, s5.1, s6.1]);
        count_done_of_prepend(s2.1, seq![s3.1, s4.1, s5.1, s6.1]);
        count_done_of_prepend(s1.1, seq![s2.1, s3.1, s4.1, s5.1, s6.1]);
        assert(seq![s6.1] + Seq::<Transition>::empty() =~= seq![s6.1]);
        assert(seq![s5.1] + seq![s6.1] =~= seq![s5.1, s6.1]);
        assert(seq![s4.1] + seq![s5.1, s6.1] =~= seq![s4.1, s5.1, s6.1]);
        assert(seq![s3.1] + seq![s4.1, s5.1, s6.1] =~= seq![s3.1, s4.1, s5.1, s6.1]);
        assert(seq![s2.1] + seq![s3.1, s4.1, s5.1, s6.1] =~= seq![s2.1, s3.1, s4.1, s5.1, s6.1]);
        assert(seq![s1.1] + seq![s2.1, s3.1, s4.1, s5.1, s6.1] =~= seq![
            s1.1,
            s2.1,
            s3.1,
            s4.1,
            s5.1,
            s6.1,
        ]);
    }
}

} // verus!

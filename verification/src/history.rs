//! Whole runs of the worker: what it prints and what it asks for over a
//! sequence of signals, and what holds of every such run.

use vstd::prelude::*;
use crate::worker::{
    awaited, initial_model, line_for, model_after_signal, output_for_signal, passes_detector,
    ErrorPolicy, Output, Phase, Request, Rules, Signal, Worker, WorkerEvent, WorkerModel,
    WorkerOutput,
};

verus! {

/// The worker after it has been told all of `signals`, one after the other.
pub open spec fn model_after(rules: Rules, start: WorkerModel, signals: Seq<Signal>) -> WorkerModel
    decreases signals.len(),
{
    if signals.len() == 0 {
        start
    } else {
        model_after_signal(rules, model_after(rules, start, signals.drop_last()), signals.last())
    }
}

/// What the worker hands back for the signal at position `i`.
pub open spec fn output_at(rules: Rules, start: WorkerModel, signals: Seq<Signal>, i: int) -> Output {
    output_for_signal(rules, model_after(rules, start, signals.take(i)), signals[i])
}

/// What the worker asks for once it has been told the signal at position `i`.
pub open spec fn request_after(
    rules: Rules,
    start: WorkerModel,
    signals: Seq<Signal>,
    i: int,
) -> Request {
    awaited(rules, model_after(rules, start, signals.take(i + 1)).phase)
}

/// The lines that `output` adds to standard output as state reports.
pub open spec fn emitted_by(output: Output) -> Seq<Seq<char>> {
    match output {
        Output::Emit(line) => seq![line],
        _ => Seq::empty(),
    }
}

/// The state reports the worker emits over `signals`, in order.
pub open spec fn emitted(rules: Rules, start: WorkerModel, signals: Seq<Signal>) -> Seq<Seq<char>>
    decreases signals.len(),
{
    if signals.len() == 0 {
        Seq::empty()
    } else {
        let before = signals.drop_last();
        emitted(rules, start, before) + emitted_by(
            output_for_signal(rules, model_after(rules, start, before), signals.last()),
        )
    }
}

/// The number of times the worker was told that it had taken a token.
pub open spec fn tokens_in(signals: Seq<Signal>) -> nat
    decreases signals.len(),
{
    if signals.len() == 0 {
        0
    } else {
        let one: nat = if signals.last() == Signal::TokenTaken {
            1
        } else {
            0
        };
        tokens_in(signals.drop_last()) + one
    }
}

/// The number of times the worker asked for a query over `signals`.
pub open spec fn queries_asked(rules: Rules, start: WorkerModel, signals: Seq<Signal>) -> nat
    decreases signals.len(),
{
    if signals.len() == 0 {
        0
    } else {
        let one: nat = if model_after(rules, start, signals).phase == Phase::Querying {
            1
        } else {
            0
        };
        queries_asked(rules, start, signals.drop_last()) + one
    }
}

/// The signals of one full cycle that ends with `outcome`: a token is taken,
/// the settle interval passes, the query returns.
pub open spec fn cycle(outcome: Signal) -> Seq<Signal> {
    seq![Signal::TokenTaken, Signal::SettleElapsed, outcome]
}

/// The signals of one full cycle for each of `states`, each query returning
/// the next state.
pub open spec fn cycles(states: Seq<Seq<char>>) -> Seq<Signal>
    decreases states.len(),
{
    if states.len() == 0 {
        Seq::empty()
    } else {
        cycles(states.drop_last()) + cycle(Signal::Snapshot(states.last()))
    }
}

/// The state that the detector compares the state at position `i` with: the
/// one queried before it, or for the first what had been emitted last.
pub open spec fn compared_with(last_emitted: Seq<char>, states: Seq<Seq<char>>, i: int) -> Seq<char> {
    if i == 0 {
        last_emitted
    } else {
        states[i - 1]
    }
}

/// The states that get reported out of `states`: all of them without
/// deduplication; with it, each one that differs from the one before.
pub open spec fn reported(dedupe: bool, last_emitted: Seq<char>, states: Seq<Seq<char>>) -> Seq<
    Seq<char>,
>
    decreases states.len(),
{
    if states.len() == 0 {
        Seq::empty()
    } else {
        let before = reported(dedupe, last_emitted, states.drop_last());
        if dedupe && states.last() == compared_with(last_emitted, states, states.len() - 1) {
            before
        } else {
            before.push(states.last())
        }
    }
}

/// Each of `states` rendered as a line.
pub open spec fn lines(label: Option<Seq<char>>, states: Seq<Seq<char>>) -> Seq<Seq<char>> {
    Seq::new(states.len(), |i: int| line_for(label, states[i]))
}

/// What each of `events` means.
pub open spec fn signals_of(events: Seq<WorkerEvent>) -> Seq<Signal> {
    Seq::new(events.len(), |i: int| events[i]@)
}

/// The text of each of `printed`.
pub open spec fn texts_of(printed: Seq<String>) -> Seq<Seq<char>> {
    Seq::new(printed.len(), |i: int| printed[i]@)
}

/// Runs a worker through a recorded sequence of events and collects the
/// state reports it emits.
pub fn replay(worker: &mut Worker, events: &Vec<WorkerEvent>) -> (printed: Vec<String>)
    ensures
        final(worker).rules() == old(worker).rules(),
        final(worker)@ == model_after(old(worker).rules(), old(worker)@, signals_of(events@)),
        texts_of(printed@) == emitted(old(worker).rules(), old(worker)@, signals_of(events@)),
{
    let ghost rules = worker.rules();
    let ghost start = worker@;
    let ghost signals = signals_of(events@);
    let mut printed: Vec<String> = Vec::new();
    let mut next: usize = 0;
    proof {
        assert(signals.take(0) =~= Seq::<Signal>::empty());
        assert(texts_of(printed@) =~= Seq::<Seq<char>>::empty());
    }
    while next < events.len()
        invariant
            next <= events.len(),
            signals == signals_of(events@),
            worker.rules() == rules,
            worker@ == model_after(rules, start, signals.take(next as int)),
            texts_of(printed@) == emitted(rules, start, signals.take(next as int)),
        decreases events.len() - next,
    {
        proof {
            assert(signals.take(next + 1).drop_last() =~= signals.take(next as int));
            assert(signals.take(next + 1).last() == events@[next as int]@);
        }
        let ghost before = printed@;
        let output = worker.step(events[next].clone());
        match output {
            WorkerOutput::Emit(line) => {
                printed.push(line);
                assert(texts_of(printed@) =~= texts_of(before) + seq![line@]);
            },
            _ => {
                assert(texts_of(printed@) =~= texts_of(before) + Seq::<Seq<char>>::empty());
            },
        }
        next = next + 1;
    }
    proof {
        assert(signals.take(events.len() as int) =~= signals);
    }
    printed
}

/// A run over `first` followed by `second` is the run over `first`
/// continued by the run over `second`.
pub proof fn lemma_run_in_two_parts(
    rules: Rules,
    start: WorkerModel,
    first: Seq<Signal>,
    second: Seq<Signal>,
)
    ensures
        model_after(rules, start, first + second) == model_after(
            rules,
            model_after(rules, start, first),
            second,
        ),
        emitted(rules, start, first + second) == emitted(rules, start, first) + emitted(
            rules,
            model_after(rules, start, first),
            second,
        ),
    decreases second.len(),
{
    if second.len() == 0 {
        assert(first + second =~= first);
    } else {
        assert((first + second).drop_last() =~= first + second.drop_last());
        assert((first + second).last() == second.last());
        lemma_run_in_two_parts(rules, start, first, second.drop_last());
    }
}

/// One full cycle from a waiting worker: the outcome is judged in the
/// querying phase, and nothing else is printed on the way there.
pub proof fn lemma_one_cycle(rules: Rules, start: WorkerModel, outcome: Signal)
    requires
        start.phase == Phase::AwaitingToken,
    ensures
        model_after(rules, start, cycle(outcome)) == model_after_signal(
            rules,
            WorkerModel { phase: Phase::Querying, ..start },
            outcome,
        ),
        emitted(rules, start, cycle(outcome)) == emitted_by(
            output_for_signal(rules, WorkerModel { phase: Phase::Querying, ..start }, outcome),
        ),
{
    let three = cycle(outcome);
    let two = seq![Signal::TokenTaken, Signal::SettleElapsed];
    let one = seq![Signal::TokenTaken];
    assert(three.drop_last() =~= two);
    assert(two.drop_last() =~= one);
    assert(one.drop_last() =~= Seq::<Signal>::empty());
    assert(model_after(rules, start, one.drop_last()) == start);
    assert(model_after(rules, start, one) == WorkerModel { phase: Phase::Settling, ..start });
    assert(model_after(rules, start, two) == WorkerModel { phase: Phase::Querying, ..start });
    assert(emitted(rules, start, one.drop_last()) =~= Seq::<Seq<char>>::empty());
    assert(emitted(rules, start, one) =~= Seq::<Seq<char>>::empty());
    assert(emitted(rules, start, two) =~= Seq::<Seq<char>>::empty());
    assert(emitted(rules, start, three) =~= emitted_by(
        output_for_signal(rules, WorkerModel { phase: Phase::Querying, ..start }, outcome),
    ));
}

/// Debounce: the worker asks for a query only in answer to the end of the
/// settle sleep, and it had asked for that sleep, of the configured length,
/// in answer to the token being taken just before.
pub proof fn lemma_query_only_after_settle(rules: Rules, signals: Seq<Signal>, i: int)
    requires
        0 <= i < signals.len(),
        request_after(rules, initial_model(), signals, i) == Request::Query,
    ensures
        i >= 1,
        signals[i] == Signal::SettleElapsed,
        signals[i - 1] == Signal::TokenTaken,
        request_after(rules, initial_model(), signals, i - 1) == Request::Sleep(rules.settle_ms),
{
    let start = initial_model();
    let upto = signals.take(i + 1);
    assert(upto.drop_last() =~= signals.take(i));
    assert(upto.last() == signals[i]);
    let before = model_after(rules, start, signals.take(i));
    assert(model_after(rules, start, upto) == model_after_signal(rules, before, signals[i]));
    assert(before.phase == Phase::Settling);
    if i == 0 {
        assert(signals.take(0) =~= Seq::<Signal>::empty());
        assert(false);
    }
    let earlier = signals.take(i);
    assert(earlier.drop_last() =~= signals.take(i - 1));
    assert(earlier.last() == signals[i - 1]);
    let origin = model_after(rules, start, signals.take(i - 1));
    assert(before == model_after_signal(rules, origin, signals[i - 1]));
}

/// No retries: over any run, the worker asks for no more queries than it
/// took tokens. A token whose settle sleep is still running has not been
/// used up yet.
pub proof fn lemma_one_query_per_token(rules: Rules, signals: Seq<Signal>)
    ensures
        queries_asked(rules, initial_model(), signals) + (if model_after(
            rules,
            initial_model(),
            signals,
        ).phase == Phase::Settling {
            1nat
        } else {
            0nat
        }) <= tokens_in(signals),
    decreases signals.len(),
{
    if signals.len() > 0 {
        lemma_one_query_per_token(rules, signals.drop_last());
    }
}

/// The change detector over whole cycles: a waiting worker that is run
/// through one cycle per queried state emits exactly the lines of the states
/// that [`reported`] picks, ends waiting again, and remembers the state
/// queried last.
pub proof fn lemma_cycles_emit_reported(rules: Rules, start: WorkerModel, states: Seq<Seq<char>>)
    requires
        start.phase == Phase::AwaitingToken,
    ensures
        emitted(rules, start, cycles(states)) == lines(
            rules.label,
            reported(rules.dedupe, start.last_emitted, states),
        ),
        model_after(rules, start, cycles(states)).phase == Phase::AwaitingToken,
        model_after(rules, start, cycles(states)).last_emitted == compared_with(
            start.last_emitted,
            states,
            states.len() as int,
        ),
    decreases states.len(),
{
    if states.len() == 0 {
        assert(emitted(rules, start, cycles(states)) =~= lines(
            rules.label,
            reported(rules.dedupe, start.last_emitted, states),
        ));
    } else {
        let before = states.drop_last();
        let outcome = Signal::Snapshot(states.last());
        lemma_cycles_emit_reported(rules, start, before);
        let middle = model_after(rules, start, cycles(before));
        lemma_run_in_two_parts(rules, start, cycles(before), cycle(outcome));
        lemma_one_cycle(rules, middle, outcome);
        assert(middle.last_emitted == compared_with(
            start.last_emitted,
            states,
            states.len() - 1,
        ));
        let kept_before = reported(rules.dedupe, start.last_emitted, before);
        let kept = reported(rules.dedupe, start.last_emitted, states);
        if passes_detector(rules, middle.last_emitted, states.last()) {
            assert(kept == kept_before.push(states.last()));
            assert(lines(rules.label, kept) =~= lines(rules.label, kept_before) + seq![
                line_for(rules.label, states.last()),
            ]);
        } else {
            assert(kept == kept_before);
            assert(lines(rules.label, kept) =~= lines(rules.label, kept_before)
                + Seq::<Seq<char>>::empty());
        }
    }
}

/// Without deduplication every queried state is reported, repeats included.
pub proof fn lemma_without_dedupe_all_reported(last_emitted: Seq<char>, states: Seq<Seq<char>>)
    ensures
        reported(false, last_emitted, states) == states,
    decreases states.len(),
{
    if states.len() > 0 {
        lemma_without_dedupe_all_reported(last_emitted, states.drop_last());
        assert(states.drop_last().push(states.last()) =~= states);
    }
}

/// With deduplication the reports are no more than the queried states, and
/// the last report, if there is one, is the state queried last or an earlier
/// one equal to it.
pub proof fn lemma_dedupe_keeps_latest(last_emitted: Seq<char>, states: Seq<Seq<char>>)
    ensures
        reported(true, last_emitted, states).len() <= states.len(),
        reported(true, last_emitted, states).len() > 0 ==> reported(
            true,
            last_emitted,
            states,
        ).last() == states.last(),
        reported(true, last_emitted, states).len() == 0 ==> compared_with(
            last_emitted,
            states,
            states.len() as int,
        ) == last_emitted,
    decreases states.len(),
{
    if states.len() > 0 {
        lemma_dedupe_keeps_latest(last_emitted, states.drop_last());
    }
}

/// With deduplication no report repeats the report before it, and the first
/// differs from what had been emitted before the run.
pub proof fn lemma_dedupe_never_repeats(last_emitted: Seq<char>, states: Seq<Seq<char>>, i: int)
    requires
        0 <= i < reported(true, last_emitted, states).len(),
    ensures
        reported(true, last_emitted, states)[i] != compared_with(
            last_emitted,
            reported(true, last_emitted, states),
            i,
        ),
    decreases states.len(),
{
    let before = states.drop_last();
    let kept_before = reported(true, last_emitted, before);
    lemma_dedupe_keeps_latest(last_emitted, before);
    if i < kept_before.len() {
        lemma_dedupe_never_repeats(last_emitted, before, i);
    }
}

/// Deduplication on the pattern `a a b b a`: for any two different states
/// `a` and `b`, with `a` not the state emitted before, the reports are
/// `a b a`.
pub proof fn lemma_dedupe_collapses_runs(last_emitted: Seq<char>, a: Seq<char>, b: Seq<char>)
    requires
        a != b,
        a != last_emitted,
    ensures
        reported(true, last_emitted, seq![a, a, b, b, a]) == seq![a, b, a],
{
    let s5 = seq![a, a, b, b, a];
    let s4 = seq![a, a, b, b];
    let s3 = seq![a, a, b];
    let s2 = seq![a, a];
    let s1 = seq![a];
    assert(s5.drop_last() =~= s4);
    assert(s4.drop_last() =~= s3);
    assert(s3.drop_last() =~= s2);
    assert(s2.drop_last() =~= s1);
    assert(s1.drop_last() =~= Seq::<Seq<char>>::empty());
    assert(reported(true, last_emitted, s1.drop_last()) =~= Seq::<Seq<char>>::empty());
    assert(reported(true, last_emitted, s1) =~= seq![a]);
    assert(reported(true, last_emitted, s2) =~= seq![a]);
    assert(reported(true, last_emitted, s3) =~= seq![a, b]);
    assert(reported(true, last_emitted, s4) =~= seq![a, b]);
    assert(reported(true, last_emitted, s5) =~= seq![a, b, a]);
}

/// A failed query does not end a reporting worker: the failure is printed,
/// the worker waits for the next token with its memory untouched, and the
/// cycle after it runs as if the failure had not happened.
pub proof fn lemma_failed_query_is_recoverable(
    rules: Rules,
    start: WorkerModel,
    text: Seq<char>,
    next: Signal,
)
    requires
        rules.on_error == ErrorPolicy::Report,
        start.phase == Phase::AwaitingToken,
    ensures
        model_after(rules, start, cycle(Signal::QueryFailed(text))) == start,
        emitted(rules, start, cycle(Signal::QueryFailed(text))) == Seq::<Seq<char>>::empty(),
        output_at(rules, start, cycle(Signal::QueryFailed(text)), 2) == Output::Report(text),
        emitted(rules, start, cycle(Signal::QueryFailed(text)) + cycle(next)) == emitted(
            rules,
            start,
            cycle(next),
        ),
        model_after(rules, start, cycle(Signal::QueryFailed(text)) + cycle(next)) == model_after(
            rules,
            start,
            cycle(next),
        ),
{
    let failed = cycle(Signal::QueryFailed(text));
    lemma_one_cycle(rules, start, Signal::QueryFailed(text));
    lemma_run_in_two_parts(rules, start, failed, cycle(next));
    let two = seq![Signal::TokenTaken, Signal::SettleElapsed];
    let one = seq![Signal::TokenTaken];
    assert(failed.take(2) =~= two);
    assert(two.drop_last() =~= one);
    assert(one.drop_last() =~= Seq::<Signal>::empty());
    assert(model_after(rules, start, one.drop_last()) == start);
    assert(model_after(rules, start, one) == WorkerModel { phase: Phase::Settling, ..start });
    assert(model_after(rules, start, two) == WorkerModel { phase: Phase::Querying, ..start });
    assert(emitted(rules, start, failed) + emitted(rules, start, cycle(next)) =~= emitted(
        rules,
        start,
        cycle(next),
    ));
}

/// A worker that halts on failure stays halted: whatever it is told
/// afterwards, it prints nothing more and asks for nothing but to leave.
pub proof fn lemma_halted_stays_halted(rules: Rules, start: WorkerModel, signals: Seq<Signal>)
    requires
        start.phase == Phase::Halted,
    ensures
        model_after(rules, start, signals) == start,
        emitted(rules, start, signals) == Seq::<Seq<char>>::empty(),
    decreases signals.len(),
{
    if signals.len() > 0 {
        lemma_halted_stays_halted(rules, start, signals.drop_last());
    }
}

} // verus!

//! Mailbox and worker together: what a burst of notifications costs.
//!
//! The two contexts are interleaved as a sequence of occurrences. A
//! notification is a deposit by the delivering side. A worker turn is the
//! worker doing what it waits on: taking the token if one is pending and
//! staying blocked if not, sitting out the settle interval, or querying.

use vstd::prelude::*;
use crate::mailbox::{hands_out_token, pending_after_op, MailboxOp};
use crate::worker::{initial_model, model_after_signal, Phase, Rules, Signal, WorkerModel};

verus! {

/// The mailbox and the worker at one moment.
pub struct System {
    /// Whether a token is pending in the mailbox.
    pub pending: bool,
    /// The worker.
    pub worker: WorkerModel,
}

/// One thing that happens to the system.
pub enum Occurrence {
    /// A native event was delivered and its callback offered a token.
    Notification,
    /// The worker got to run one step. `outcome` is what a query returns at
    /// this moment, should the step be a query.
    WorkerTurn { outcome: Signal },
}

/// The system at the start of the process.
pub open spec fn initial_system() -> System {
    System { pending: false, worker: initial_model() }
}

/// Whether a worker turn in this state of the system performs a query.
pub open spec fn turn_queries(system: System, occurrence: Occurrence) -> bool {
    occurrence is WorkerTurn && system.worker.phase == Phase::Querying
}

/// The system after `occurrence`.
pub open spec fn system_after_one(rules: Rules, system: System, occurrence: Occurrence) -> System {
    match occurrence {
        Occurrence::Notification => System {
            pending: pending_after_op(system.pending, MailboxOp::Deposit),
            ..system
        },
        Occurrence::WorkerTurn { outcome } => match system.worker.phase {
            Phase::AwaitingToken => if hands_out_token(system.pending, MailboxOp::Take) {
                System {
                    pending: pending_after_op(system.pending, MailboxOp::Take),
                    worker: model_after_signal(rules, system.worker, Signal::TokenTaken),
                }
            } else {
                system
            },
            Phase::Settling => System {
                worker: model_after_signal(rules, system.worker, Signal::SettleElapsed),
                ..system
            },
            Phase::Querying => System {
                worker: model_after_signal(rules, system.worker, outcome),
                ..system
            },
            Phase::Halted => system,
        },
    }
}

/// The system after all of `occurrences`, one after the other.
pub open spec fn system_after(rules: Rules, system: System, occurrences: Seq<Occurrence>) -> System
    decreases occurrences.len(),
{
    if occurrences.len() == 0 {
        system
    } else {
        system_after_one(
            rules,
            system_after(rules, system, occurrences.drop_last()),
            occurrences.last(),
        )
    }
}

/// The number of queries performed over `occurrences`.
pub open spec fn queries_in(rules: Rules, system: System, occurrences: Seq<Occurrence>) -> nat
    decreases occurrences.len(),
{
    if occurrences.len() == 0 {
        0
    } else {
        let before = occurrences.drop_last();
        let one: nat = if turn_queries(system_after(rules, system, before), occurrences.last()) {
            1
        } else {
            0
        };
        queries_in(rules, system, before) + one
    }
}

/// A burst of `count` notifications.
pub open spec fn burst(count: nat) -> Seq<Occurrence> {
    Seq::new(count, |i: int| Occurrence::Notification)
}

/// Whether `outcome` is something a query can return.
pub open spec fn is_query_outcome(outcome: Signal) -> bool {
    outcome is Snapshot || outcome is QueryFailed
}

/// Whether every one of `occurrences` is a worker turn whose query, if it
/// is one, returns a snapshot or a failure.
pub open spec fn only_worker_turns(occurrences: Seq<Occurrence>) -> bool {
    forall|i: int|
        0 <= i < occurrences.len() ==> match #[trigger] occurrences[i] {
            Occurrence::WorkerTurn { outcome } => is_query_outcome(outcome),
            Occurrence::Notification => false,
        }
}

/// A burst before the worker looks leaves one token and costs no query yet.
pub proof fn lemma_burst_leaves_one_token(rules: Rules, count: nat)
    requires
        count >= 1,
    ensures
        system_after(rules, initial_system(), burst(count)) == (System {
            pending: true,
            worker: initial_model(),
        }),
        queries_in(rules, initial_system(), burst(count)) == 0,
    decreases count,
{
    let all = burst(count);
    if count > 1 {
        assert(all.drop_last() =~= burst((count - 1) as nat));
        lemma_burst_leaves_one_token(rules, (count - 1) as nat);
    } else {
        assert(all.drop_last() =~= Seq::<Occurrence>::empty());
        assert(system_after(rules, initial_system(), all.drop_last()) == initial_system());
        assert(queries_in(rules, initial_system(), all.drop_last()) == 0);
    }
}

/// Where the system stands after a burst and then `turns` of the worker.
proof fn lemma_turns_after_burst(rules: Rules, count: nat, turns: Seq<Occurrence>)
    requires
        count >= 1,
        only_worker_turns(turns),
    ensures
        ({
            let system = system_after(rules, initial_system(), burst(count) + turns);
            let queries = queries_in(rules, initial_system(), burst(count) + turns);
            &&& turns.len() == 0 ==> system.pending && system.worker.phase == Phase::AwaitingToken
                && queries == 0
            &&& turns.len() == 1 ==> !system.pending && system.worker.phase == Phase::Settling
                && queries == 0
            &&& turns.len() == 2 ==> !system.pending && system.worker.phase == Phase::Querying
                && queries == 0
            &&& turns.len() >= 3 ==> !system.pending && (system.worker.phase
                == Phase::AwaitingToken || system.worker.phase == Phase::Halted) && queries == 1
        }),
    decreases turns.len(),
{
    let all = burst(count) + turns;
    if turns.len() == 0 {
        assert(all =~= burst(count));
        lemma_burst_leaves_one_token(rules, count);
    } else {
        let earlier = turns.drop_last();
        assert(all.drop_last() =~= burst(count) + earlier);
        assert(all.last() == turns.last());
        assert(only_worker_turns(earlier)) by {
            assert forall|i: int| 0 <= i < earlier.len() implies match #[trigger] earlier[i] {
                Occurrence::WorkerTurn { outcome } => is_query_outcome(outcome),
                Occurrence::Notification => false,
            } by {
                assert(earlier[i] == turns[i]);
            }
        }
        lemma_turns_after_burst(rules, count, earlier);
        assert(turns[turns.len() - 1] is WorkerTurn);
    }
}

/// Coalescing, end to end: however many notifications arrive before the
/// worker takes its first token, the worker queries at most once for all of
/// them, and exactly once as soon as it has had three turns: one to take
/// the token, one to sit out the settle interval, one to query. Then it is
/// blocked on the empty mailbox again, or halted by a failed query.
pub proof fn lemma_burst_causes_one_query(rules: Rules, count: nat, turns: Seq<Occurrence>)
    requires
        count >= 1,
        only_worker_turns(turns),
    ensures
        queries_in(rules, initial_system(), burst(count) + turns) <= 1,
        turns.len() >= 3 ==> queries_in(rules, initial_system(), burst(count) + turns) == 1,
        turns.len() >= 3 ==> !system_after(rules, initial_system(), burst(count) + turns).pending,
{
    lemma_turns_after_burst(rules, count, turns);
}

} // verus!

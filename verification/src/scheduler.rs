//! Round-robin scheduling of harnesses on one thread: in every round each process that is still
//! running is stepped exactly once, in the order of the process ids.

use crate::error::SbHarnessError;
use crate::harness::{RunResult, SbHarness};
use std::collections::BTreeMap;
use vstd::prelude::*;

verus! {

/// Where one process stands.
pub enum Slot {
    /// Still running: its harness, which is stepped once in each round.
    Live(SbHarness),
    /// Ended with this result. It is not stepped again.
    Complete(u32),
    /// Ended with this error. It is not stepped again.
    Errored(SbHarnessError),
}

/// Where a process stands after a step of its harness: it has ended with the step's result or
/// error, or it is still running.
pub fn settle(harness: SbHarness, result: Result<RunResult, SbHarnessError>) -> (slot: Slot)
    ensures
        slot == match result {
            Ok(RunResult::Complete(value)) => Slot::Complete(value),
            Ok(RunResult::Incomplete) => Slot::Live(harness),
            Err(e) => Slot::Errored(e),
        },
{
    match result {
        Ok(RunResult::Complete(value)) => Slot::Complete(value),
        Ok(RunResult::Incomplete) => Slot::Live(harness),
        Err(e) => Slot::Errored(e),
    }
}

/// The ids of the processes that are running, in the order of the ids.
pub open spec fn running(slots: Seq<Slot>) -> Seq<usize>
    decreases slots.len(),
{
    if slots.len() == 0 {
        Seq::empty()
    } else if slots.last() is Live {
        running(slots.drop_last()).push((slots.len() - 1) as usize)
    } else {
        running(slots.drop_last())
    }
}

/// Where a process can stand after a step of its harness. It is still running only with a
/// harness that has not ended; it has a result only if it had not ended before; and it has an
/// error only of the kind `ProcessRun`, which is the report of a step after the end where the
/// harness had ended before.
pub open spec fn stepped(before: SbHarness, after: Slot) -> bool {
    match after {
        Slot::Live(harness) => !before.ended() && !harness.ended(),
        Slot::Complete(_) => !before.ended(),
        Slot::Errored(e) => e is ProcessRun && (before.ended() ==> e.detail()
            == "Process has already completed"@),
    }
}

/// Whether a process stands where the answer of a step of its harness puts it: a result or an
/// error is kept as it was answered, and a step that did not end the process leaves it running.
pub open spec fn answered(answer: Result<RunResult, SbHarnessError>, after: Slot) -> bool {
    match answer {
        Ok(RunResult::Complete(value)) => after == Slot::Complete(value),
        Ok(RunResult::Incomplete) => after is Live,
        Err(e) => after == Slot::Errored(e),
    }
}

/// The mathematical content of a [`Scheduler`].
pub struct SchedulerView {
    /// Where each process stands, by process id.
    pub slots: Seq<Slot>,
    /// How many steps each process has been given, by process id.
    pub steps: Seq<nat>,
    /// How many rounds have been run.
    pub rounds: nat,
    /// The id of the process that was stepped, for every step that was made, in the order in
    /// which the steps were made.
    pub trace: Seq<usize>,
    /// What the latest step of each process answered, by process id; nothing for a process
    /// that has not been stepped.
    pub answers: Seq<Option<Result<RunResult, SbHarnessError>>>,
}

impl SchedulerView {
    /// Whether no process is running any more.
    pub open spec fn all_ended(self) -> bool {
        forall|i: int| 0 <= i < self.slots.len() ==> !(#[trigger] self.slots[i] is Live)
    }

    /// What holds of every scheduler: a running process has been stepped in every round so far,
    /// an ended one in no more rounds than there were, and the last round stepped somebody;
    /// every process that was stepped stands where the answer of its latest step put it, and
    /// only a step ends a process.
    pub open spec fn wf(self) -> bool {
        &&& self.steps.len() == self.slots.len()
        &&& self.answers.len() == self.slots.len()
        &&& forall|i: int|
            0 <= i < self.slots.len() && #[trigger] self.answers[i] is Some ==> answered(
                self.answers[i]->Some_0,
                self.slots[i],
            )
        &&& forall|i: int|
            0 <= i < self.slots.len() && !(#[trigger] self.slots[i] is Live)
                ==> self.answers[i] is Some
        &&& forall|i: int|
            0 <= i < self.slots.len() && #[trigger] self.slots[i] is Live ==> self.steps[i]
                == self.rounds
        &&& forall|i: int| 0 <= i < self.steps.len() ==> #[trigger] self.steps[i] <= self.rounds
        &&& self.rounds > 0 ==> exists|i: int|
            0 <= i < self.steps.len() && #[trigger] self.steps[i] == self.rounds
    }

    /// What one round makes of a scheduler, whatever the steps answer: the processes that were
    /// running have been stepped once each, in the order of their ids, and stand where their
    /// step's answer puts them, which is where a step can leave them; every ended process is as
    /// it was.
    pub open spec fn round_to(self, next: SchedulerView) -> bool {
        &&& next.trace == self.trace + running(self.slots)
        &&& next.slots.len() == self.slots.len()
        &&& next.steps.len() == self.steps.len()
        &&& next.answers.len() == self.answers.len()
        &&& next.rounds == self.rounds + 1
        &&& forall|i: int|
            0 <= i < self.slots.len() && #[trigger] self.slots[i] is Live ==> next.steps[i]
                == self.steps[i] + 1 && stepped(self.slots[i]->Live_0, next.slots[i])
                && next.answers[i] is Some && answered(next.answers[i]->Some_0, next.slots[i])
        &&& forall|i: int|
            0 <= i < self.slots.len() && !(#[trigger] self.slots[i] is Live) ==> next.slots[i]
                == self.slots[i] && next.steps[i] == self.steps[i] && next.answers[i]
                == self.answers[i]
    }

    /// Whether `last` is reached from here by `n` rounds, one after the other.
    pub open spec fn rounds_to(self, last: SchedulerView, n: nat) -> bool
        decreases n,
    {
        if n == 0 {
            last == self
        } else {
            exists|mid: SchedulerView| #[trigger]
                self.round_to(mid) && mid.wf() && mid.rounds_to(last, (n - 1) as nat)
        }
    }
}

/// One more round after `n` rounds makes `n + 1` rounds.
pub proof fn lemma_rounds_then_round(
    first: SchedulerView,
    mid: SchedulerView,
    last: SchedulerView,
    n: nat,
)
    requires
        first.rounds_to(mid, n),
        mid.round_to(last),
        last.wf(),
    ensures
        first.rounds_to(last, n + 1),
    decreases n,
{
    if n == 0 {
        assert(last.rounds_to(last, 0));
        assert(first.round_to(last) && last.wf() && last.rounds_to(last, 0));
    } else {
        let next = choose|next: SchedulerView| #[trigger]
            first.round_to(next) && next.wf() && next.rounds_to(mid, (n - 1) as nat);
        lemma_rounds_then_round(next, mid, last, (n - 1) as nat);
        assert(first.round_to(next) && next.wf() && next.rounds_to(last, n));
    }
}

/// The results of the processes that have ended with one, by process id. Ids are 32-bit
/// numbers: a process whose position is beyond the largest of them has none.
pub open spec fn completed(slots: Seq<Slot>) -> Map<u32, u32> {
    Map::new(
        |id: u32| (id as int) < slots.len() && slots[id as int] is Complete,
        |id: u32| slots[id as int]->Complete_0,
    )
}

/// Where every process has ended with a result, the results report every process: each process
/// id maps to that process's own result.
pub proof fn lemma_completed_reports_every_process(slots: Seq<Slot>)
    requires
        forall|i: int| 0 <= i < slots.len() ==> #[trigger] slots[i] is Complete,
    ensures
        forall|id: u32|
            (id as int) < slots.len() ==> #[trigger] completed(slots).contains_key(id)
                && completed(slots)[id] == slots[id as int]->Complete_0,
{
}

/// A reported result is what the latest step of that very process answered: the value of its
/// own completion.
pub proof fn lemma_completed_is_answered(scheduler: SchedulerView)
    requires
        scheduler.wf(),
    ensures
        forall|id: u32| #[trigger]
            completed(scheduler.slots).contains_key(id) ==> scheduler.answers[id as int] == Some(
                Ok::<RunResult, SbHarnessError>(
                    RunResult::Complete(completed(scheduler.slots)[id]),
                ),
            ),
{
    assert forall|id: u32| #[trigger]
        completed(scheduler.slots).contains_key(id) implies scheduler.answers[id as int] == Some(
        Ok::<RunResult, SbHarnessError>(RunResult::Complete(completed(scheduler.slots)[id])),
    ) by {
        assert(scheduler.slots[id as int] is Complete);
        assert(scheduler.answers[id as int] is Some);
    }
}

/// The order of 32-bit numbers is the one that an ordered map of process ids is kept in.
proof fn lemma_ids_are_ordered()
    ensures
        vstd::laws_cmp::obeys_cmp::<u32>(),
{
    broadcast use vstd::laws_cmp::group_laws_cmp;

}

/// The largest of the step counts; 0 where there is none.
pub open spec fn longest_run(steps: Seq<nat>) -> nat
    decreases steps.len(),
{
    if steps.len() == 0 {
        0
    } else if steps.last() >= longest_run(steps.drop_last()) {
        steps.last()
    } else {
        longest_run(steps.drop_last())
    }
}

/// The largest step count is one of the counts, and none is larger.
pub proof fn lemma_longest_run(steps: Seq<nat>)
    ensures
        forall|i: int| 0 <= i < steps.len() ==> #[trigger] steps[i] <= longest_run(steps),
        steps.len() > 0 ==> exists|i: int|
            0 <= i < steps.len() && #[trigger] steps[i] == longest_run(steps),
    decreases steps.len(),
{
    if steps.len() > 0 {
        let front = steps.drop_last();
        lemma_longest_run(front);
        assert forall|i: int| 0 <= i < steps.len() implies #[trigger] steps[i] <= longest_run(
            steps,
        ) by {
            if i < front.len() {
                assert(front[i] == steps[i]);
            }
        }
        if steps.last() >= longest_run(front) {
            assert(steps[steps.len() - 1] == longest_run(steps));
        } else {
            let k = choose|k: int| 0 <= k < front.len() && #[trigger] front[k] == longest_run(front);
            assert(steps[k] == longest_run(steps));
        }
    }
}

/// Round-robin fairness: the scheduler has run exactly as many rounds as the longest-running
/// of its processes has taken steps. No process waits for a round it did not need, and a
/// process that takes `k` steps to end has ended when round `k` is over.
pub proof fn lemma_rounds_equal_longest_run(scheduler: SchedulerView)
    requires
        scheduler.wf(),
    ensures
        scheduler.rounds == longest_run(scheduler.steps),
{
    lemma_longest_run(scheduler.steps);
    if scheduler.rounds > 0 {
        let k = choose|k: int|
            0 <= k < scheduler.steps.len() && #[trigger] scheduler.steps[k] == scheduler.rounds;
        assert(scheduler.steps[k] <= longest_run(scheduler.steps));
    }
    if scheduler.steps.len() > 0 {
        let m = choose|m: int|
            0 <= m < scheduler.steps.len() && #[trigger] scheduler.steps[m] == longest_run(
                scheduler.steps,
            );
        assert(scheduler.steps[m] <= scheduler.rounds);
    }
}

/// A set of processes that is run to completion on the calling thread, round by round.
pub struct Scheduler {
    slots: Vec<Slot>,
    steps: Vec<u64>,
    rounds: u64,
    trace: Ghost<Seq<usize>>,
    answers: Ghost<Seq<Option<Result<RunResult, SbHarnessError>>>>,
}

impl View for Scheduler {
    type V = SchedulerView;

    closed spec fn view(&self) -> SchedulerView {
        SchedulerView {
            slots: self.slots@,
            steps: Seq::new(self.steps@.len(), |i: int| self.steps@[i] as nat),
            rounds: self.rounds as nat,
            trace: self.trace@,
            answers: self.answers@,
        }
    }
}

impl Scheduler {
    /// A scheduler for the given harnesses, whose process ids are their positions. Every
    /// process is running, and no round has been run.
    pub fn new(harnesses: Vec<SbHarness>) -> (scheduler: Self)
        ensures
            scheduler@.wf(),
            scheduler@.rounds == 0,
            scheduler@.trace == Seq::<usize>::empty(),
            scheduler@.slots.len() == harnesses@.len(),
            forall|i: int|
                0 <= i < harnesses@.len() ==> #[trigger] scheduler@.slots[i] == Slot::Live(
                    harnesses@[i],
                ),
            forall|i: int| 0 <= i < harnesses@.len() ==> #[trigger] scheduler@.steps[i] == 0,
            forall|i: int| 0 <= i < harnesses@.len() ==> #[trigger] scheduler@.answers[i] is None,
    {
        let mut harnesses = harnesses;
        let ghost all = harnesses@;
        let mut stack: Vec<Slot> = Vec::new();
        while harnesses.len() > 0
            invariant
                harnesses@.len() + stack@.len() == all.len(),
                harnesses@ == all.take(harnesses@.len() as int),
                forall|j: int|
                    0 <= j < stack@.len() ==> #[trigger] stack@[j] == Slot::Live(
                        all[all.len() - 1 - j],
                    ),
            decreases harnesses@.len(),
        {
            let harness = harnesses.pop().unwrap();
            stack.push(Slot::Live(harness));
        }
        let mut slots: Vec<Slot> = Vec::new();
        let mut steps: Vec<u64> = Vec::new();
        while stack.len() > 0
            invariant
                slots@.len() + stack@.len() == all.len(),
                steps@.len() == slots@.len(),
                forall|j: int|
                    0 <= j < stack@.len() ==> #[trigger] stack@[j] == Slot::Live(
                        all[all.len() - 1 - j],
                    ),
                forall|j: int| 0 <= j < slots@.len() ==> #[trigger] slots@[j] == Slot::Live(all[j]),
                forall|j: int| 0 <= j < steps@.len() ==> #[trigger] steps@[j] == 0,
            decreases stack@.len(),
        {
            let slot = stack.pop().unwrap();
            slots.push(slot);
            steps.push(0);
        }
        Scheduler {
            slots,
            steps,
            rounds: 0,
            trace: Ghost(Seq::empty()),
            answers: Ghost(Seq::new(all.len(), |i: int| None)),
        }
    }

    /// The number of processes, running or ended.
    pub fn len(&self) -> (n: usize)
        ensures
            n == self@.slots.len(),
    {
        self.slots.len()
    }

    /// The number of rounds that have been run.
    pub fn rounds(&self) -> (n: u64)
        ensures
            n == self@.rounds,
    {
        self.rounds
    }

    /// The number of steps that the process `id` has been given; 0 where there is no such
    /// process.
    pub fn steps(&self, id: usize) -> (n: u64)
        ensures
            id < self@.steps.len() ==> n == self@.steps[id as int],
            id >= self@.steps.len() ==> n == 0,
    {
        if id < self.steps.len() {
            self.steps[id]
        } else {
            0
        }
    }

    /// The result of the process `id`, where there is such a process and it has ended with one.
    pub fn result(&self, id: usize) -> (value: Option<u32>)
        ensures
            value == if id < self@.slots.len() && self@.slots[id as int] is Complete {
                Some(self@.slots[id as int]->Complete_0)
            } else {
                None
            },
    {
        if id < self.slots.len() {
            match &self.slots[id] {
                Slot::Complete(value) => Some(*value),
                _ => None,
            }
        } else {
            None
        }
    }

    /// The error of the process `id` as text, where there is such a process and it has ended
    /// with one.
    pub fn failure(&self, id: usize) -> (text: Option<String>)
        ensures
            text is Some <==> id < self@.slots.len() && self@.slots[id as int] is Errored,
            text matches Some(line) ==> line@ == self@.slots[id as int]->Errored_0.heading()
                + self@.slots[id as int]->Errored_0.detail(),
    {
        if id < self.slots.len() {
            match &self.slots[id] {
                Slot::Errored(e) => Some(e.to_string()),
                _ => None,
            }
        } else {
            None
        }
    }

    /// The results so far: for each process that has ended with one, its result under its id.
    pub fn results(&self) -> (results: BTreeMap<u32, u32>)
        ensures
            results@ == completed(self@.slots),
    {
        let mut results: BTreeMap<u32, u32> = BTreeMap::new();
        let mut i: usize = 0;
        proof {
            lemma_ids_are_ordered();
            assert(results@ =~= completed(self.slots@.take(0)));
        }
        while i < self.slots.len() && i <= u32::MAX as usize
            invariant
                i <= self.slots@.len(),
                i <= u32::MAX + 1,
                results@ == completed(self.slots@.take(i as int)),
            decreases self.slots@.len() - i,
        {
            let ghost reported = results@;
            match &self.slots[i] {
                Slot::Complete(value) => {
                    proof {
                        lemma_ids_are_ordered();
                    }
                    results.insert(i as u32, *value);
                },
                _ => {},
            }
            proof {
                assert(results@ =~= completed(self.slots@.take(i + 1)));
            }
            i += 1;
        }
        proof {
            assert(completed(self.slots@.take(i as int)) =~= completed(self.slots@));
        }
        results
    }

    /// Whether no process is running any more.
    pub fn all_ended(&self) -> (ended: bool)
        ensures
            ended == self@.all_ended(),
    {
        let mut i: usize = 0;
        while i < self.slots.len()
            invariant
                i <= self.slots@.len(),
                forall|j: int| 0 <= j < i ==> !(#[trigger] self.slots@[j] is Live),
            decreases self.slots@.len() - i,
        {
            match &self.slots[i] {
                Slot::Live(_) => {
                    return false;
                },
                _ => {},
            }
            i += 1;
        }
        true
    }

    /// Runs one round: every process that is running is stepped once, in the order of the
    /// process ids, and a process whose step ended it is running no more. Where nothing is
    /// running, nothing is done and no round is counted.
    ///
    /// The answer is whether no process is running after the round.
    pub fn run_round(&mut self) -> (idle: bool)
        requires
            old(self)@.wf(),
            old(self)@.rounds < u64::MAX,
        ensures
            final(self)@.wf(),
            idle == final(self)@.all_ended(),
            old(self)@.all_ended() ==> final(self)@ == old(self)@,
            !old(self)@.all_ended() ==> old(self)@.round_to(final(self)@),
    {
        if self.all_ended() {
            assert(self@ =~= old(self)@);
            return true;
        }
        let ghost before = self@;
        let ghost witness = choose|k: int| 0 <= k < before.slots.len() && before.slots[k] is Live;
        let n: usize = self.slots.len();
        self.rounds = self.rounds + 1;
        let mut i: usize = 0;
        while i < n
            invariant
                i <= n,
                n == before.slots.len(),
                self.slots@.len() == n,
                self.steps@.len() == n,
                self.rounds == before.rounds + 1,
                self.trace@ == before.trace + running(before.slots.take(i as int)),
                self.answers@.len() == n,
                forall|j: int| i <= j < n ==> #[trigger] self.answers@[j] == before.answers[j],
                forall|j: int|
                    0 <= j < i && #[trigger] before.slots[j] is Live ==> self.answers@[j] is Some
                        && answered(self.answers@[j]->Some_0, self.slots@[j]),
                forall|j: int|
                    0 <= j < i && !(#[trigger] before.slots[j] is Live) ==> self.answers@[j]
                        == before.answers[j],
                before.wf(),
                before.rounds < u64::MAX,
                forall|j: int| i <= j < n ==> #[trigger] self.slots@[j] == before.slots[j],
                forall|j: int| 0 <= j < n && j >= i ==> #[trigger] self.steps@[j] == before.steps[j],
                forall|j: int|
                    0 <= j < i && #[trigger] before.slots[j] is Live ==> self.steps@[j]
                        == before.steps[j] + 1 && stepped(before.slots[j]->Live_0, self.slots@[j]),
                forall|j: int|
                    0 <= j < i && !(#[trigger] before.slots[j] is Live) ==> self.slots@[j]
                        == before.slots[j] && self.steps@[j] == before.steps[j],
                forall|j: int|
                    0 <= j < i && #[trigger] self.slots@[j] is Live ==> before.slots[j] is Live,
            decreases n - i,
        {
            proof {
                assert(before.slots.take(i + 1).drop_last() == before.slots.take(i as int));
            }
            let mut slot = Slot::Complete(0);
            std::mem::swap(&mut self.slots[i], &mut slot);
            match slot {
                Slot::Live(harness) => {
                    let mut harness = harness;
                    proof {
                        self.trace@ = self.trace@.push(i);
                    }
                    let taken: u64 = self.steps[i];
                    self.steps[i] = taken + 1;
                    let result = harness.step();
                    proof {
                        self.answers@ = self.answers@.update(i as int, Some(result));
                    }
                    self.slots[i] = settle(harness, result);
                },
                ended => {
                    self.slots[i] = ended;
                },
            }
            i += 1;
        }
        proof {
            let after = self@;
            assert(before.slots.take(n as int) == before.slots);
            assert(after.slots == self.slots@);
            assert forall|j: int| 0 <= j < n implies after.steps[j] == self.steps@[j] by {}
            assert(before.slots[witness] is Live);
            assert(after.steps[witness] == after.rounds);
            assert forall|j: int|
                0 <= j < after.slots.len() && #[trigger] after.slots[j] is Live implies after.steps[j]
                == after.rounds by {
                assert(self.slots@[j] is Live);
                assert(before.slots[j] is Live);
            }
            assert forall|j: int| 0 <= j < after.steps.len() implies #[trigger] after.steps[j]
                <= after.rounds by {
                if before.slots[j] is Live {
                } else {
                    assert(before.steps[j] <= before.rounds);
                }
            }
            assert(after.answers == self.answers@);
            assert forall|j: int|
                0 <= j < after.slots.len() && #[trigger] after.answers[j] is Some implies answered(
                after.answers[j]->Some_0,
                after.slots[j],
            ) by {
                if !(before.slots[j] is Live) {
                    assert(after.answers[j] == before.answers[j]);
                    assert(before.answers[j] is Some);
                    assert(after.slots[j] == before.slots[j]);
                }
            }
            assert forall|j: int|
                0 <= j < after.slots.len() && !(#[trigger] after.slots[j] is Live) implies after.answers[j] is Some by {
                if !(before.slots[j] is Live) {
                    assert(after.answers[j] == before.answers[j]);
                }
            }
            assert(before.round_to(after));
            assert(after.wf());
        }
        self.all_ended()
    }

    /// Runs rounds until no process is running or `max_rounds` rounds have been run, whichever
    /// comes first. The answer is whether no process is running any more.
    ///
    /// What is left is what that many rounds, one after the other, make of the scheduler.
    pub fn run(&mut self, max_rounds: u64) -> (idle: bool)
        requires
            old(self)@.wf(),
            old(self)@.rounds + max_rounds <= u64::MAX,
        ensures
            final(self)@.wf(),
            idle == final(self)@.all_ended(),
            old(self)@.rounds <= final(self)@.rounds <= old(self)@.rounds + max_rounds,
            old(self)@.rounds_to(
                final(self)@,
                (final(self)@.rounds - old(self)@.rounds) as nat,
            ),
            !idle ==> final(self)@.rounds == old(self)@.rounds + max_rounds,
            final(self)@.slots.len() == old(self)@.slots.len(),
            old(self)@.all_ended() ==> final(self)@ == old(self)@,
            forall|i: int|
                0 <= i < old(self)@.slots.len() && !(#[trigger] old(self)@.slots[i] is Live)
                    ==> final(self)@.slots[i] == old(self)@.slots[i] && final(self)@.steps[i]
                    == old(self)@.steps[i],
    {
        let mut remaining: u64 = max_rounds;
        let mut idle: bool = self.all_ended();
        while !idle && remaining > 0
            invariant
                self@.wf(),
                idle == self@.all_ended(),
                self@.slots.len() == old(self)@.slots.len(),
                self@.steps.len() == old(self)@.steps.len(),
                old(self)@.wf(),
                old(self)@.rounds + max_rounds <= u64::MAX,
                remaining <= max_rounds,
                !idle ==> self@.rounds + remaining == old(self)@.rounds + max_rounds,
                old(self)@.rounds <= self@.rounds <= old(self)@.rounds + max_rounds - remaining,
                old(self)@.rounds_to(self@, (self@.rounds - old(self)@.rounds) as nat),
                old(self)@.all_ended() ==> self@ == old(self)@,
                forall|i: int|
                    0 <= i < old(self)@.slots.len() && !(#[trigger] old(self)@.slots[i] is Live)
                        ==> self@.slots[i] == old(self)@.slots[i] && self@.steps[i] == old(
                        self,
                    )@.steps[i],
            decreases remaining,
        {
            let ghost before = self@;
            idle = self.run_round();
            proof {
                lemma_rounds_then_round(
                    old(self)@,
                    before,
                    self@,
                    (before.rounds - old(self)@.rounds) as nat,
                );
            }
            remaining = remaining - 1;
        }
        idle
    }
}

} // verus!

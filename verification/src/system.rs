use crate::judge_actor::handler::handled;
use crate::judge_actor::handler::JudgeActorView;
use crate::judge_actor::handler::JudgeEventView;
use crate::judge_actor::handler::next_task;
use crate::models::judge_servers::JudgeServerInfoView;
use crate::models::submissions::SubmissionState;
use crate::queue::TaskId;
use crate::registry::inserted;
use crate::registry::lemma_inserted_wf;
use crate::registry::lemma_position_from;
use crate::registry::lemma_reserved_released_wf;
use crate::registry::lemma_task_number_of_inserted;
use crate::registry::lemma_task_number_of_released;
use crate::registry::lemma_task_number_of_reserved;
use crate::registry::registry_wf;
use crate::registry::task_number_of;
use vstd::prelude::*;

verus! {

/// The engine as a whole: the lifecycle state that the task store holds for
/// each task, the queue, the registry, and the phase of each worker.
pub ghost struct System {
    pub store: Map<TaskId, SubmissionState>,
    pub queue: Seq<TaskId>,
    pub servers: Seq<JudgeServerInfoView>,
    pub workers: Seq<JudgeActorView>,
}

/// The task that a worker has taken from the queue and not yet stored as
/// pending.
pub open spec fn claimed(actor: JudgeActorView) -> Option<TaskId> {
    match actor {
        JudgeActorView::ReadingState { task, .. } => Some(task),
        JudgeActorView::ReadingSettings { task, .. } => Some(task),
        JudgeActorView::MarkingPending { task, .. } => Some(task),
        _ => None,
    }
}

/// The task that a worker has stored as pending and not yet resolved.
pub open spec fn pending(actor: JudgeActorView) -> Option<TaskId> {
    match actor {
        JudgeActorView::Judging { task, .. } => Some(task),
        JudgeActorView::MarkingWaiting { task } => Some(task),
        JudgeActorView::Decoding { task } => Some(task),
        JudgeActorView::Finalizing { task } => Some(task),
        _ => None,
    }
}

/// The store holds `task` in `state`.
pub open spec fn stored_as(store: Map<TaskId, SubmissionState>, task: TaskId, state: SubmissionState) -> bool {
    store.dom().contains(task) && store[task] == state
}

/// The event is what the store answers: the state that a worker reads is
/// the state that the store holds, and nothing for a task that the store
/// does not know.
pub open spec fn truthful(store: Map<TaskId, SubmissionState>, actor: JudgeActorView, event: JudgeEventView) -> bool {
    match (actor, event) {
        (JudgeActorView::ReadingState { task, .. }, JudgeEventView::StateRead(answer)) => answer == (
        if store.dom().contains(task) {
            Some(store[task].name_view())
        } else {
            None
        }),
        _ => true,
    }
}

/// The store does not fail on the settings of a task that a worker has taken
/// from the queue, nor on storing that task as pending.
pub open spec fn store_serves_claim(actor: JudgeActorView, event: JudgeEventView) -> bool {
    match (actor, event) {
        (JudgeActorView::ReadingSettings { .. }, JudgeEventView::SettingsRead(answer)) => answer.is_some(),
        (JudgeActorView::MarkingPending { .. }, JudgeEventView::StateWritten(done)) => done,
        _ => true,
    }
}

/// The store after the action that the worker asked for last has had the
/// outcome that `event` reports: a write that succeeded has changed the
/// state of the worker's task.
pub open spec fn store_after(store: Map<TaskId, SubmissionState>, actor: JudgeActorView, event: JudgeEventView) -> Map<TaskId, SubmissionState> {
    match (actor, event) {
        (JudgeActorView::MarkingPending { task, .. }, JudgeEventView::StateWritten(true)) => store.insert(
            task,
            SubmissionState::Pending,
        ),
        (JudgeActorView::MarkingWaiting { task }, JudgeEventView::StateWritten(true)) => store.insert(
            task,
            SubmissionState::Waiting,
        ),
        (JudgeActorView::Finalizing { task }, JudgeEventView::Finalized(true)) => store.insert(
            task,
            SubmissionState::Finished,
        ),
        _ => store,
    }
}

/// The system after worker `i` has handled `event` at `now`.
pub open spec fn after_handle(system: System, i: int, event: JudgeEventView, now: u64) -> System {
    let result = handled(system.workers[i], event, system.queue, system.servers, now);
    System {
        store: store_after(system.store, system.workers[i], event),
        queue: result.queue,
        servers: result.servers,
        workers: system.workers.update(i, result.actor),
    }
}

/// The system after the intake has stored the new task `task` as waiting and
/// appended it to the queue.
pub open spec fn after_create(system: System, task: TaskId) -> System {
    System {
        store: system.store.insert(task, SubmissionState::Waiting),
        queue: system.queue.push(task),
        ..system
    }
}

/// Queue and task store agree.
///
/// No task is queued twice, and every queued task is stored as waiting. A
/// task that a worker has claimed is stored as waiting, is not queued, and is
/// claimed by that worker alone. Every task stored as waiting is queued or
/// claimed. A task that a worker has made pending is stored as pending, and
/// no other worker has it.
pub open spec fn queue_matches_store(system: System) -> bool {
    &&& system.queue.no_duplicates()
    &&& forall|k: int|
        0 <= k < system.queue.len() ==> stored_as(system.store, #[trigger] system.queue[k], SubmissionState::Waiting)
    &&& forall|i: int|
        0 <= i < system.workers.len() && claimed(#[trigger] system.workers[i]).is_some() ==> {
            &&& stored_as(system.store, claimed(system.workers[i]).unwrap(), SubmissionState::Waiting)
            &&& !system.queue.contains(claimed(system.workers[i]).unwrap())
        }
    &&& forall|i: int, j: int|
        0 <= i < system.workers.len() && 0 <= j < system.workers.len() && i != j && claimed(
            #[trigger] system.workers[i],
        ).is_some() ==> claimed(system.workers[i]) != claimed(#[trigger] system.workers[j])
    &&& forall|task: TaskId| #[trigger]
        stored_as(system.store, task, SubmissionState::Waiting) ==> system.queue.contains(task)
            || exists|i: int|
            0 <= i < system.workers.len() && claimed(#[trigger] system.workers[i]) == Some(task)
    &&& forall|i: int|
        0 <= i < system.workers.len() && pending(#[trigger] system.workers[i]).is_some() ==> stored_as(
            system.store,
            pending(system.workers[i]).unwrap(),
            SubmissionState::Pending,
        )
    &&& forall|i: int, j: int|
        0 <= i < system.workers.len() && 0 <= j < system.workers.len() && i != j && pending(
            #[trigger] system.workers[i],
        ).is_some() ==> pending(system.workers[i]) != pending(#[trigger] system.workers[j])
}

/// The three states have three names.
pub proof fn lemma_state_names_differ()
    ensures
        SubmissionState::Waiting.name_view() != SubmissionState::Pending.name_view(),
        SubmissionState::Waiting.name_view() != SubmissionState::Finished.name_view(),
        SubmissionState::Pending.name_view() != SubmissionState::Finished.name_view(),
{
    reveal_strlit("Waiting");
    reveal_strlit("Pending");
    reveal_strlit("Finished");
    assert("Pending"@[0] == 'P');
    assert("Finished"@.len() == 8);
}

/// The system with `next` as the phase of worker `i`.
pub open spec fn with_worker(system: System, i: int, next: JudgeActorView) -> System {
    System { workers: system.workers.update(i, next), ..system }
}

/// The system with `next` as the phase of worker `i`, and with the registry
/// `servers`.
pub open spec fn with_worker_and_servers(
    system: System,
    i: int,
    next: JudgeActorView,
    servers: Seq<JudgeServerInfoView>,
) -> System {
    System { workers: system.workers.update(i, next), servers, ..system }
}

/// The system after worker `i` has stored the result of its task.
pub open spec fn after_finish(system: System, i: int) -> System {
    let task = pending(system.workers[i]).unwrap();
    System {
        store: system.store.insert(task, SubmissionState::Finished),
        workers: system.workers.update(i, JudgeActorView::Notifying { task }),
        ..system
    }
}

/// The system after worker `i` has stored its task as waiting and put it
/// back at the head of the queue.
pub open spec fn after_requeue(system: System, i: int) -> System {
    let task = pending(system.workers[i]).unwrap();
    System {
        store: system.store.insert(task, SubmissionState::Waiting),
        queue: seq![task] + system.queue,
        servers: system.servers,
        workers: system.workers.update(i, JudgeActorView::Idle),
    }
}

/// The system after a heartbeat has recorded `info` in the registry.
pub open spec fn after_heartbeat(system: System, info: JudgeServerInfoView) -> System {
    System { servers: inserted(system.servers, info), ..system }
}

/// The system in which worker `i` stands at the head of the scheduling
/// loop, after it has been there: with the next task claimed, or idle.
pub open spec fn after_next_task(system: System, i: int, now: u64) -> System {
    let result = next_task(system.queue, system.servers, now);
    System {
        store: system.store,
        queue: result.queue,
        servers: result.servers,
        workers: system.workers.update(i, result.actor),
    }
}

/// The head of the scheduling loop keeps queue and store in agreement, for a
/// worker that has no task in hand.
pub proof fn lemma_next_task_keeps_agreement(system: System, i: int, now: u64)
    requires
        queue_matches_store(system),
        0 <= i < system.workers.len(),
        claimed(system.workers[i]).is_none(),
        pending(system.workers[i]).is_none(),
    ensures
        queue_matches_store(after_next_task(system, i, now)),
{
    let result = next_task(system.queue, system.servers, now);
    let after = after_next_task(system, i, now);
    assert forall|j: int| 0 <= j < after.workers.len() && j != i implies after.workers[j]
        == system.workers[j] by {}
    if result.actor != JudgeActorView::Idle {
        let head = system.queue[0];
        assert(!after.queue.contains(head));
        assert forall|task: TaskId| #[trigger]
            stored_as(after.store, task, SubmissionState::Waiting) implies after.queue.contains(task)
            || exists|j: int|
            0 <= j < after.workers.len() && claimed(#[trigger] after.workers[j]) == Some(task) by {
            if task == head {
                assert(claimed(after.workers[i]) == Some(task));
            } else if system.queue.contains(task) {
                let k = choose|k: int| 0 <= k < system.queue.len() && system.queue[k] == task;
                assert(after.queue[k - 1] == task);
            }
        }
    }
}

/// Every step of a worker keeps queue and store in agreement, as long as the
/// store answers truthfully and does not fail on a claimed task.
///
/// A store that fails on a claimed task breaks the agreement: the worker ends
/// its pass, and the task stays stored as waiting without being queued.
pub proof fn lemma_handle_keeps_agreement(system: System, i: int, event: JudgeEventView, now: u64)
    requires
        queue_matches_store(system),
        0 <= i < system.workers.len(),
        truthful(system.store, system.workers[i], event),
        store_serves_claim(system.workers[i], event),
    ensures
        queue_matches_store(after_handle(system, i, event, now)),
{
    lemma_state_names_differ();
    let actor = system.workers[i];
    let after = after_handle(system, i, event, now);
    let result = handled(actor, event, system.queue, system.servers, now);
    match (actor, event) {
        (JudgeActorView::Idle, JudgeEventView::StartJudge) => {
            lemma_next_task_keeps_agreement(system, i, now);
        },
        (JudgeActorView::ReadingState { task, .. }, JudgeEventView::StateRead(answer)) => {
            lemma_same_claim_keeps_agreement(system, i, result.actor);
        },
        (JudgeActorView::ReadingSettings { task, .. }, JudgeEventView::SettingsRead(answer)) => {
            lemma_same_claim_keeps_agreement(system, i, result.actor);
        },
        (JudgeActorView::MarkingPending { task, .. }, JudgeEventView::StateWritten(done)) => {
            assert forall|j: int| 0 <= j < after.workers.len() && j != i implies after.workers[j]
                == system.workers[j] by {}
            assert forall|task2: TaskId| #[trigger]
                stored_as(after.store, task2, SubmissionState::Waiting) implies after.queue.contains(task2)
                || exists|j: int|
                0 <= j < after.workers.len() && claimed(#[trigger] after.workers[j]) == Some(task2) by {
                assert(stored_as(system.store, task2, SubmissionState::Waiting));
            }
        },
        (JudgeActorView::Judging { task, .. }, JudgeEventView::Judged(answer)) => {
            lemma_same_pending_keeps_agreement(system, i, result.actor, result.servers);
        },
        (JudgeActorView::MarkingWaiting { task }, JudgeEventView::StateWritten(done)) => {
            if done {
                let requeued = after_requeue(system, i);
                lemma_requeue_keeps_agreement(system, i);
                lemma_next_task_keeps_agreement(requeued, i, now);
                assert(after.workers =~= after_next_task(requeued, i, now).workers);
            } else {
                lemma_drop_pending_keeps_agreement(system, i);
            }
        },
        (JudgeActorView::Decoding { task }, JudgeEventView::Decoded(answer)) => {
            if result.actor == JudgeActorView::Idle {
                lemma_drop_pending_keeps_agreement(system, i);
            } else {
                lemma_same_pending_keeps_agreement(system, i, result.actor, result.servers);
            }
        },
        (JudgeActorView::Finalizing { task }, JudgeEventView::Finalized(done)) => {
            if done {
                lemma_finish_keeps_agreement(system, i);
            } else {
                lemma_drop_pending_keeps_agreement(system, i);
            }
        },
        (JudgeActorView::Notifying { task }, JudgeEventView::Notified(done)) => {
            if done {
                lemma_next_task_keeps_agreement(system, i, now);
            } else {
                lemma_drop_pending_keeps_agreement(system, i);
            }
        },
        _ => {
            assert(after.workers =~= system.workers);
        },
    }
}

/// A worker that goes on with the task that it has claimed keeps queue and
/// store in agreement.
proof fn lemma_same_claim_keeps_agreement(system: System, i: int, next: JudgeActorView)
    requires
        queue_matches_store(system),
        0 <= i < system.workers.len(),
        claimed(system.workers[i]).is_some(),
        claimed(next) == claimed(system.workers[i]),
        pending(next).is_none(),
    ensures
        queue_matches_store(with_worker(system, i, next)),
{
    let after = with_worker(system, i, next);
    assert forall|task: TaskId| #[trigger]
        stored_as(after.store, task, SubmissionState::Waiting) implies after.queue.contains(task)
        || exists|j: int|
        0 <= j < after.workers.len() && claimed(#[trigger] after.workers[j]) == Some(task) by {
        if !system.queue.contains(task) {
            let j = choose|j: int|
                0 <= j < system.workers.len() && claimed(#[trigger] system.workers[j]) == Some(task);
            assert(claimed(after.workers[j]) == Some(task));
        }
    }
}

/// A worker that goes on with the task that it has made pending keeps queue
/// and store in agreement, whatever happens to the registry.
proof fn lemma_same_pending_keeps_agreement(
    system: System,
    i: int,
    next: JudgeActorView,
    servers: Seq<JudgeServerInfoView>,
)
    requires
        queue_matches_store(system),
        0 <= i < system.workers.len(),
        pending(system.workers[i]).is_some(),
        pending(next) == pending(system.workers[i]),
        claimed(next).is_none(),
    ensures
        queue_matches_store(with_worker_and_servers(system, i, next, servers)),
{
    let after = with_worker_and_servers(system, i, next, servers);
    assert forall|task: TaskId| #[trigger]
        stored_as(after.store, task, SubmissionState::Waiting) implies after.queue.contains(task)
        || exists|j: int|
        0 <= j < after.workers.len() && claimed(#[trigger] after.workers[j]) == Some(task) by {
        if !system.queue.contains(task) {
            let j = choose|j: int|
                0 <= j < system.workers.len() && claimed(#[trigger] system.workers[j]) == Some(task);
            assert(claimed(after.workers[j]) == Some(task));
        }
    }
}

/// A worker that ends its pass with no claimed task in hand keeps queue and
/// store in agreement: a task that it had made pending stays pending.
proof fn lemma_drop_pending_keeps_agreement(system: System, i: int)
    requires
        queue_matches_store(system),
        0 <= i < system.workers.len(),
        claimed(system.workers[i]).is_none(),
    ensures
        queue_matches_store(with_worker(system, i, JudgeActorView::Idle)),
{
    let after = with_worker(system, i, JudgeActorView::Idle);
    assert forall|j: int| 0 <= j < after.workers.len() && j != i implies after.workers[j]
        == system.workers[j] by {}
}

/// Storing the result of a pending task keeps queue and store in agreement.
proof fn lemma_finish_keeps_agreement(system: System, i: int)
    requires
        queue_matches_store(system),
        0 <= i < system.workers.len(),
        system.workers[i] is Finalizing,
    ensures
        queue_matches_store(after_finish(system, i)),
{
    let task = pending(system.workers[i]).unwrap();
    let after = after_finish(system, i);
    assert forall|j: int| 0 <= j < after.workers.len() && j != i implies after.workers[j]
        == system.workers[j] by {}
    assert forall|task2: TaskId| #[trigger]
        stored_as(after.store, task2, SubmissionState::Waiting) implies after.queue.contains(task2)
        || exists|j: int|
        0 <= j < after.workers.len() && claimed(#[trigger] after.workers[j]) == Some(task2) by {
        assert(stored_as(system.store, task2, SubmissionState::Waiting));
    }
}

/// Storing a pending task as waiting and putting it at the head of the queue
/// keeps queue and store in agreement.
proof fn lemma_requeue_keeps_agreement(system: System, i: int)
    requires
        queue_matches_store(system),
        0 <= i < system.workers.len(),
        system.workers[i] is MarkingWaiting,
    ensures
        queue_matches_store(after_requeue(system, i)),
{
    let task = pending(system.workers[i]).unwrap();
    let after = after_requeue(system, i);
    assert forall|j: int| 0 <= j < after.workers.len() && j != i implies after.workers[j]
        == system.workers[j] by {}
    assert(!system.queue.contains(task));
    assert(after.queue.no_duplicates());
    assert forall|task2: TaskId| #[trigger]
        stored_as(after.store, task2, SubmissionState::Waiting) implies after.queue.contains(task2)
        || exists|j: int|
        0 <= j < after.workers.len() && claimed(#[trigger] after.workers[j]) == Some(task2) by {
        if task2 == task {
            assert(after.queue[0] == task2);
        } else {
            assert(stored_as(system.store, task2, SubmissionState::Waiting));
            if system.queue.contains(task2) {
                let k = choose|k: int| 0 <= k < system.queue.len() && system.queue[k] == task2;
                assert(after.queue[k + 1] == task2);
            }
        }
    }
}

/// A system without tasks and servers, whose workers are all idle.
pub open spec fn initial(workers: nat) -> System {
    System {
        store: Map::empty(),
        queue: Seq::empty(),
        servers: Seq::empty(),
        workers: Seq::new(workers, |i: int| JudgeActorView::Idle),
    }
}

/// Queue and store agree at the start.
pub proof fn lemma_initial_agreement(workers: nat)
    ensures
        queue_matches_store(initial(workers)),
{
}

/// The creation of a task keeps queue and store in agreement.
pub proof fn lemma_create_keeps_agreement(system: System, task: TaskId)
    requires
        queue_matches_store(system),
        !system.store.dom().contains(task),
    ensures
        queue_matches_store(after_create(system, task)),
{
    let after = after_create(system, task);
    assert forall|k: int| 0 <= k < system.queue.len() implies after.queue[k] == system.queue[k]
        && system.queue[k] != task by {}
    assert forall|other: TaskId| #[trigger]
        stored_as(after.store, other, SubmissionState::Waiting) implies after.queue.contains(other)
        || exists|i: int|
        0 <= i < after.workers.len() && claimed(#[trigger] after.workers[i]) == Some(other) by {
        if other == task {
            assert(after.queue[system.queue.len() as int] == other);
        } else {
            assert(stored_as(system.store, other, SubmissionState::Waiting));
        }
    }
    assert forall|i: int|
        0 <= i < after.workers.len() && pending(#[trigger] after.workers[i]).is_some() implies stored_as(
        after.store,
        pending(after.workers[i]).unwrap(),
        SubmissionState::Pending,
    ) by {}
}

/// While no worker has a claimed task in hand, a task is queued if and only
/// if the store holds it as waiting.
pub proof fn lemma_queued_iff_waiting(system: System, task: TaskId)
    requires
        queue_matches_store(system),
        forall|i: int| 0 <= i < system.workers.len() ==> claimed(#[trigger] system.workers[i]).is_none(),
    ensures
        system.queue.contains(task) <==> stored_as(system.store, task, SubmissionState::Waiting),
{
}

/// At any time, a task is stored as waiting if and only if it is queued or
/// claimed by a worker, and never both.
pub proof fn lemma_queued_or_claimed_iff_waiting(system: System, task: TaskId)
    requires
        queue_matches_store(system),
    ensures
        stored_as(system.store, task, SubmissionState::Waiting) <==> system.queue.contains(task)
            || exists|i: int|
            0 <= i < system.workers.len() && claimed(#[trigger] system.workers[i]) == Some(task),
        !(system.queue.contains(task) && exists|i: int|
            0 <= i < system.workers.len() && claimed(#[trigger] system.workers[i]) == Some(task)),
{
}

/// No task is in the hands of two workers: a task that one worker has
/// claimed or made pending is neither claimed nor pending with another.
pub proof fn lemma_one_worker_per_task(system: System, i: int, j: int)
    requires
        queue_matches_store(system),
        0 <= i < system.workers.len(),
        0 <= j < system.workers.len(),
        i != j,
    ensures
        claimed(system.workers[i]).is_some() ==> claimed(system.workers[j]) != claimed(system.workers[i])
            && pending(system.workers[j]) != claimed(system.workers[i]),
        pending(system.workers[i]).is_some() ==> pending(system.workers[j]) != pending(system.workers[i])
            && claimed(system.workers[j]) != pending(system.workers[i]),
{
}

/// The worker has a task judged on the server at `url`, and has reserved a
/// slot of that server for it.
pub open spec fn judging_on(actor: JudgeActorView, url: Seq<char>) -> bool {
    actor matches JudgeActorView::Judging { url: on, reserved, .. } && on == url && reserved
}

/// Number of tasks that are dispatched to the server at `url` and not yet
/// resolved: the number of workers that have a task judged there.
pub open spec fn in_flight(workers: Seq<JudgeActorView>, url: Seq<char>) -> int
    decreases workers.len(),
{
    if workers.len() == 0 {
        0
    } else {
        in_flight(workers.drop_last(), url) + if judging_on(workers.last(), url) {
            1int
        } else {
            0int
        }
    }
}

/// The registry is valid, and the task count that it holds for each endpoint
/// is the number of tasks dispatched to that endpoint and not yet resolved.
pub open spec fn counts_match(system: System) -> bool {
    &&& registry_wf(system.servers)
    &&& forall|url: Seq<char>| task_number_of(system.servers, url) == #[trigger] in_flight(system.workers, url)
}

/// A change of one worker changes the number of tasks in flight by that
/// worker's part in it.
pub proof fn lemma_in_flight_update(workers: Seq<JudgeActorView>, i: int, next: JudgeActorView, url: Seq<char>)
    requires
        0 <= i < workers.len(),
    ensures
        in_flight(workers.update(i, next), url) == in_flight(workers, url) - (if judging_on(workers[i], url) {
            1int
        } else {
            0int
        }) + (if judging_on(next, url) {
            1int
        } else {
            0int
        }),
    decreases workers.len(),
{
    let after = workers.update(i, next);
    if i == workers.len() - 1 {
        assert(after.drop_last() =~= workers.drop_last());
    } else {
        lemma_in_flight_update(workers.drop_last(), i, next, url);
        assert(after.drop_last() =~= workers.drop_last().update(i, next));
    }
}

/// The number of tasks in flight is never negative.
pub proof fn lemma_in_flight_nonnegative(workers: Seq<JudgeActorView>, url: Seq<char>)
    ensures
        in_flight(workers, url) >= 0,
    decreases workers.len(),
{
    if workers.len() > 0 {
        lemma_in_flight_nonnegative(workers.drop_last(), url);
    }
}

/// A worker that has a task judged on a server is counted among the tasks in
/// flight there.
pub proof fn lemma_in_flight_counts_worker(workers: Seq<JudgeActorView>, i: int, url: Seq<char>)
    requires
        0 <= i < workers.len(),
        judging_on(workers[i], url),
    ensures
        in_flight(workers, url) >= 1,
    decreases workers.len(),
{
    lemma_in_flight_nonnegative(workers.drop_last(), url);
    if i < workers.len() - 1 {
        lemma_in_flight_counts_worker(workers.drop_last(), i, url);
    }
}

/// The task counts are right at the start.
pub proof fn lemma_initial_counts(workers: nat)
    ensures
        counts_match(initial(workers)),
{
    assert forall|url: Seq<char>| task_number_of(initial(workers).servers, url) == #[trigger] in_flight(
        initial(workers).workers,
        url,
    ) by {
        lemma_no_judging_none_in_flight(initial(workers).workers, url);
    }
}

/// Where no worker has a task judged on a server, no task is in flight there.
pub proof fn lemma_no_judging_none_in_flight(workers: Seq<JudgeActorView>, url: Seq<char>)
    requires
        forall|i: int| 0 <= i < workers.len() ==> !judging_on(#[trigger] workers[i], url),
    ensures
        in_flight(workers, url) == 0,
    decreases workers.len(),
{
    if workers.len() > 0 {
        lemma_no_judging_none_in_flight(workers.drop_last(), url);
    }
}

/// Every step of a worker keeps the task counts right, whatever the event.
pub proof fn lemma_handle_keeps_counts(system: System, i: int, event: JudgeEventView, now: u64)
    requires
        counts_match(system),
        0 <= i < system.workers.len(),
    ensures
        counts_match(after_handle(system, i, event, now)),
{
    let actor = system.workers[i];
    let after = after_handle(system, i, event, now);
    let result = handled(actor, event, system.queue, system.servers, now);
    assert forall|url: Seq<char>| task_number_of(after.servers, url) == #[trigger] in_flight(after.workers, url) by {
        lemma_in_flight_update(system.workers, i, result.actor, url);
        match (actor, event) {
            (JudgeActorView::MarkingPending { url: on, .. }, JudgeEventView::StateWritten(true)) => {
                lemma_task_number_of_reserved(system.servers, on, url);
            },
            (JudgeActorView::Judging { url: on, reserved, .. }, JudgeEventView::Judged(_)) => {
                if reserved {
                    lemma_task_number_of_released(system.servers, on, url);
                    lemma_in_flight_counts_worker(system.workers, i, on);
                    lemma_position_from(system.servers, on, 0);
                }
            },
            _ => {},
        }
    }
    match (actor, event) {
        (JudgeActorView::MarkingPending { url: on, .. }, JudgeEventView::StateWritten(true)) => {
            lemma_reserved_released_wf(system.servers, on);
        },
        (JudgeActorView::Judging { url: on, reserved, .. }, JudgeEventView::Judged(_)) => {
            lemma_reserved_released_wf(system.servers, on);
        },
        _ => {},
    }
}

/// A heartbeat keeps the task counts right: the entry that it records
/// carries the task count of its endpoint over.
pub proof fn lemma_heartbeat_keeps_counts(system: System, info: JudgeServerInfoView)
    requires
        counts_match(system),
        info.task_number == task_number_of(system.servers, info.service_url),
    ensures
        counts_match(after_heartbeat(system, info)),
{
    let after = after_heartbeat(system, info);
    lemma_position_from(system.servers, info.service_url, 0);
    lemma_inserted_wf(system.servers, info);
    assert forall|url: Seq<char>| task_number_of(after.servers, url) == #[trigger] in_flight(after.workers, url) by {
        lemma_task_number_of_inserted(system.servers, info, url);
    }
}

/// The creation of a task keeps the task counts right.
pub proof fn lemma_create_keeps_counts(system: System, task: TaskId)
    requires
        counts_match(system),
    ensures
        counts_match(after_create(system, task)),
{
    let after = after_create(system, task);
}

/// A heartbeat keeps queue and store in agreement.
pub proof fn lemma_heartbeat_keeps_agreement(system: System, info: JudgeServerInfoView)
    requires
        queue_matches_store(system),
    ensures
        queue_matches_store(after_heartbeat(system, info)),
{
    let after = after_heartbeat(system, info);
}

/// A task may go from `from` to `to`: a waiting task becomes pending, and a
/// pending task waits again or is finished. A finished task stays finished.
pub open spec fn may_become(from: SubmissionState, to: SubmissionState) -> bool {
    match (from, to) {
        (SubmissionState::Waiting, SubmissionState::Pending) => true,
        (SubmissionState::Pending, SubmissionState::Waiting) => true,
        (SubmissionState::Pending, SubmissionState::Finished) => true,
        _ => false,
    }
}

/// A step of a worker changes the stored state of no task but its own, and
/// of that one only along the lifecycle: it adds no task and drops none.
pub proof fn lemma_handle_follows_lifecycle(system: System, i: int, event: JudgeEventView, task: TaskId)
    requires
        queue_matches_store(system),
        0 <= i < system.workers.len(),
    ensures
        store_after(system.store, system.workers[i], event).dom() == system.store.dom(),
        system.store.dom().contains(task) ==> {
            let before = system.store[task];
            let after = store_after(system.store, system.workers[i], event)[task];
            after == before || (may_become(before, after) && (claimed(system.workers[i]) == Some(task)
                || pending(system.workers[i]) == Some(task)))
        },
{
    let actor = system.workers[i];
    let after = store_after(system.store, actor, event);
}

/// One step of the system: a worker handles an event that the store
/// answers truthfully and without failing on a claimed task, the intake
/// creates a task that the store did not know, or a heartbeat records an
/// entry with the task count of its endpoint.
pub open spec fn next(before: System, after: System) -> bool {
    ||| exists|i: int, event: JudgeEventView, now: u64|
        {
            &&& 0 <= i < before.workers.len()
            &&& truthful(before.store, before.workers[i], event)
            &&& store_serves_claim(before.workers[i], event)
            &&& after == #[trigger] after_handle(before, i, event, now)
        }
    ||| exists|task: TaskId|
        !before.store.dom().contains(task) && after == #[trigger] after_create(before, task)
    ||| exists|info: JudgeServerInfoView|
        info.task_number == task_number_of(before.servers, info.service_url) && after
            == #[trigger] after_heartbeat(before, info)
}

/// Every step of the system keeps queue and store in agreement and the task
/// counts right.
pub proof fn lemma_next_keeps_invariants(before: System, after: System)
    requires
        queue_matches_store(before),
        counts_match(before),
        next(before, after),
    ensures
        queue_matches_store(after),
        counts_match(after),
{
    if exists|i: int, event: JudgeEventView, now: u64|
        {
            &&& 0 <= i < before.workers.len()
            &&& truthful(before.store, before.workers[i], event)
            &&& store_serves_claim(before.workers[i], event)
            &&& after == #[trigger] after_handle(before, i, event, now)
        } {
        let (i, event, now) = choose|i: int, event: JudgeEventView, now: u64|
            {
                &&& 0 <= i < before.workers.len()
                &&& truthful(before.store, before.workers[i], event)
                &&& store_serves_claim(before.workers[i], event)
                &&& after == #[trigger] after_handle(before, i, event, now)
            };
        lemma_handle_keeps_agreement(before, i, event, now);
        lemma_handle_keeps_counts(before, i, event, now);
    } else if exists|task: TaskId|
        !before.store.dom().contains(task) && after == #[trigger] after_create(before, task) {
        let task = choose|task: TaskId|
            !before.store.dom().contains(task) && after == #[trigger] after_create(before, task);
        lemma_create_keeps_agreement(before, task);
        lemma_create_keeps_counts(before, task);
    } else {
        let info = choose|info: JudgeServerInfoView|
            info.task_number == task_number_of(before.servers, info.service_url) && after
                == #[trigger] after_heartbeat(before, info);
        lemma_heartbeat_keeps_agreement(before, info);
        lemma_heartbeat_keeps_counts(before, info);
    }
}

} // verus!

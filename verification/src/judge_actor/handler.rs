use crate::judge_actor::utils::choose_judge_server;
use crate::judge_actor::utils::chosen_server;
use crate::models::judge_servers::JudgeServerInfoView;
use crate::models::submissions::distinct_results;
use crate::models::submissions::is_waiting;
use crate::models::submissions::judge_result_view;
use crate::models::submissions::JudgeResult;
use crate::models::submissions::JudgeResultView;
use crate::models::submissions::PayloadError;
use crate::models::submissions::RawJudgeResult;
use crate::models::submissions::RawJudgeResultView;
use crate::models::submissions::SubmissionState;
use crate::queue::TaskId;
use crate::queue::WaitingQueue;
use crate::registry::can_reserve;
use crate::registry::JudgeServerInfos;
use crate::registry::released;
use crate::registry::reserved;
use vstd::prelude::*;

verus! {

/// What a worker is told: the wake signal, or the outcome of the action that
/// it asked for last.
#[derive(Debug)]
pub enum JudgeEvent {
    /// The wake signal: a task was created, or a server became eligible.
    StartJudge,
    /// The stored state of the task, or nothing where the store failed.
    StateRead(Option<String>),
    /// The stored judge settings of the task, or nothing where the store
    /// failed.
    SettingsRead(Option<String>),
    /// Whether the store took the new state of the task.
    StateWritten(bool),
    /// The answer of the remote execution client: empty where the call
    /// failed, else the payload of the judge server.
    Judged(String),
    /// The payload as plain values, or nothing where it could not be read.
    Decoded(Option<RawJudgeResult>),
    /// Whether the store took the result of the task.
    Finalized(bool),
    /// Whether the collaborators took the notification.
    Notified(bool),
}

/// Mathematical content of a [`JudgeEvent`].
pub ghost enum JudgeEventView {
    StartJudge,
    StateRead(Option<Seq<char>>),
    SettingsRead(Option<Seq<char>>),
    StateWritten(bool),
    Judged(Seq<char>),
    Decoded(Option<RawJudgeResultView>),
    Finalized(bool),
    Notified(bool),
}

impl View for JudgeEvent {
    type V = JudgeEventView;

    open spec fn view(&self) -> JudgeEventView {
        match self {
            JudgeEvent::StartJudge => JudgeEventView::StartJudge,
            JudgeEvent::StateRead(state) => JudgeEventView::StateRead(state.deep_view()),
            JudgeEvent::SettingsRead(settings) => JudgeEventView::SettingsRead(settings.deep_view()),
            JudgeEvent::StateWritten(done) => JudgeEventView::StateWritten(*done),
            JudgeEvent::Judged(answer) => JudgeEventView::Judged(answer@),
            JudgeEvent::Decoded(raw) => JudgeEventView::Decoded(raw.deep_view()),
            JudgeEvent::Finalized(done) => JudgeEventView::Finalized(*done),
            JudgeEvent::Notified(done) => JudgeEventView::Notified(*done),
        }
    }
}

/// Why a worker ends its pass.
#[derive(Debug, Clone, Copy, PartialEq, Eq, Structural)]
pub enum StopReason {
    /// No task waits.
    QueueEmpty,
    /// No server is eligible; the queue is left as it was.
    NoEligibleServer,
    /// The task store failed on the task, which stays as the store has it.
    StoreFailure(TaskId),
    /// The payload for the task could not be read; the task stays pending.
    UnreadablePayload(TaskId),
    /// The payload for the task is malformed; the task stays pending.
    MalformedPayload(TaskId, PayloadError),
    /// The collaborators failed on the finished task.
    NotificationFailure(TaskId),
}

/// What a worker asks its caller to do next.
#[derive(Debug)]
pub enum JudgeAction {
    /// Read the stored state of the task; answer with `StateRead`.
    ReadState { task: TaskId },
    /// Read the stored judge settings of the task; answer with
    /// `SettingsRead`.
    ReadSettings { task: TaskId },
    /// Store the task as pending; answer with `StateWritten`.
    MarkPending { task: TaskId },
    /// Have the server at `url` judge with `settings`; answer with `Judged`.
    Judge { token: String, url: String, settings: String },
    /// Store the task as waiting; answer with `StateWritten`.
    MarkWaiting { task: TaskId },
    /// Read `payload` into plain values; answer with `Decoded`.
    Decode { payload: String },
    /// Store the task as finished at the time `finish_time`, with `result`
    /// and the verdicts that occur in it; answer with `Finalized`.
    Finalize { task: TaskId, result: JudgeResult, out_results: Option<Vec<String>>, finish_time: u64 },
    /// Tell the collaborators that the task is resolved; answer with
    /// `Notified`.
    Notify { task: TaskId },
    /// The pass is over; the next event is a wake signal.
    Stop(StopReason),
    /// The event answers no action of this worker; nothing has changed.
    Rejected,
}

/// Mathematical content of a [`JudgeAction`].
pub ghost enum JudgeActionView {
    ReadState { task: TaskId },
    ReadSettings { task: TaskId },
    MarkPending { task: TaskId },
    Judge { token: Seq<char>, url: Seq<char>, settings: Seq<char> },
    MarkWaiting { task: TaskId },
    Decode { payload: Seq<char> },
    Finalize {
        task: TaskId,
        result: JudgeResultView,
        out_results: Option<Seq<Seq<char>>>,
        finish_time: u64,
    },
    Notify { task: TaskId },
    Stop(StopReason),
    Rejected,
}

impl View for JudgeAction {
    type V = JudgeActionView;

    open spec fn view(&self) -> JudgeActionView {
        match self {
            JudgeAction::ReadState { task } => JudgeActionView::ReadState { task: *task },
            JudgeAction::ReadSettings { task } => JudgeActionView::ReadSettings { task: *task },
            JudgeAction::MarkPending { task } => JudgeActionView::MarkPending { task: *task },
            JudgeAction::Judge { token, url, settings } => JudgeActionView::Judge {
                token: token@,
                url: url@,
                settings: settings@,
            },
            JudgeAction::MarkWaiting { task } => JudgeActionView::MarkWaiting { task: *task },
            JudgeAction::Decode { payload } => JudgeActionView::Decode { payload: payload@ },
            JudgeAction::Finalize { task, result, out_results, finish_time } => JudgeActionView::Finalize {
                task: *task,
                result: result@,
                out_results: out_results.deep_view(),
                finish_time: *finish_time,
            },
            JudgeAction::Notify { task } => JudgeActionView::Notify { task: *task },
            JudgeAction::Stop(reason) => JudgeActionView::Stop(*reason),
            JudgeAction::Rejected => JudgeActionView::Rejected,
        }
    }
}

/// Where a worker stands in its pass.
enum Phase {
    Idle,
    ReadingState { task: TaskId, url: String, token: String },
    ReadingSettings { task: TaskId, url: String, token: String },
    MarkingPending { task: TaskId, url: String, token: String, settings: String },
    Judging { task: TaskId, url: String, reserved: bool },
    MarkingWaiting { task: TaskId },
    Decoding { task: TaskId },
    Finalizing { task: TaskId },
    Notifying { task: TaskId },
}

/// Where a worker stands in its pass, as a mathematical value.
///
/// Each phase but `Idle` waits for the answer to one action: the read of the
/// state, the read of the settings, the write of the pending state, the
/// remote call (for which a slot of the server is `reserved` or not), the
/// write of the waiting state, the reading of the payload, the write of the
/// result, and the notification.
pub ghost enum JudgeActorView {
    Idle,
    ReadingState { task: TaskId, url: Seq<char>, token: Seq<char> },
    ReadingSettings { task: TaskId, url: Seq<char>, token: Seq<char> },
    MarkingPending { task: TaskId, url: Seq<char>, token: Seq<char>, settings: Seq<char> },
    Judging { task: TaskId, url: Seq<char>, reserved: bool },
    MarkingWaiting { task: TaskId },
    Decoding { task: TaskId },
    Finalizing { task: TaskId },
    Notifying { task: TaskId },
}

/// One dispatch worker: the decisions of the scheduling loop, as a function
/// from the worker's phase and an event to the next phase and an action.
///
/// The worker performs no action itself. Its caller wakes it with
/// `StartJudge`, performs each action that `handle` returns, and hands the
/// outcome back as the next event, until the action is `Stop`.
pub struct JudgeActor {
    phase: Phase,
}

impl View for JudgeActor {
    type V = JudgeActorView;

    closed spec fn view(&self) -> JudgeActorView {
        match self.phase {
            Phase::Idle => JudgeActorView::Idle,
            Phase::ReadingState { task, url, token } => JudgeActorView::ReadingState {
                task,
                url: url@,
                token: token@,
            },
            Phase::ReadingSettings { task, url, token } => JudgeActorView::ReadingSettings {
                task,
                url: url@,
                token: token@,
            },
            Phase::MarkingPending { task, url, token, settings } => JudgeActorView::MarkingPending {
                task,
                url: url@,
                token: token@,
                settings: settings@,
            },
            Phase::Judging { task, url, reserved } => JudgeActorView::Judging {
                task,
                url: url@,
                reserved,
            },
            Phase::MarkingWaiting { task } => JudgeActorView::MarkingWaiting { task },
            Phase::Decoding { task } => JudgeActorView::Decoding { task },
            Phase::Finalizing { task } => JudgeActorView::Finalizing { task },
            Phase::Notifying { task } => JudgeActorView::Notifying { task },
        }
    }
}

/// The task that a worker in the given phase has in hand.
pub open spec fn task_in_hand(actor: JudgeActorView) -> Option<TaskId> {
    match actor {
        JudgeActorView::Idle => None,
        JudgeActorView::ReadingState { task, .. } => Some(task),
        JudgeActorView::ReadingSettings { task, .. } => Some(task),
        JudgeActorView::MarkingPending { task, .. } => Some(task),
        JudgeActorView::Judging { task, .. } => Some(task),
        JudgeActorView::MarkingWaiting { task } => Some(task),
        JudgeActorView::Decoding { task } => Some(task),
        JudgeActorView::Finalizing { task } => Some(task),
        JudgeActorView::Notifying { task } => Some(task),
    }
}

/// What handling an event leaves behind: the worker's phase, the queue, the
/// registry, and the action that the worker asks for.
pub ghost struct Handled {
    pub actor: JudgeActorView,
    pub queue: Seq<TaskId>,
    pub servers: Seq<JudgeServerInfoView>,
    pub action: JudgeActionView,
}

/// The worker ends its pass for `reason`; queue and registry stay.
pub open spec fn stopped(
    queue: Seq<TaskId>,
    servers: Seq<JudgeServerInfoView>,
    reason: StopReason,
) -> Handled {
    Handled { actor: JudgeActorView::Idle, queue, servers, action: JudgeActionView::Stop(reason) }
}

/// The head of the scheduling loop. With an empty queue the pass ends, whatever
/// the registry holds. With no eligible server it ends and the queue stays.
/// Else the task at the head leaves the queue, and the worker asks for its
/// stored state.
pub open spec fn next_task(queue: Seq<TaskId>, servers: Seq<JudgeServerInfoView>, now: u64) -> Handled {
    if queue.len() == 0 {
        stopped(queue, servers, StopReason::QueueEmpty)
    } else {
        match chosen_server(servers, now) {
            None => stopped(queue, servers, StopReason::NoEligibleServer),
            Some(server) => Handled {
                actor: JudgeActorView::ReadingState { task: queue[0], url: server.0, token: server.1 },
                queue: queue.skip(1),
                servers,
                action: JudgeActionView::ReadState { task: queue[0] },
            },
        }
    }
}

/// With an empty queue the pass ends at once, whatever the registry holds
/// and whatever the time is: nothing of the registry is read.
pub proof fn lemma_empty_queue_ends_pass(
    servers: Seq<JudgeServerInfoView>,
    others: Seq<JudgeServerInfoView>,
    now: u64,
    later: u64,
)
    ensures
        next_task(Seq::empty(), servers, now).action == JudgeActionView::Stop(StopReason::QueueEmpty),
        next_task(Seq::empty(), servers, now).actor == JudgeActorView::Idle,
        next_task(Seq::empty(), servers, now).queue == Seq::<TaskId>::empty(),
        next_task(Seq::empty(), servers, now).servers == servers,
        next_task(Seq::empty(), servers, now).action == next_task(Seq::empty(), others, later).action,
{
}

/// What the payload of a judge server leads to: the write of the result,
/// with `now` as the time at which the task is finished, or the end of the
/// pass where the payload is unreadable or malformed.
pub open spec fn decoded(
    task: TaskId,
    answer: Option<RawJudgeResultView>,
    queue: Seq<TaskId>,
    servers: Seq<JudgeServerInfoView>,
    now: u64,
) -> Handled {
    match answer {
        None => stopped(queue, servers, StopReason::UnreadablePayload(task)),
        Some(raw) => match judge_result_view(raw) {
            Err(error) => stopped(queue, servers, StopReason::MalformedPayload(task, error)),
            Ok(result) => Handled {
                actor: JudgeActorView::Finalizing { task },
                queue,
                servers,
                action: JudgeActionView::Finalize {
                    task,
                    result,
                    out_results: match result.details {
                        Some(details) => Some(distinct_results(details)),
                        None => None,
                    },
                    finish_time: now,
                },
            },
        },
    }
}

/// The decisions of the scheduling loop.
///
/// - Woken while idle, the worker goes to the head of the loop.
/// - A task whose stored state is not `Waiting` is skipped: the worker goes
///   to the head of the loop. For a waiting task it asks for the settings,
///   then for the write of the pending state.
/// - Once the task is pending, the worker reserves a slot of the chosen
///   server, if the registry still has a slot to reserve, and asks for the
///   remote call.
/// - The answer releases the slot that was reserved. An empty answer is a
///   transient failure: the worker asks for the write of the waiting state,
///   and once that is written puts the task back at the head of the queue
///   and goes to the head of the loop. Any other answer is a payload to read.
/// - A payload that is unreadable or malformed ends the pass and leaves the
///   task pending. A well-formed one is stored as the result; then the
///   collaborators are notified, and the worker goes to the head of the loop.
/// - A failure of the store or of the collaborators ends the pass.
/// - An event that does not answer the worker's last action is rejected.
pub open spec fn handled(
    actor: JudgeActorView,
    event: JudgeEventView,
    queue: Seq<TaskId>,
    servers: Seq<JudgeServerInfoView>,
    now: u64,
) -> Handled {
    match (actor, event) {
        (JudgeActorView::Idle, JudgeEventView::StartJudge) => next_task(queue, servers, now),
        (JudgeActorView::ReadingState { task, url, token }, JudgeEventView::StateRead(answer)) => match answer {
            None => stopped(queue, servers, StopReason::StoreFailure(task)),
            Some(state) => if state == SubmissionState::Waiting.name_view() {
                Handled {
                    actor: JudgeActorView::ReadingSettings { task, url, token },
                    queue,
                    servers,
                    action: JudgeActionView::ReadSettings { task },
                }
            } else {
                next_task(queue, servers, now)
            },
        },
        (
            JudgeActorView::ReadingSettings { task, url, token },
            JudgeEventView::SettingsRead(answer),
        ) => match answer {
            None => stopped(queue, servers, StopReason::StoreFailure(task)),
            Some(settings) => Handled {
                actor: JudgeActorView::MarkingPending { task, url, token, settings },
                queue,
                servers,
                action: JudgeActionView::MarkPending { task },
            },
        },
        (
            JudgeActorView::MarkingPending { task, url, token, settings },
            JudgeEventView::StateWritten(done),
        ) => if done {
            Handled {
                actor: JudgeActorView::Judging { task, url, reserved: can_reserve(servers, url) },
                queue,
                servers: reserved(servers, url),
                action: JudgeActionView::Judge { token, url, settings },
            }
        } else {
            stopped(queue, servers, StopReason::StoreFailure(task))
        },
        (JudgeActorView::Judging { task, url, reserved }, JudgeEventView::Judged(answer)) => {
            let servers = if reserved {
                released(servers, url)
            } else {
                servers
            };
            if answer.len() == 0 {
                Handled {
                    actor: JudgeActorView::MarkingWaiting { task },
                    queue,
                    servers,
                    action: JudgeActionView::MarkWaiting { task },
                }
            } else {
                Handled {
                    actor: JudgeActorView::Decoding { task },
                    queue,
                    servers,
                    action: JudgeActionView::Decode { payload: answer },
                }
            }
        },
        (JudgeActorView::MarkingWaiting { task }, JudgeEventView::StateWritten(done)) => if done {
            next_task(seq![task] + queue, servers, now)
        } else {
            stopped(queue, servers, StopReason::StoreFailure(task))
        },
        (JudgeActorView::Decoding { task }, JudgeEventView::Decoded(answer)) => decoded(
            task,
            answer,
            queue,
            servers,
            now,
        ),
        (JudgeActorView::Finalizing { task }, JudgeEventView::Finalized(done)) => if done {
            Handled {
                actor: JudgeActorView::Notifying { task },
                queue,
                servers,
                action: JudgeActionView::Notify { task },
            }
        } else {
            stopped(queue, servers, StopReason::StoreFailure(task))
        },
        (JudgeActorView::Notifying { task }, JudgeEventView::Notified(done)) => if done {
            next_task(queue, servers, now)
        } else {
            stopped(queue, servers, StopReason::NotificationFailure(task))
        },
        _ => Handled { actor, queue, servers, action: JudgeActionView::Rejected },
    }
}

impl JudgeActor {
    /// An idle worker.
    pub fn new() -> (actor: Self)
        ensures
            actor@ == JudgeActorView::Idle,
    {
        JudgeActor { phase: Phase::Idle }
    }

    /// Whether the worker is between two passes.
    pub fn is_idle(&self) -> (idle: bool)
        ensures
            idle == (self@ == JudgeActorView::Idle),
    {
        match self.phase {
            Phase::Idle => true,
            _ => false,
        }
    }

    /// The task that the worker has in hand.
    pub fn task(&self) -> (task: Option<TaskId>)
        ensures
            task == task_in_hand(self@),
    {
        match &self.phase {
            Phase::Idle => None,
            Phase::ReadingState { task, .. } => Some(*task),
            Phase::ReadingSettings { task, .. } => Some(*task),
            Phase::MarkingPending { task, .. } => Some(*task),
            Phase::Judging { task, .. } => Some(*task),
            Phase::MarkingWaiting { task } => Some(*task),
            Phase::Decoding { task } => Some(*task),
            Phase::Finalizing { task } => Some(*task),
            Phase::Notifying { task } => Some(*task),
        }
    }

    /// The head of the scheduling loop: takes the next task for the first
    /// eligible server, or ends the pass.
    fn next_task(
        &mut self,
        infos: &JudgeServerInfos,
        queue: &mut WaitingQueue,
        now: u64,
    ) -> (action: JudgeAction)
        ensures
            final(self)@ == next_task(old(queue)@, infos@, now).actor,
            final(queue)@ == next_task(old(queue)@, infos@, now).queue,
            infos@ == next_task(old(queue)@, infos@, now).servers,
            action@ == next_task(old(queue)@, infos@, now).action,
    {
        self.phase = Phase::Idle;
        if queue.len() == 0 {
            return JudgeAction::Stop(StopReason::QueueEmpty);
        }
        match choose_judge_server(infos, now) {
            None => JudgeAction::Stop(StopReason::NoEligibleServer),
            Some((url, token)) => match queue.dequeue_front() {
                Some(task) => {
                    self.phase = Phase::ReadingState { task, url, token };
                    JudgeAction::ReadState { task }
                },
                None => JudgeAction::Stop(StopReason::QueueEmpty),
            },
        }
    }

    /// Handles one event at the time `now`: decides what the scheduling loop
    /// does next, updates the queue and the registry, and returns the action
    /// that the caller is to perform.
    pub fn handle(
        &mut self,
        event: JudgeEvent,
        infos: &mut JudgeServerInfos,
        queue: &mut WaitingQueue,
        now: u64,
    ) -> (action: JudgeAction)
        ensures
            old(infos).wf() ==> final(infos).wf(),
            final(self)@ == handled(old(self)@, event@, old(queue)@, old(infos)@, now).actor,
            final(queue)@ == handled(old(self)@, event@, old(queue)@, old(infos)@, now).queue,
            final(infos)@ == handled(old(self)@, event@, old(queue)@, old(infos)@, now).servers,
            action@ == handled(old(self)@, event@, old(queue)@, old(infos)@, now).action,
    {
        let mut phase = Phase::Idle;
        core::mem::swap(&mut self.phase, &mut phase);
        match (phase, event) {
            (Phase::Idle, JudgeEvent::StartJudge) => self.next_task(infos, queue, now),
            (Phase::ReadingState { task, url, token }, JudgeEvent::StateRead(answer)) => match answer {
                None => JudgeAction::Stop(StopReason::StoreFailure(task)),
                Some(state) => if is_waiting(&state) {
                    self.phase = Phase::ReadingSettings { task, url, token };
                    JudgeAction::ReadSettings { task }
                } else {
                    self.next_task(infos, queue, now)
                },
            },
            (Phase::ReadingSettings { task, url, token }, JudgeEvent::SettingsRead(answer)) => match answer {
                None => JudgeAction::Stop(StopReason::StoreFailure(task)),
                Some(settings) => {
                    self.phase = Phase::MarkingPending { task, url, token, settings };
                    JudgeAction::MarkPending { task }
                },
            },
            (
                Phase::MarkingPending { task, url, token, settings },
                JudgeEvent::StateWritten(done),
            ) => if done {
                let reserved = infos.reserve(url.as_str());
                self.phase = Phase::Judging { task, url: url.clone(), reserved };
                JudgeAction::Judge { token, url, settings }
            } else {
                JudgeAction::Stop(StopReason::StoreFailure(task))
            },
            (Phase::Judging { task, url, reserved }, JudgeEvent::Judged(answer)) => {
                if reserved {
                    infos.release(url.as_str());
                }
                if answer.as_str().is_empty() {
                    self.phase = Phase::MarkingWaiting { task };
                    JudgeAction::MarkWaiting { task }
                } else {
                    self.phase = Phase::Decoding { task };
                    JudgeAction::Decode { payload: answer }
                }
            },
            (Phase::MarkingWaiting { task }, JudgeEvent::StateWritten(done)) => if done {
                queue.enqueue_front(task);
                self.next_task(infos, queue, now)
            } else {
                JudgeAction::Stop(StopReason::StoreFailure(task))
            },
            (Phase::Decoding { task }, JudgeEvent::Decoded(answer)) => match answer {
                None => JudgeAction::Stop(StopReason::UnreadablePayload(task)),
                Some(raw) => match JudgeResult::try_from(raw) {
                    Err(error) => JudgeAction::Stop(StopReason::MalformedPayload(task, error)),
                    Ok(result) => {
                        let out_results = result.out_results();
                        self.phase = Phase::Finalizing { task };
                        JudgeAction::Finalize { task, result, out_results, finish_time: now }
                    },
                },
            },
            (Phase::Finalizing { task }, JudgeEvent::Finalized(done)) => if done {
                self.phase = Phase::Notifying { task };
                JudgeAction::Notify { task }
            } else {
                JudgeAction::Stop(StopReason::StoreFailure(task))
            },
            (Phase::Notifying { task }, JudgeEvent::Notified(done)) => if done {
                self.next_task(infos, queue, now)
            } else {
                JudgeAction::Stop(StopReason::NotificationFailure(task))
            },
            (phase, _) => {
                self.phase = phase;
                JudgeAction::Rejected
            },
        }
    }
}

} // verus!

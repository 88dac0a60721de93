//! The stages of one mesh generation. The pipeline decides; whoever drives it
//! talks to the service and the disk, and reports back what happened.

use crate::mesh::{MeshMode, TaskStatus, TaskStatusView, TaskSubmission, TaskSubmissionView};
use crate::mesh::{preview_submission, POLL_INTERVAL_SECS};
use crate::storage::{model_paths, model_paths_spec, GeneratedModelPaths, GeneratedModelPathsView};
use crate::storage::{fresh_generation_id, is_generation_id};
use crate::text::{join2, join3, opt_text};
use vstd::prelude::*;
use vstd::string::StringExecFns;

verus! {

/// Why a mesh generation ended without a mesh.
#[derive(Debug)]
pub enum MeshError {
    /// The service could not be reached or refused the request; carries what it said.
    Upstream(String),
    /// A creation response named no task.
    MissingTaskId(MeshMode),
    /// A finished task offered no binary mesh.
    MissingGlbUrl(MeshMode),
    /// A mesh could not be written to disk.
    Storage(String),
    /// The service reported the task as failed, for the reason given.
    TaskFailed { task_id: String, reason: String },
    /// The task was still under way when the allowed number of status requests was spent.
    TimedOut { task_id: String },
    /// An event was reported that the current stage does not wait for.
    OutOfOrder,
}

/// A mesh error as plain text.
pub enum MeshErrorView {
    Upstream(Seq<char>),
    MissingTaskId(MeshMode),
    MissingGlbUrl(MeshMode),
    Storage(Seq<char>),
    TaskFailed { task_id: Seq<char>, reason: Seq<char> },
    TimedOut { task_id: Seq<char> },
    OutOfOrder,
}

impl View for MeshError {
    type V = MeshErrorView;

    open spec fn view(&self) -> MeshErrorView {
        match *self {
            MeshError::Upstream(m) => MeshErrorView::Upstream(m@),
            MeshError::MissingTaskId(mode) => MeshErrorView::MissingTaskId(mode),
            MeshError::MissingGlbUrl(mode) => MeshErrorView::MissingGlbUrl(mode),
            MeshError::Storage(m) => MeshErrorView::Storage(m@),
            MeshError::TaskFailed { task_id, reason } => MeshErrorView::TaskFailed {
                task_id: task_id@,
                reason: reason@,
            },
            MeshError::TimedOut { task_id } => MeshErrorView::TimedOut { task_id: task_id@ },
            MeshError::OutOfOrder => MeshErrorView::OutOfOrder,
        }
    }
}

/// The word for a pass, as it stands in messages.
pub open spec fn mode_word(mode: MeshMode) -> Seq<char> {
    match mode {
        MeshMode::Preview => "preview"@,
        MeshMode::Refine => "refine"@,
    }
}

/// The text of an error.
pub open spec fn error_message(e: MeshErrorView) -> Seq<char> {
    match e {
        MeshErrorView::Upstream(m) => m,
        MeshErrorView::MissingTaskId(mode) => "Meshy "@ + mode_word(mode)
            + " creation response missing task id"@,
        MeshErrorView::MissingGlbUrl(mode) => "Meshy "@ + mode_word(mode)
            + " response missing glb URL"@,
        MeshErrorView::Storage(m) => m,
        MeshErrorView::TaskFailed { task_id, reason } => "Meshy task "@ + task_id + " failed: "@
            + reason,
        MeshErrorView::TimedOut { task_id } => "Meshy task "@ + task_id + " did not finish in time"@,
        MeshErrorView::OutOfOrder => "Meshy pipeline was driven out of order"@,
    }
}

/// The text with which a refused submission is reported.
pub open spec fn rejection_message(mode: MeshMode, status: Seq<char>, body: Seq<char>) -> Seq<
    char,
> {
    "Meshy "@ + mode_word(mode) + " creation request failed ("@ + status + "): "@ + body
}

fn mode_name(mode: MeshMode) -> (r: String)
    ensures
        r@ == mode_word(mode),
{
    match mode {
        MeshMode::Preview => String::from_str("preview"),
        MeshMode::Refine => String::from_str("refine"),
    }
}

/// Renders the report of a refused submission.
pub fn describe_rejection(mode: MeshMode, status: &str, body: &str) -> (r: String)
    ensures
        r@ == rejection_message(mode, status@, body@),
{
    let word = mode_name(mode);
    let head = join3("Meshy ", word.as_str(), " creation request failed (");
    let tail = join3(status, "): ", body);
    let r = join2(head.as_str(), tail.as_str());
    assert(r@ =~= rejection_message(mode, status@, body@));
    r
}

impl MeshError {
    /// Renders the error. A failure that the service reported keeps the service's
    /// reason word for word, after the task's name.
    pub fn message(&self) -> (r: String)
        ensures
            r@ == error_message(self@),
    {
        match self {
            MeshError::Upstream(m) => m.clone(),
            MeshError::MissingTaskId(mode) => {
                let word = mode_name(*mode);
                join3("Meshy ", word.as_str(), " creation response missing task id")
            },
            MeshError::MissingGlbUrl(mode) => {
                let word = mode_name(*mode);
                join3("Meshy ", word.as_str(), " response missing glb URL")
            },
            MeshError::Storage(m) => m.clone(),
            MeshError::TaskFailed { task_id, reason } => {
                let head = join3("Meshy task ", task_id.as_str(), " failed: ");
                join2(head.as_str(), reason.as_str())
            },
            MeshError::TimedOut { task_id } => join3(
                "Meshy task ",
                task_id.as_str(),
                " did not finish in time",
            ),
            MeshError::OutOfOrder => String::from_str("Meshy pipeline was driven out of order"),
        }
    }
}

/// The message of a task that the service failed ends with the service's reason.
pub proof fn lemma_failure_keeps_reason(task_id: Seq<char>, reason: Seq<char>)
    ensures
        ({
            let m = error_message(MeshErrorView::TaskFailed { task_id, reason });
            &&& m.len() >= reason.len()
            &&& m.subrange(m.len() - reason.len(), m.len() as int) == reason
        }),
{
    let m = error_message(MeshErrorView::TaskFailed { task_id, reason });
    let head = "Meshy task "@ + task_id + " failed: "@;
    assert(m == head + reason);
    assert(m.subrange(m.len() - reason.len(), m.len() as int) =~= reason);
}

/// How long a task is polled.
#[derive(Debug, Clone, Copy)]
pub struct PollPolicy {
    /// Seconds to wait before asking again for a task that is still under way.
    pub interval_secs: u64,
    /// The number of status requests allowed for one task; unbounded where `None`.
    pub max_polls: Option<u32>,
}

impl PollPolicy {
    /// The service's cadence, five seconds, without a bound on the number of requests.
    pub fn unbounded() -> (r: Self)
        ensures
            r.interval_secs == POLL_INTERVAL_SECS,
            r.max_polls is None,
    {
        PollPolicy { interval_secs: POLL_INTERVAL_SECS, max_polls: None }
    }

    /// The service's cadence, with at most `max_polls` status requests for one task.
    pub fn bounded(max_polls: u32) -> (r: Self)
        ensures
            r.interval_secs == POLL_INTERVAL_SECS,
            r.max_polls == Some(max_polls),
    {
        PollPolicy { interval_secs: POLL_INTERVAL_SECS, max_polls: Some(max_polls) }
    }

    /// Whether a task that was found under way `pending` times may be asked about again.
    pub open spec fn allows(self, pending: nat) -> bool {
        match self.max_polls {
            Some(limit) => pending < limit,
            None => true,
        }
    }
}

/// Where a mesh generation stands.
#[derive(Debug, Clone, Copy, PartialEq, Eq, Structural)]
pub enum MeshStage {
    /// The preview was submitted; its task is not known yet.
    SubmitPreview,
    /// The preview task is being polled.
    PollPreview,
    /// The refinement was submitted; its task is not known yet.
    SubmitRefine,
    /// The refinement task is being polled.
    PollRefine,
    /// The preview mesh is being downloaded.
    DownloadPreview,
    /// The refined mesh is being downloaded.
    DownloadRefined,
    /// Both meshes are being written to disk.
    Store,
    /// Both meshes are on disk.
    Done,
    /// The generation was given up.
    Failed,
}

impl MeshStage {
    /// The place of a stage in the order in which stages are passed.
    pub open spec fn rank(self) -> nat {
        match self {
            MeshStage::SubmitPreview => 0,
            MeshStage::PollPreview => 1,
            MeshStage::SubmitRefine => 2,
            MeshStage::PollRefine => 3,
            MeshStage::DownloadPreview => 4,
            MeshStage::DownloadRefined => 5,
            MeshStage::Store => 6,
            MeshStage::Done => 7,
            MeshStage::Failed => 8,
        }
    }

    /// Whether nothing follows this stage.
    pub open spec fn is_terminal(self) -> bool {
        self == MeshStage::Done || self == MeshStage::Failed
    }

    /// Whether nothing follows this stage.
    pub fn terminal(&self) -> (r: bool)
        ensures
            r == self.is_terminal(),
    {
        match self {
            MeshStage::Done | MeshStage::Failed => true,
            _ => false,
        }
    }
}

/// One mesh generation under way.
#[derive(Debug)]
pub struct MeshPipeline {
    pub stage: MeshStage,
    pub policy: PollPolicy,
    /// The identifier under which the meshes are stored.
    pub generation_id: String,
    /// The preview task, once known.
    pub preview_task: String,
    /// The refinement task, once known.
    pub refine_task: String,
    /// The address of the preview mesh, once known.
    pub preview_url: String,
    /// The address of the refined mesh, once known.
    pub refined_url: String,
    /// How often the task now polled was found still under way.
    pub pending_polls: u32,
}

/// A pipeline as plain values.
pub struct MeshPipelineView {
    pub stage: MeshStage,
    pub policy: PollPolicy,
    pub generation_id: Seq<char>,
    pub preview_task: Seq<char>,
    pub refine_task: Seq<char>,
    pub preview_url: Seq<char>,
    pub refined_url: Seq<char>,
    pub pending_polls: u32,
}

impl View for MeshPipeline {
    type V = MeshPipelineView;

    open spec fn view(&self) -> MeshPipelineView {
        MeshPipelineView {
            stage: self.stage,
            policy: self.policy,
            generation_id: self.generation_id@,
            preview_task: self.preview_task@,
            refine_task: self.refine_task@,
            preview_url: self.preview_url@,
            refined_url: self.refined_url@,
            pending_polls: self.pending_polls,
        }
    }
}

/// What the driver is told by the outside world.
#[derive(Debug)]
pub enum MeshEvent {
    /// The service accepted a submission; the task it named, if it named one.
    Created(Option<String>),
    /// The service refused a submission, with this status line and body.
    Rejected { status: String, body: String },
    /// The service reported on the task being polled.
    Status(TaskStatus),
    /// The download that was asked for is complete.
    Fetched,
    /// Both meshes are written.
    Stored,
    /// A request, a download or a write broke off; the message says how.
    Broken(String),
}

/// An event as plain values.
pub enum MeshEventView {
    Created(Option<Seq<char>>),
    Rejected { status: Seq<char>, body: Seq<char> },
    Status(TaskStatusView),
    Fetched,
    Stored,
    Broken(Seq<char>),
}

impl View for MeshEvent {
    type V = MeshEventView;

    open spec fn view(&self) -> MeshEventView {
        match *self {
            MeshEvent::Created(id) => MeshEventView::Created(opt_text(id)),
            MeshEvent::Rejected { status, body } => MeshEventView::Rejected {
                status: status@,
                body: body@,
            },
            MeshEvent::Status(s) => MeshEventView::Status(s@),
            MeshEvent::Fetched => MeshEventView::Fetched,
            MeshEvent::Stored => MeshEventView::Stored,
            MeshEvent::Broken(m) => MeshEventView::Broken(m@),
        }
    }
}

/// What the driver is to do next.
#[derive(Debug)]
pub enum MeshAction {
    /// Send this submission to the service.
    Submit(TaskSubmission),
    /// Wait `wait_secs` seconds, then ask for the status of `task_id`.
    Poll { task_id: String, wait_secs: u64 },
    /// Download what `url` offers.
    Fetch { url: String },
    /// Write the two downloaded meshes under the directory of `generation_id`.
    Store { generation_id: String },
    /// The generation is over, with these paths or this error.
    Finish(Result<GeneratedModelPaths, MeshError>),
    /// The generation was over before; there is nothing to do.
    Halt,
}

/// An action as plain values.
pub enum MeshActionView {
    Submit(TaskSubmissionView),
    Poll { task_id: Seq<char>, wait_secs: u64 },
    Fetch { url: Seq<char> },
    Store { generation_id: Seq<char> },
    Finish(Result<GeneratedModelPathsView, MeshErrorView>),
    Halt,
}

impl View for MeshAction {
    type V = MeshActionView;

    open spec fn view(&self) -> MeshActionView {
        match *self {
            MeshAction::Submit(s) => MeshActionView::Submit(s@),
            MeshAction::Poll { task_id, wait_secs } => MeshActionView::Poll {
                task_id: task_id@,
                wait_secs,
            },
            MeshAction::Fetch { url } => MeshActionView::Fetch { url: url@ },
            MeshAction::Store { generation_id } => MeshActionView::Store {
                generation_id: generation_id@,
            },
            MeshAction::Finish(Ok(paths)) => MeshActionView::Finish(Ok(paths@)),
            MeshAction::Finish(Err(e)) => MeshActionView::Finish(Err(e@)),
            MeshAction::Halt => MeshActionView::Halt,
        }
    }
}

/// The pipeline given up for `error`.
pub open spec fn give_up(s: MeshPipelineView, error: MeshErrorView) -> (
    MeshPipelineView,
    MeshActionView,
) {
    (MeshPipelineView { stage: MeshStage::Failed, ..s }, MeshActionView::Finish(Err(error)))
}

/// The pass that a submitting or polling stage belongs to.
pub open spec fn stage_mode(stage: MeshStage) -> MeshMode {
    match stage {
        MeshStage::SubmitPreview | MeshStage::PollPreview => MeshMode::Preview,
        _ => MeshMode::Refine,
    }
}

/// The task that a polling stage asks about.
pub open spec fn polled_task(s: MeshPipelineView) -> Seq<char> {
    if s.stage == MeshStage::PollPreview {
        s.preview_task
    } else {
        s.refine_task
    }
}

/// The count of pending reports after one more, held at the largest count there is.
pub open spec fn one_more(pending: u32) -> u32 {
    if pending < u32::MAX {
        (pending + 1) as u32
    } else {
        pending
    }
}

/// What follows when a submission was answered with `created`.
pub open spec fn after_created(s: MeshPipelineView, created: Option<Seq<char>>) -> (
    MeshPipelineView,
    MeshActionView,
) {
    match created {
        None => give_up(s, MeshErrorView::MissingTaskId(stage_mode(s.stage))),
        Some(task) => if s.stage == MeshStage::SubmitPreview {
            (
                MeshPipelineView {
                    stage: MeshStage::PollPreview,
                    preview_task: task,
                    pending_polls: 0,
                    ..s
                },
                MeshActionView::Poll { task_id: task, wait_secs: 0 },
            )
        } else {
            (
                MeshPipelineView {
                    stage: MeshStage::PollRefine,
                    refine_task: task,
                    pending_polls: 0,
                    ..s
                },
                MeshActionView::Poll { task_id: task, wait_secs: 0 },
            )
        },
    }
}

/// What follows when the polled task was reported as `status`.
pub open spec fn after_status(s: MeshPipelineView, status: TaskStatusView) -> (
    MeshPipelineView,
    MeshActionView,
) {
    match status {
        TaskStatusView::Failed { reason } => give_up(
            s,
            MeshErrorView::TaskFailed { task_id: polled_task(s), reason },
        ),
        TaskStatusView::Succeeded { glb_url: None } => give_up(
            s,
            MeshErrorView::MissingGlbUrl(stage_mode(s.stage)),
        ),
        TaskStatusView::Succeeded { glb_url: Some(url) } => if s.stage == MeshStage::PollPreview {
            (
                MeshPipelineView { stage: MeshStage::SubmitRefine, preview_url: url, ..s },
                MeshActionView::Submit(
                    TaskSubmissionView::Refine { preview_task_id: s.preview_task },
                ),
            )
        } else {
            (
                MeshPipelineView { stage: MeshStage::DownloadPreview, refined_url: url, ..s },
                MeshActionView::Fetch { url: s.preview_url },
            )
        },
        TaskStatusView::Pending => {
            let pending = one_more(s.pending_polls);
            if s.policy.allows(pending as nat) {
                (
                    MeshPipelineView { pending_polls: pending, ..s },
                    MeshActionView::Poll {
                        task_id: polled_task(s),
                        wait_secs: s.policy.interval_secs,
                    },
                )
            } else {
                give_up(s, MeshErrorView::TimedOut { task_id: polled_task(s) })
            }
        },
    }
}

/// The pipeline and the action that follow `event` in state `s`.
///
/// A finished pipeline stays as it is. A broken request or write ends the
/// generation, as a storage failure while the meshes are written and as an
/// upstream failure before. Otherwise each stage answers the one kind of event
/// it waits for, and any other ends the generation as driven out of order.
pub open spec fn step_spec(s: MeshPipelineView, event: MeshEventView) -> (
    MeshPipelineView,
    MeshActionView,
) {
    if s.stage.is_terminal() {
        (s, MeshActionView::Halt)
    } else {
        match (s.stage, event) {
            (MeshStage::Store, MeshEventView::Broken(m)) => give_up(s, MeshErrorView::Storage(m)),
            (_, MeshEventView::Broken(m)) => give_up(s, MeshErrorView::Upstream(m)),
            (MeshStage::SubmitPreview, MeshEventView::Created(created)) => after_created(
                s,
                created,
            ),
            (MeshStage::SubmitRefine, MeshEventView::Created(created)) => after_created(s, created),
            (MeshStage::SubmitPreview, MeshEventView::Rejected { status, body }) => give_up(
                s,
                MeshErrorView::Upstream(rejection_message(MeshMode::Preview, status, body)),
            ),
            (MeshStage::SubmitRefine, MeshEventView::Rejected { status, body }) => give_up(
                s,
                MeshErrorView::Upstream(rejection_message(MeshMode::Refine, status, body)),
            ),
            (MeshStage::PollPreview, MeshEventView::Status(status)) => after_status(s, status),
            (MeshStage::PollRefine, MeshEventView::Status(status)) => after_status(s, status),
            (MeshStage::DownloadPreview, MeshEventView::Fetched) => (
                MeshPipelineView { stage: MeshStage::DownloadRefined, ..s },
                MeshActionView::Fetch { url: s.refined_url },
            ),
            (MeshStage::DownloadRefined, MeshEventView::Fetched) => (
                MeshPipelineView { stage: MeshStage::Store, ..s },
                MeshActionView::Store { generation_id: s.generation_id },
            ),
            (MeshStage::Store, MeshEventView::Stored) => (
                MeshPipelineView { stage: MeshStage::Done, ..s },
                MeshActionView::Finish(Ok(model_paths_spec(s.generation_id))),
            ),
            _ => give_up(s, MeshErrorView::OutOfOrder),
        }
    }
}

/// The pipeline at its start, for the generation `generation_id`.
pub open spec fn start_spec(policy: PollPolicy, generation_id: Seq<char>) -> MeshPipelineView {
    MeshPipelineView {
        stage: MeshStage::SubmitPreview,
        policy,
        generation_id,
        preview_task: Seq::empty(),
        refine_task: Seq::empty(),
        preview_url: Seq::empty(),
        refined_url: Seq::empty(),
        pending_polls: 0,
    }
}

impl MeshPipeline {
    /// Starts the generation `generation_id` for `prompt`: the preview is to be submitted.
    pub fn start(prompt: &str, policy: PollPolicy, generation_id: String) -> (r: (
        MeshPipeline,
        MeshAction,
    ))
        ensures
            r.0@ == start_spec(policy, generation_id@),
            r.1@ == MeshActionView::Submit(preview_submission(prompt@)),
    {
        let pipeline = MeshPipeline {
            stage: MeshStage::SubmitPreview,
            policy,
            generation_id,
            preview_task: String::new(),
            refine_task: String::new(),
            preview_url: String::new(),
            refined_url: String::new(),
            pending_polls: 0,
        };
        (pipeline, MeshAction::Submit(TaskSubmission::preview(prompt)))
    }

    /// Starts a generation for `prompt` under an identifier of its own.
    pub fn begin(prompt: &str, policy: PollPolicy) -> (r: (MeshPipeline, MeshAction))
        ensures
            is_generation_id(r.0@.generation_id),
            r.0@ == start_spec(policy, r.0@.generation_id),
            r.1@ == MeshActionView::Submit(preview_submission(prompt@)),
    {
        MeshPipeline::start(prompt, policy, fresh_generation_id())
    }

    fn fail(self, error: MeshError) -> (r: (MeshPipeline, MeshAction))
        ensures
            (r.0@, r.1@) == give_up(self@, error@),
    {
        let mut next = self;
        next.stage = MeshStage::Failed;
        (next, MeshAction::Finish(Err(error)))
    }

    fn mode(&self) -> (r: MeshMode)
        ensures
            r == stage_mode(self.stage),
    {
        match self.stage {
            MeshStage::SubmitPreview | MeshStage::PollPreview => MeshMode::Preview,
            _ => MeshMode::Refine,
        }
    }

    fn polled(&self) -> (r: String)
        ensures
            r@ == polled_task(self@),
    {
        match self.stage {
            MeshStage::PollPreview => self.preview_task.clone(),
            _ => self.refine_task.clone(),
        }
    }

    fn created(self, created: Option<String>) -> (r: (MeshPipeline, MeshAction))
        requires
            self.stage == MeshStage::SubmitPreview || self.stage == MeshStage::SubmitRefine,
        ensures
            (r.0@, r.1@) == after_created(self@, opt_text(created)),
    {
        match created {
            None => {
                let mode = self.mode();
                self.fail(MeshError::MissingTaskId(mode))
            },
            Some(task) => {
                let mut next = self;
                let task_id = task.clone();
                next.pending_polls = 0;
                match next.stage {
                    MeshStage::SubmitPreview => {
                        next.stage = MeshStage::PollPreview;
                        next.preview_task = task;
                    },
                    _ => {
                        next.stage = MeshStage::PollRefine;
                        next.refine_task = task;
                    },
                }
                (next, MeshAction::Poll { task_id, wait_secs: 0 })
            },
        }
    }

    fn reported(self, status: TaskStatus) -> (r: (MeshPipeline, MeshAction))
        requires
            self.stage == MeshStage::PollPreview || self.stage == MeshStage::PollRefine,
        ensures
            (r.0@, r.1@) == after_status(self@, status@),
    {
        match status {
            TaskStatus::Failed { reason } => {
                let task_id = self.polled();
                self.fail(MeshError::TaskFailed { task_id, reason })
            },
            TaskStatus::Succeeded { glb_url: None } => {
                let mode = self.mode();
                self.fail(MeshError::MissingGlbUrl(mode))
            },
            TaskStatus::Succeeded { glb_url: Some(url) } => {
                let mut next = self;
                match next.stage {
                    MeshStage::PollPreview => {
                        next.stage = MeshStage::SubmitRefine;
                        next.preview_url = url;
                        let submission = TaskSubmission::refine(next.preview_task.as_str());
                        (next, MeshAction::Submit(submission))
                    },
                    _ => {
                        next.stage = MeshStage::DownloadPreview;
                        next.refined_url = url;
                        let url = next.preview_url.clone();
                        (next, MeshAction::Fetch { url })
                    },
                }
            },
            TaskStatus::Pending => {
                let pending = if self.pending_polls < u32::MAX {
                    self.pending_polls + 1
                } else {
                    self.pending_polls
                };
                let allowed = match self.policy.max_polls {
                    Some(limit) => pending < limit,
                    None => true,
                };
                let task_id = self.polled();
                if allowed {
                    let mut next = self;
                    next.pending_polls = pending;
                    let wait_secs = next.policy.interval_secs;
                    (next, MeshAction::Poll { task_id, wait_secs })
                } else {
                    self.fail(MeshError::TimedOut { task_id })
                }
            },
        }
    }

    /// Takes `event` in and says what to do next.
    pub fn step(self, event: MeshEvent) -> (r: (MeshPipeline, MeshAction))
        ensures
            (r.0@, r.1@) == step_spec(self@, event@),
    {
        if self.stage.terminal() {
            return (self, MeshAction::Halt);
        }
        match event {
            MeshEvent::Broken(m) => match self.stage {
                MeshStage::Store => self.fail(MeshError::Storage(m)),
                _ => self.fail(MeshError::Upstream(m)),
            },
            MeshEvent::Created(created) => match self.stage {
                MeshStage::SubmitPreview | MeshStage::SubmitRefine => self.created(created),
                _ => self.fail(MeshError::OutOfOrder),
            },
            MeshEvent::Rejected { status, body } => match self.stage {
                MeshStage::SubmitPreview | MeshStage::SubmitRefine => {
                    let mode = self.mode();
                    let text = describe_rejection(mode, status.as_str(), body.as_str());
                    self.fail(MeshError::Upstream(text))
                },
                _ => self.fail(MeshError::OutOfOrder),
            },
            MeshEvent::Status(status) => match self.stage {
                MeshStage::PollPreview | MeshStage::PollRefine => self.reported(status),
                _ => self.fail(MeshError::OutOfOrder),
            },
            MeshEvent::Fetched => match self.stage {
                MeshStage::DownloadPreview => {
                    let mut next = self;
                    next.stage = MeshStage::DownloadRefined;
                    let url = next.refined_url.clone();
                    (next, MeshAction::Fetch { url })
                },
                MeshStage::DownloadRefined => {
                    let mut next = self;
                    next.stage = MeshStage::Store;
                    let generation_id = next.generation_id.clone();
                    (next, MeshAction::Store { generation_id })
                },
                _ => self.fail(MeshError::OutOfOrder),
            },
            MeshEvent::Stored => match self.stage {
                MeshStage::Store => {
                    let mut next = self;
                    next.stage = MeshStage::Done;
                    let paths = model_paths(next.generation_id.as_str());
                    (next, MeshAction::Finish(Ok(paths)))
                },
                _ => self.fail(MeshError::OutOfOrder),
            },
        }
    }
}

/// No event takes a pipeline back to an earlier stage, and a finished pipeline
/// is left as it is.
pub proof fn lemma_stages_only_advance(s: MeshPipelineView, event: MeshEventView)
    ensures
        step_spec(s, event).0.stage.rank() >= s.stage.rank(),
        s.stage.is_terminal() ==> step_spec(s, event) == (s, MeshActionView::Halt),
{
}

/// A pipeline under way ends its generation exactly when it reaches a final
/// stage, and hands out paths exactly when that stage is `Done`: then the paths
/// are those of its own generation.
pub proof fn lemma_finish_is_final(s: MeshPipelineView, event: MeshEventView)
    requires
        !s.stage.is_terminal(),
    ensures
        step_spec(s, event).1 is Finish <==> step_spec(s, event).0.stage.is_terminal(),
        step_spec(s, event).0.stage == MeshStage::Done <==> step_spec(s, event).1
            == MeshActionView::Finish(Ok(model_paths_spec(s.generation_id))),
        step_spec(s, event).0.stage == MeshStage::Done ==> s.stage == MeshStage::Store,
{
}

/// A task that the service reports as failed ends the generation at once, in
/// either pass, with an error whose text ends with the service's reason.
pub proof fn lemma_failed_task_ends_generation(s: MeshPipelineView, reason: Seq<char>)
    requires
        s.stage == MeshStage::PollPreview || s.stage == MeshStage::PollRefine,
    ensures
        ({
            let after = step_spec(s, MeshEventView::Status(TaskStatusView::Failed { reason }));
            let error = MeshErrorView::TaskFailed { task_id: polled_task(s), reason };
            let text = error_message(error);
            &&& after.0.stage == MeshStage::Failed
            &&& after.1 == MeshActionView::Finish(Err(error))
            &&& text.len() >= reason.len()
            &&& text.subrange(text.len() - reason.len(), text.len() as int) == reason
        }),
{
    lemma_failure_keeps_reason(polled_task(s), reason);
}

/// Under a policy of `limit` status requests, a task found under way is asked
/// about again only while fewer than `limit` such reports were counted.
pub proof fn lemma_polling_is_bounded(s: MeshPipelineView, limit: u32)
    requires
        s.stage == MeshStage::PollPreview || s.stage == MeshStage::PollRefine,
        s.policy.max_polls == Some(limit),
    ensures
        ({
            let after = step_spec(s, MeshEventView::Status(TaskStatusView::Pending));
            &&& after.1 is Poll ==> after.0.pending_polls < limit && after.0.stage == s.stage
            &&& !(after.1 is Poll) ==> after.1 == MeshActionView::Finish(
                Err(MeshErrorView::TimedOut { task_id: polled_task(s) }),
            )
        }),
{
}

/// A generation that meets no failure passes every stage once and ends with the
/// paths of its own meshes: preview created and finished, refinement created and
/// finished, both meshes fetched — the preview first — and stored.
pub proof fn lemma_undisturbed_run_finishes(
    policy: PollPolicy,
    generation_id: Seq<char>,
    preview_task: Seq<char>,
    preview_url: Seq<char>,
    refine_task: Seq<char>,
    refined_url: Seq<char>,
)
    ensures
        ({
            let s0 = start_spec(policy, generation_id);
            let s1 = step_spec(s0, MeshEventView::Created(Some(preview_task)));
            let s2 = step_spec(
                s1.0,
                MeshEventView::Status(TaskStatusView::Succeeded { glb_url: Some(preview_url) }),
            );
            let s3 = step_spec(s2.0, MeshEventView::Created(Some(refine_task)));
            let s4 = step_spec(
                s3.0,
                MeshEventView::Status(TaskStatusView::Succeeded { glb_url: Some(refined_url) }),
            );
            let s5 = step_spec(s4.0, MeshEventView::Fetched);
            let s6 = step_spec(s5.0, MeshEventView::Fetched);
            let s7 = step_spec(s6.0, MeshEventView::Stored);
            &&& s1.1 == MeshActionView::Poll { task_id: preview_task, wait_secs: 0 }
            &&& s2.1 == MeshActionView::Submit(
                TaskSubmissionView::Refine { preview_task_id: preview_task },
            )
            &&& s3.1 == MeshActionView::Poll { task_id: refine_task, wait_secs: 0 }
            &&& s4.1 == MeshActionView::Fetch { url: preview_url }
            &&& s5.1 == MeshActionView::Fetch { url: refined_url }
            &&& s6.1 == MeshActionView::Store { generation_id }
            &&& s7.1 == MeshActionView::Finish(Ok(model_paths_spec(generation_id)))
            &&& s7.0.stage == MeshStage::Done
        }),
{
}

} // verus!

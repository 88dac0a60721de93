//! The text-to-3D service: what is sent to it, how its answers are read, and
//! where the meshes it produces are kept.

use crate::json::{json_keys, json_text_at, lemma_text_below, member, text};
use crate::text::{join2, join3, opt_text, same_text};
use serde_json::Value;
use vstd::prelude::*;
use vstd::string::StringExecFns;

verus! {

/// Seconds between two status requests for one task.
pub const POLL_INTERVAL_SECS: u64 = 5;

/// The address of the service's text-to-3D endpoint.
pub fn base_url() -> (r: String)
    ensures
        r@ == "https://api.meshy.ai/openapi/v2/text-to-3d"@,
{
    String::from_str("https://api.meshy.ai/openapi/v2/text-to-3d")
}

/// The address at which the status of `task_id` is asked for.
pub fn task_url(task_id: &str) -> (r: String)
    ensures
        r@ == "https://api.meshy.ai/openapi/v2/text-to-3d"@ + "/"@ + task_id@,
{
    join3("https://api.meshy.ai/openapi/v2/text-to-3d", "/", task_id)
}

/// The value of the authorization header for `api_key`.
pub fn bearer_token(api_key: &str) -> (r: String)
    ensures
        r@ == "Bearer "@ + api_key@,
{
    join2("Bearer ", api_key)
}

/// Which of the two passes of the service a task belongs to.
#[derive(Debug, Clone, Copy, PartialEq, Eq, Structural)]
pub enum MeshMode {
    Preview,
    Refine,
}

/// The body of a request that creates a task.
#[derive(Debug)]
pub enum TaskSubmission {
    /// A first, coarse mesh for a prompt.
    Preview {
        prompt: String,
        negative_prompt: String,
        art_style: String,
        should_remesh: bool,
    },
    /// The refinement of a finished preview.
    Refine { preview_task_id: String },
}

/// A submission as plain text.
pub enum TaskSubmissionView {
    Preview {
        prompt: Seq<char>,
        negative_prompt: Seq<char>,
        art_style: Seq<char>,
        should_remesh: bool,
    },
    Refine { preview_task_id: Seq<char> },
}

impl View for TaskSubmission {
    type V = TaskSubmissionView;

    open spec fn view(&self) -> TaskSubmissionView {
        match *self {
            TaskSubmission::Preview { prompt, negative_prompt, art_style, should_remesh } => {
                TaskSubmissionView::Preview {
                    prompt: prompt@,
                    negative_prompt: negative_prompt@,
                    art_style: art_style@,
                    should_remesh,
                }
            },
            TaskSubmission::Refine { preview_task_id } => TaskSubmissionView::Refine {
                preview_task_id: preview_task_id@,
            },
        }
    }
}

/// The preview submission for a prompt.
pub open spec fn preview_submission(prompt: Seq<char>) -> TaskSubmissionView {
    TaskSubmissionView::Preview {
        prompt,
        negative_prompt: "low quality, low resolution, low poly, ugly"@,
        art_style: "realistic"@,
        should_remesh: true,
    }
}

impl TaskSubmission {
    /// The request for a preview of `prompt`: realistic style, remeshed, steering
    /// away from low quality results.
    pub fn preview(prompt: &str) -> (r: Self)
        ensures
            r@ == preview_submission(prompt@),
    {
        TaskSubmission::Preview {
            prompt: String::from_str(prompt),
            negative_prompt: String::from_str("low quality, low resolution, low poly, ugly"),
            art_style: String::from_str("realistic"),
            should_remesh: true,
        }
    }

    /// The request to refine the preview made by task `preview_task_id`.
    pub fn refine(preview_task_id: &str) -> (r: Self)
        ensures
            r@ == (TaskSubmissionView::Refine { preview_task_id: preview_task_id@ }),
    {
        TaskSubmission::Refine { preview_task_id: String::from_str(preview_task_id) }
    }

    /// The pass this submission asks for.
    pub fn mode(&self) -> (r: MeshMode)
        ensures
            r == match self@ {
                TaskSubmissionView::Preview { .. } => MeshMode::Preview,
                TaskSubmissionView::Refine { .. } => MeshMode::Refine,
            },
    {
        match self {
            TaskSubmission::Preview { .. } => MeshMode::Preview,
            TaskSubmission::Refine { .. } => MeshMode::Refine,
        }
    }
}

/// The path of the key `a`.
pub open spec fn path1(a: Seq<char>) -> Seq<Seq<char>> {
    seq![a]
}

/// The path of the key `a` and, below it, the key `b`.
pub open spec fn path2(a: Seq<char>, b: Seq<char>) -> Seq<Seq<char>> {
    seq![a, b]
}

/// The string that `v` holds under `key`, if `v` is an object with a string there.
pub fn text_member(v: &Value, key: &str) -> (r: Option<String>)
    ensures
        opt_text(r) == json_text_at(*v, path1(key@)),
{
    proof {
        lemma_text_below(*v, key@, Seq::empty());
        assert(seq![key@] + Seq::<Seq<char>>::empty() =~= path1(key@));
    }
    match member(v, key) {
        Some(m) => match text(m) {
            Some(s) => Some(String::from_str(s)),
            None => None,
        },
        None => None,
    }
}

/// The identifier of the task that a creation response announces in `result`.
pub fn extract_task_id(value: &Value) -> (r: Option<String>)
    ensures
        opt_text(r) == json_text_at(*value, path1("result"@)),
{
    text_member(value, "result")
}

/// The address of the binary mesh that a finished task offers in `model_urls.glb`.
pub fn extract_glb_url(payload: &Value) -> (r: Option<String>)
    ensures
        opt_text(r) == json_text_at(*payload, path2("model_urls"@, "glb"@)),
{
    proof {
        lemma_text_below(*payload, "model_urls"@, path1("glb"@));
        assert(seq!["model_urls"@] + path1("glb"@) =~= path2("model_urls"@, "glb"@));
    }
    match member(payload, "model_urls") {
        Some(urls) => text_member(urls, "glb"),
        None => None,
    }
}

/// The state of a task as the service reports it.
#[derive(Debug)]
pub enum TaskStatus {
    /// The task is done; the address of its mesh, where the report names one.
    Succeeded { glb_url: Option<String> },
    /// The task failed for good, for the reason given.
    Failed { reason: String },
    /// The task is queued or running.
    Pending,
}

/// A task status as plain text.
pub enum TaskStatusView {
    Succeeded { glb_url: Option<Seq<char>> },
    Failed { reason: Seq<char> },
    Pending,
}

impl View for TaskStatus {
    type V = TaskStatusView;

    open spec fn view(&self) -> TaskStatusView {
        match *self {
            TaskStatus::Succeeded { glb_url } => TaskStatusView::Succeeded {
                glb_url: opt_text(glb_url),
            },
            TaskStatus::Failed { reason } => TaskStatusView::Failed { reason: reason@ },
            TaskStatus::Pending => TaskStatusView::Pending,
        }
    }
}

/// The status word of a report; empty where the report has none.
pub open spec fn status_word(payload: Value) -> Seq<char> {
    match json_text_at(payload, path1("status"@)) {
        Some(word) => word,
        None => Seq::empty(),
    }
}

/// The reason a failed report gives: the string under `failure_reason` where the
/// report has that member, else the string under `message`; a fixed text where
/// the member consulted is missing or no string.
pub open spec fn failure_reason(payload: Value) -> Seq<char> {
    let given = if json_keys(payload).contains("failure_reason"@) {
        json_text_at(payload, path1("failure_reason"@))
    } else {
        json_text_at(payload, path1("message"@))
    };
    match given {
        Some(reason) => reason,
        None => "Meshy task failed for unspecified reason"@,
    }
}

/// What a status report says of its task.
pub open spec fn report_status(payload: Value) -> TaskStatusView {
    if status_word(payload) == "SUCCEEDED"@ {
        TaskStatusView::Succeeded { glb_url: json_text_at(payload, path2("model_urls"@, "glb"@)) }
    } else if status_word(payload) == "FAILED"@ {
        TaskStatusView::Failed { reason: failure_reason(payload) }
    } else {
        TaskStatusView::Pending
    }
}

/// What a member of a report holds, as far as a reason is looked for in it.
#[derive(Debug)]
pub enum ReasonMember {
    /// The report has no such member.
    Absent,
    /// The member is no string.
    Unreadable,
    /// The member is this string.
    Text(String),
}

/// The reason to give, from what the two members hold that may carry one: the
/// first decides where it is there, readable or not; the second is consulted
/// only where the first is absent.
pub open spec fn chosen_reason(failure_reason: ReasonMember, message: ReasonMember) -> Seq<char> {
    let consulted = if failure_reason is Absent {
        message
    } else {
        failure_reason
    };
    match consulted {
        ReasonMember::Text(reason) => reason@,
        _ => "Meshy task failed for unspecified reason"@,
    }
}

/// Picks the reason to give for a failed task.
pub fn choose_reason(failure_reason: ReasonMember, message: ReasonMember) -> (r: String)
    ensures
        r@ == chosen_reason(failure_reason, message),
{
    let consulted = match failure_reason {
        ReasonMember::Absent => message,
        other => other,
    };
    match consulted {
        ReasonMember::Text(reason) => reason,
        _ => String::from_str("Meshy task failed for unspecified reason"),
    }
}

/// Reads the member `key` of a report.
pub fn read_reason_member(payload: &Value, key: &str) -> (r: ReasonMember)
    ensures
        r is Absent <==> !json_keys(*payload).contains(key@),
        r matches ReasonMember::Text(reason) ==> json_text_at(*payload, path1(key@)) == Some(
            reason@,
        ),
        !(r is Text) ==> json_text_at(*payload, path1(key@)) is None,
{
    proof {
        lemma_text_below(*payload, key@, Seq::empty());
        assert(seq![key@] + Seq::<Seq<char>>::empty() =~= path1(key@));
    }
    match member(payload, key) {
        None => ReasonMember::Absent,
        Some(m) => match text(m) {
            Some(reason) => ReasonMember::Text(String::from_str(reason)),
            None => ReasonMember::Unreadable,
        },
    }
}

/// Reads the reason out of a failed report.
pub fn read_failure_reason(payload: &Value) -> (r: String)
    ensures
        r@ == failure_reason(*payload),
{
    let failure_reason = read_reason_member(payload, "failure_reason");
    let message = read_reason_member(payload, "message");
    choose_reason(failure_reason, message)
}

/// What a status word says of a task.
#[derive(Debug, Clone, Copy, PartialEq, Eq, Structural)]
pub enum StatusWord {
    Succeeded,
    Failed,
    /// Queued, running, or a word that is not known: the task is under way.
    UnderWay,
}

/// What the status word `word` says.
pub open spec fn status_word_meaning(word: Seq<char>) -> StatusWord {
    if word == "SUCCEEDED"@ {
        StatusWord::Succeeded
    } else if word == "FAILED"@ {
        StatusWord::Failed
    } else {
        StatusWord::UnderWay
    }
}

/// Tells what a status word says: `SUCCEEDED` and `FAILED` are final, in exactly
/// this spelling; every other word means that the task is still under way.
pub fn classify_status_word(word: &str) -> (r: StatusWord)
    ensures
        r == status_word_meaning(word@),
{
    if same_text(word, "SUCCEEDED") {
        StatusWord::Succeeded
    } else if same_text(word, "FAILED") {
        StatusWord::Failed
    } else {
        StatusWord::UnderWay
    }
}

/// Reads a status report. A report without a status word is read as one with an
/// empty word.
pub fn read_status(payload: &Value) -> (r: TaskStatus)
    ensures
        r@ == report_status(*payload),
{
    let word = match text_member(payload, "status") {
        Some(word) => word,
        None => String::new(),
    };
    match classify_status_word(word.as_str()) {
        StatusWord::Succeeded => TaskStatus::Succeeded { glb_url: extract_glb_url(payload) },
        StatusWord::Failed => TaskStatus::Failed { reason: read_failure_reason(payload) },
        StatusWord::UnderWay => TaskStatus::Pending,
    }
}

} // verus!

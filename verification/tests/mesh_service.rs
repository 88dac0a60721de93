use generative::mesh::{
    base_url, bearer_token, choose_reason, classify_status_word, extract_glb_url, extract_task_id,
    read_failure_reason, read_reason_member, read_status, task_url, text_member, MeshMode,
    ReasonMember, StatusWord, TaskStatus, TaskSubmission, POLL_INTERVAL_SECS,
};
use generative::pipeline::{
    describe_rejection, MeshAction, MeshError, MeshEvent, MeshPipeline, MeshStage, PollPolicy,
};
use generative::storage::{
    fresh_generation_id, ground_texture_path, model_directory, model_paths, sky_texture_path,
};
use serde_json::Value;

fn parse(text: &str) -> Value {
    serde_json::from_str(text).unwrap()
}

fn started(policy: PollPolicy) -> MeshPipeline {
    let (pipeline, action) = MeshPipeline::start("a mossy rock", policy, "gen-1".to_string());
    match action {
        MeshAction::Submit(TaskSubmission::Preview {
            prompt,
            negative_prompt,
            art_style,
            should_remesh,
        }) => {
            assert_eq!(prompt, "a mossy rock");
            assert_eq!(negative_prompt, "low quality, low resolution, low poly, ugly");
            assert_eq!(art_style, "realistic");
            assert!(should_remesh);
        }
        other => panic!("unexpected action {:?}", other),
    }
    assert_eq!(pipeline.stage, MeshStage::SubmitPreview);
    pipeline
}

fn polling_preview(policy: PollPolicy) -> MeshPipeline {
    let (pipeline, action) = started(policy).step(MeshEvent::Created(Some("task-1".to_string())));
    match action {
        MeshAction::Poll { task_id, wait_secs } => {
            assert_eq!(task_id, "task-1");
            assert_eq!(wait_secs, 0);
        }
        other => panic!("unexpected action {:?}", other),
    }
    assert_eq!(pipeline.stage, MeshStage::PollPreview);
    pipeline
}

#[test]
fn addresses_and_header() {
    assert_eq!(base_url(), "https://api.meshy.ai/openapi/v2/text-to-3d");
    assert_eq!(task_url("abc"), "https://api.meshy.ai/openapi/v2/text-to-3d/abc");
    assert_eq!(bearer_token("SECRET"), "Bearer SECRET");
}

#[test]
fn task_id_is_read_from_result() {
    assert_eq!(extract_task_id(&parse(r#"{"result":"018a-task"}"#)), Some("018a-task".to_string()));
    assert_eq!(extract_task_id(&parse(r#"{"result":17}"#)), None);
    assert_eq!(extract_task_id(&parse(r#"{"id":"x"}"#)), None);
    assert_eq!(extract_task_id(&parse(r#""result""#)), None);
}

#[test]
fn glb_url_is_read_from_model_urls() {
    let payload = parse(r#"{"status":"SUCCEEDED","model_urls":{"glb":"https://cdn/m.glb","fbx":"f"}}"#);
    assert_eq!(extract_glb_url(&payload), Some("https://cdn/m.glb".to_string()));
    assert_eq!(extract_glb_url(&parse(r#"{"model_urls":{"fbx":"f"}}"#)), None);
    assert_eq!(extract_glb_url(&parse(r#"{"model_urls":"https://cdn/m.glb"}"#)), None);
    assert_eq!(extract_glb_url(&parse(r#"{"glb":"https://cdn/m.glb"}"#)), None);
    assert_eq!(extract_glb_url(&parse(r#"{"model_urls":{"glb":null}}"#)), None);
}

#[test]
fn status_words_are_classified() {
    assert!(matches!(
        read_status(&parse(r#"{"status":"SUCCEEDED","model_urls":{"glb":"u"}}"#)),
        TaskStatus::Succeeded { glb_url: Some(url) } if url == "u"
    ));
    assert!(matches!(
        read_status(&parse(r#"{"status":"SUCCEEDED"}"#)),
        TaskStatus::Succeeded { glb_url: None }
    ));
    assert!(matches!(read_status(&parse(r#"{"status":"PENDING"}"#)), TaskStatus::Pending));
    assert!(matches!(read_status(&parse(r#"{"status":"IN_PROGRESS","progress":40}"#)), TaskStatus::Pending));
    assert!(matches!(read_status(&parse(r#"{"status":"succeeded"}"#)), TaskStatus::Pending));
    assert!(matches!(read_status(&parse(r#"{}"#)), TaskStatus::Pending));
    assert!(matches!(read_status(&parse(r#"{"status":7}"#)), TaskStatus::Pending));
}

#[test]
fn failure_reason_prefers_failure_reason_member() {
    let both = parse(r#"{"status":"FAILED","failure_reason":"out of credits","message":"m"}"#);
    assert_eq!(read_failure_reason(&both), "out of credits");
    let message = parse(r#"{"status":"FAILED","message":"bad prompt"}"#);
    assert_eq!(read_failure_reason(&message), "bad prompt");
    let neither = parse(r#"{"status":"FAILED"}"#);
    assert_eq!(read_failure_reason(&neither), "Meshy task failed for unspecified reason");
    let null_reason = parse(r#"{"failure_reason":null,"message":"hidden"}"#);
    assert_eq!(read_failure_reason(&null_reason), "Meshy task failed for unspecified reason");
}

#[test]
fn failed_preview_reports_upstream_reason() {
    let payload = parse(r#"{"status":"FAILED","failure_reason":"content policy violation"}"#);
    let status = read_status(&payload);
    let (pipeline, action) = polling_preview(PollPolicy::unbounded()).step(MeshEvent::Status(status));
    assert_eq!(pipeline.stage, MeshStage::Failed);
    match action {
        MeshAction::Finish(Err(error)) => {
            let message = error.message();
            assert_eq!(message, "Meshy task task-1 failed: content policy violation");
            assert!(message.contains("content policy violation"));
            assert!(matches!(error, MeshError::TaskFailed { .. }));
        }
        other => panic!("unexpected action {:?}", other),
    }
}

#[test]
fn full_run_passes_every_stage_in_order() {
    let pipeline = polling_preview(PollPolicy::unbounded());
    let (pipeline, action) = pipeline.step(MeshEvent::Status(TaskStatus::Pending));
    assert!(matches!(action, MeshAction::Poll { ref task_id, wait_secs: 5 } if task_id == "task-1"));
    assert_eq!(pipeline.pending_polls, 1);
    let (pipeline, action) = pipeline.step(MeshEvent::Status(TaskStatus::Succeeded {
        glb_url: Some("https://cdn/preview.glb".to_string()),
    }));
    assert_eq!(pipeline.stage, MeshStage::SubmitRefine);
    assert!(matches!(
        action,
        MeshAction::Submit(TaskSubmission::Refine { ref preview_task_id }) if preview_task_id == "task-1"
    ));
    let (pipeline, action) = pipeline.step(MeshEvent::Created(Some("task-2".to_string())));
    assert_eq!(pipeline.stage, MeshStage::PollRefine);
    assert_eq!(pipeline.pending_polls, 0);
    assert!(matches!(action, MeshAction::Poll { ref task_id, wait_secs: 0 } if task_id == "task-2"));
    let (pipeline, action) = pipeline.step(MeshEvent::Status(TaskStatus::Succeeded {
        glb_url: Some("https://cdn/refined.glb".to_string()),
    }));
    assert_eq!(pipeline.stage, MeshStage::DownloadPreview);
    assert!(matches!(action, MeshAction::Fetch { ref url } if url == "https://cdn/preview.glb"));
    let (pipeline, action) = pipeline.step(MeshEvent::Fetched);
    assert_eq!(pipeline.stage, MeshStage::DownloadRefined);
    assert!(matches!(action, MeshAction::Fetch { ref url } if url == "https://cdn/refined.glb"));
    let (pipeline, action) = pipeline.step(MeshEvent::Fetched);
    assert_eq!(pipeline.stage, MeshStage::Store);
    assert!(matches!(action, MeshAction::Store { ref generation_id } if generation_id == "gen-1"));
    let (pipeline, action) = pipeline.step(MeshEvent::Stored);
    assert_eq!(pipeline.stage, MeshStage::Done);
    match action {
        MeshAction::Finish(Ok(paths)) => {
            assert_eq!(paths.preview_path, "models/generated/gen-1/preview.glb");
            assert_eq!(paths.refined_path, "models/generated/gen-1/refined.glb");
        }
        other => panic!("unexpected action {:?}", other),
    }
    let (pipeline, action) = pipeline.step(MeshEvent::Fetched);
    assert_eq!(pipeline.stage, MeshStage::Done);
    assert!(matches!(action, MeshAction::Halt));
}

#[test]
fn missing_fields_are_malformed_responses() {
    let (pipeline, action) = started(PollPolicy::unbounded()).step(MeshEvent::Created(None));
    assert_eq!(pipeline.stage, MeshStage::Failed);
    match action {
        MeshAction::Finish(Err(error)) => {
            assert!(matches!(error, MeshError::MissingTaskId(MeshMode::Preview)));
            assert_eq!(error.message(), "Meshy preview creation response missing task id");
        }
        other => panic!("unexpected action {:?}", other),
    }
    let (_, action) = polling_preview(PollPolicy::unbounded())
        .step(MeshEvent::Status(TaskStatus::Succeeded { glb_url: None }));
    match action {
        MeshAction::Finish(Err(error)) => {
            assert!(matches!(error, MeshError::MissingGlbUrl(MeshMode::Preview)));
            assert_eq!(error.message(), "Meshy preview response missing glb URL");
        }
        other => panic!("unexpected action {:?}", other),
    }
}

#[test]
fn rejection_and_breakage_end_the_run() {
    assert_eq!(
        describe_rejection(MeshMode::Refine, "402 Payment Required", "no credits"),
        "Meshy refine creation request failed (402 Payment Required): no credits"
    );
    let (pipeline, action) = started(PollPolicy::unbounded()).step(MeshEvent::Rejected {
        status: "401 Unauthorized".to_string(),
        body: "bad key".to_string(),
    });
    assert_eq!(pipeline.stage, MeshStage::Failed);
    match action {
        MeshAction::Finish(Err(MeshError::Upstream(message))) => {
            assert_eq!(message, "Meshy preview creation request failed (401 Unauthorized): bad key");
        }
        other => panic!("unexpected action {:?}", other),
    }
    let (_, action) = polling_preview(PollPolicy::unbounded())
        .step(MeshEvent::Broken("connection reset".to_string()));
    assert!(matches!(action, MeshAction::Finish(Err(MeshError::Upstream(ref m))) if m == "connection reset"));
    let (_, action) = polling_preview(PollPolicy::unbounded()).step(MeshEvent::Stored);
    assert!(matches!(action, MeshAction::Finish(Err(MeshError::OutOfOrder))));
}

#[test]
fn storage_failure_is_fatal() {
    let mut pipeline = polling_preview(PollPolicy::unbounded());
    pipeline.stage = MeshStage::Store;
    let (pipeline, action) = pipeline.step(MeshEvent::Broken("disk full".to_string()));
    assert_eq!(pipeline.stage, MeshStage::Failed);
    match action {
        MeshAction::Finish(Err(error)) => {
            assert!(matches!(error, MeshError::Storage(_)));
            assert_eq!(error.message(), "disk full");
        }
        other => panic!("unexpected action {:?}", other),
    }
}

#[test]
fn bounded_policy_times_out() {
    let policy = PollPolicy::bounded(2);
    assert_eq!(policy.interval_secs, 5);
    let pipeline = polling_preview(policy);
    let (pipeline, action) = pipeline.step(MeshEvent::Status(TaskStatus::Pending));
    assert!(matches!(action, MeshAction::Poll { wait_secs: 5, .. }));
    let (pipeline, action) = pipeline.step(MeshEvent::Status(TaskStatus::Pending));
    assert_eq!(pipeline.stage, MeshStage::Failed);
    match action {
        MeshAction::Finish(Err(error)) => {
            assert!(matches!(error, MeshError::TimedOut { .. }));
            assert_eq!(error.message(), "Meshy task task-1 did not finish in time");
        }
        other => panic!("unexpected action {:?}", other),
    }
}

#[test]
fn begin_draws_a_generation_id() {
    let (pipeline, action) = MeshPipeline::begin("a lamp", PollPolicy::unbounded());
    assert!(matches!(action, MeshAction::Submit(TaskSubmission::Preview { .. })));
    assert_eq!(pipeline.generation_id.len(), 36);
    assert!(TaskSubmission::refine("t").mode() == MeshMode::Refine);
    assert!(TaskSubmission::preview("p").mode() == MeshMode::Preview);
    assert!(!MeshStage::Store.terminal() && MeshStage::Done.terminal() && MeshStage::Failed.terminal());
}

#[test]
fn generation_ids_have_the_hyphenated_shape() {
    let id = fresh_generation_id();
    assert_eq!(id.chars().count(), 36);
    assert!(id.chars().all(|c| c.is_ascii_digit() || ('a'..='f').contains(&c) || c == '-'));
    assert_eq!(id.chars().filter(|c| *c == '-').count(), 4);
    assert_ne!(id, fresh_generation_id());
}

#[test]
fn storage_paths() {
    let paths = model_paths("0b2c");
    assert_eq!(paths.preview_path, "models/generated/0b2c/preview.glb");
    assert_eq!(paths.refined_path, "models/generated/0b2c/refined.glb");
    assert_eq!(model_directory("0b2c"), "assets/models/generated/0b2c");
    assert_eq!(ground_texture_path(), "textures/generated/ground.png");
    assert_eq!(sky_texture_path(), "cubemaps/generated/sky.ktx2");
}

#[test]
fn status_words_are_exact() {
    assert_eq!(classify_status_word("SUCCEEDED"), StatusWord::Succeeded);
    assert_eq!(classify_status_word("FAILED"), StatusWord::Failed);
    assert_eq!(classify_status_word("IN_PROGRESS"), StatusWord::UnderWay);
    assert_eq!(classify_status_word("Failed"), StatusWord::UnderWay);
    assert_eq!(classify_status_word(""), StatusWord::UnderWay);
    assert_eq!(POLL_INTERVAL_SECS, 5);
}

#[test]
fn reason_is_chosen_from_the_first_member_present() {
    let text = |t: &str| ReasonMember::Text(t.to_string());
    assert_eq!(choose_reason(text("a"), text("b")), "a");
    assert_eq!(choose_reason(ReasonMember::Absent, text("b")), "b");
    assert_eq!(
        choose_reason(ReasonMember::Unreadable, text("b")),
        "Meshy task failed for unspecified reason"
    );
    assert_eq!(
        choose_reason(ReasonMember::Absent, ReasonMember::Unreadable),
        "Meshy task failed for unspecified reason"
    );
    assert_eq!(
        choose_reason(ReasonMember::Absent, ReasonMember::Absent),
        "Meshy task failed for unspecified reason"
    );
}

#[test]
fn members_are_read_by_key() {
    let payload = parse(r#"{"message":"m","code":7,"nested":{"message":"inner"}}"#);
    assert!(matches!(read_reason_member(&payload, "message"), ReasonMember::Text(ref t) if t == "m"));
    assert!(matches!(read_reason_member(&payload, "code"), ReasonMember::Unreadable));
    assert!(matches!(read_reason_member(&payload, "nested"), ReasonMember::Unreadable));
    assert!(matches!(read_reason_member(&payload, "absent"), ReasonMember::Absent));
    assert!(matches!(read_reason_member(&parse("[1,2]"), "message"), ReasonMember::Absent));
    assert_eq!(text_member(&payload, "message"), Some("m".to_string()));
    assert_eq!(text_member(&payload, "code"), None);
    assert_eq!(text_member(&payload, "Message"), None);
}

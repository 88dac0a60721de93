use generative::supervisor::{
    every_load_settled, some_load_failed, start_generation_tasks, AssetLoad, FallbackCause,
    GenerationKind, GenerationStatus, JobTicket, Supervisor, Transition,
};
use generative::{GenerationPrompt, ImageOutputFormat};

fn loaded(n: usize) -> Vec<AssetLoad> {
    vec![AssetLoad::Loaded; n]
}

#[test]
fn new_supervisor_is_idle() {
    let supervisor: Supervisor<String, String> = Supervisor::new();
    assert!(matches!(supervisor.ground, GenerationStatus::Idle));
    assert!(matches!(supervisor.sky, GenerationStatus::Idle));
    assert!(supervisor.active_jobs().is_empty());
    assert!(!supervisor.ground.terminal());
}

#[test]
fn one_request_one_terminal_status_per_kind() {
    for ground_first in [true, false] {
        let mut supervisor: Supervisor<String, String> = Supervisor::new();
        let (ground, sky) = supervisor.start_session();
        assert!(supervisor.ground.in_progress() && supervisor.sky.in_progress());
        assert_eq!(supervisor.active_jobs(), vec![ground, sky]);
        if ground_first {
            assert!(supervisor.complete_ground(ground, Ok("g".to_string())));
            assert_eq!(supervisor.active_jobs(), vec![sky]);
            assert!(supervisor.complete_sky(sky, Err("no sky".to_string())));
        } else {
            assert!(supervisor.complete_sky(sky, Err("no sky".to_string())));
            assert_eq!(supervisor.active_jobs(), vec![ground]);
            assert!(supervisor.complete_ground(ground, Ok("g".to_string())));
        }
        assert!(supervisor.ground.terminal() && supervisor.sky.terminal());
        assert!(matches!(supervisor.ground, GenerationStatus::Succeeded(ref g) if g == "g"));
        assert!(matches!(supervisor.sky, GenerationStatus::Failed(ref r) if r == "no sky"));
        assert!(supervisor.active_jobs().is_empty());
        assert!(!supervisor.complete_ground(ground, Err("late".to_string())));
        assert!(!supervisor.complete_sky(sky, Ok("late".to_string())));
        assert!(matches!(supervisor.ground, GenerationStatus::Succeeded(ref g) if g == "g"));
        assert!(matches!(supervisor.sky, GenerationStatus::Failed(ref r) if r == "no sky"));
    }
}

#[test]
fn second_session_discards_the_first() {
    let mut supervisor: Supervisor<String, String> = Supervisor::new();
    let (old_ground, old_sky) = supervisor.start_session();
    let (ground, sky) = supervisor.start_session();
    assert_eq!(supervisor.active_jobs(), vec![ground, sky]);
    assert!(!supervisor.live(old_ground) && !supervisor.live(old_sky));
    assert!(supervisor.live(ground) && supervisor.live(sky));
    assert!(!supervisor.complete_ground(old_ground, Ok("stale".to_string())));
    assert!(!supervisor.complete_sky(old_sky, Err("stale".to_string())));
    assert!(supervisor.ground.in_progress() && supervisor.sky.in_progress());
    assert!(supervisor.complete_ground(ground, Ok("fresh".to_string())));
    assert!(matches!(supervisor.ground, GenerationStatus::Succeeded(ref g) if g == "fresh"));
}

#[test]
fn tickets_are_checked_for_kind() {
    let mut supervisor: Supervisor<u8, u8> = Supervisor::new();
    let (ground, sky) = supervisor.start_session();
    assert!(!supervisor.complete_ground(sky, Ok(1)));
    assert!(!supervisor.complete_sky(ground, Ok(1)));
    let prop = JobTicket { kind: GenerationKind::PropMesh, session: ground.session };
    assert!(!supervisor.live(prop));
    assert!(supervisor.ground.in_progress() && supervisor.sky.in_progress());
}

#[test]
fn activation_is_signalled_exactly_once() {
    let mut supervisor: Supervisor<String, String> = Supervisor::new();
    let (ground, sky) = supervisor.start_session();
    assert!(matches!(supervisor.conclude(&loaded(6)), Transition::Stay));
    supervisor.complete_sky(sky, Ok("cubemaps/generated/sky.ktx2".to_string()));
    assert!(matches!(supervisor.conclude(&loaded(6)), Transition::Stay));
    supervisor.complete_ground(ground, Ok("textures/generated/ground.png".to_string()));
    let mut loading = loaded(6);
    loading[2] = AssetLoad::Loading;
    assert!(matches!(supervisor.conclude(&loading), Transition::Stay));
    assert!(matches!(supervisor.ground, GenerationStatus::Succeeded(_)));
    assert!(matches!(supervisor.conclude(&loaded(6)), Transition::Activate));
    assert!(matches!(supervisor.conclude(&loaded(6)), Transition::Stay));
    assert!(matches!(supervisor.conclude(&loaded(6)), Transition::Stay));
    assert!(matches!(supervisor.ground, GenerationStatus::Idle));
    assert!(matches!(supervisor.sky, GenerationStatus::Idle));
}

#[test]
fn advance_decides_and_changes_nothing() {
    let mut supervisor: Supervisor<u8, u8> = Supervisor::new();
    let (ground, sky) = supervisor.start_session();
    supervisor.complete_ground(ground, Ok(1));
    supervisor.complete_sky(sky, Ok(2));
    assert!(matches!(supervisor.advance(&loaded(6)), Transition::Activate));
    assert!(matches!(supervisor.advance(&loaded(6)), Transition::Activate));
    assert!(matches!(supervisor.ground, GenerationStatus::Succeeded(1)));
    assert!(matches!(supervisor.sky, GenerationStatus::Succeeded(2)));
    assert!(matches!(supervisor.advance(&vec![]), Transition::Activate));
}

#[test]
fn untracked_assets_do_not_hold_activation_back() {
    let mut supervisor: Supervisor<u8, u8> = Supervisor::new();
    let (ground, sky) = supervisor.start_session();
    supervisor.complete_ground(ground, Ok(1));
    supervisor.complete_sky(sky, Ok(2));
    let loads = vec![AssetLoad::Untracked, AssetLoad::Loaded];
    assert!(every_load_settled(&loads) && !some_load_failed(&loads));
    assert!(matches!(supervisor.advance(&loads), Transition::Activate));
}

#[test]
fn failure_falls_back_at_once() {
    let mut supervisor: Supervisor<String, String> = Supervisor::new();
    let (ground, sky) = supervisor.start_session();
    supervisor.complete_ground(ground, Err("quota exceeded".to_string()));
    match supervisor.conclude(&loaded(6)) {
        Transition::Fallback(FallbackCause::GenerationFailed(reason)) => {
            assert_eq!(reason, "quota exceeded")
        }
        other => panic!("unexpected transition {:?}", other),
    }
    assert!(matches!(supervisor.conclude(&loaded(6)), Transition::Stay));
    assert!(!supervisor.complete_sky(sky, Ok("late sky".to_string())));
    assert!(matches!(supervisor.conclude(&loaded(6)), Transition::Stay));
}

#[test]
fn failed_asset_load_falls_back() {
    let mut supervisor: Supervisor<u8, u8> = Supervisor::new();
    let (ground, sky) = supervisor.start_session();
    supervisor.complete_ground(ground, Ok(1));
    supervisor.complete_sky(sky, Ok(2));
    let loads = vec![AssetLoad::Loaded, AssetLoad::Failed, AssetLoad::NotLoaded];
    assert!(some_load_failed(&loads) && !every_load_settled(&loads));
    assert!(matches!(
        supervisor.advance(&loads),
        Transition::Fallback(FallbackCause::AssetsFailedToLoad)
    ));
}

#[test]
fn generation_tasks_are_started_from_the_prompt() {
    let mut supervisor: Supervisor<u8, u8> = Supervisor::new();
    let prompt = GenerationPrompt("a misty pine forest".to_string());
    let (ground, sky) = start_generation_tasks(&mut supervisor, &prompt);
    assert_eq!(ground.ticket.kind, GenerationKind::GroundTexture);
    assert_eq!(sky.ticket.kind, GenerationKind::SkyCubemap);
    assert_eq!(supervisor.active_jobs(), vec![ground.ticket, sky.ticket]);
    assert!(supervisor.ground.in_progress() && supervisor.sky.in_progress());
    assert_eq!(ground.request.prompt, prompt.ground_prompt());
    assert_eq!(sky.request.prompt, prompt.sky_prompt());
    assert_eq!(ground.request.output_format, ImageOutputFormat::Url);
    let again = GenerationPrompt("a desert at dusk".to_string());
    let (ground2, sky2) = start_generation_tasks(&mut supervisor, &again);
    assert_eq!(supervisor.active_jobs(), vec![ground2.ticket, sky2.ticket]);
    assert!(!supervisor.live(ground.ticket) && !supervisor.live(sky.ticket));
    assert!(ground2.request.prompt.ends_with("a desert at dusk"));
    assert!(sky2.request.prompt.ends_with("a desert at dusk"));
}

#[test]
fn session_numbers_come_round() {
    let mut supervisor: Supervisor<u8, u8> = Supervisor::new();
    supervisor.session = u64::MAX;
    let (old_ground, _) = (JobTicket { kind: GenerationKind::GroundTexture, session: u64::MAX }, 0);
    let (ground, sky) = supervisor.start_session();
    assert_eq!((ground.session, sky.session), (0, 0));
    assert!(!supervisor.live(old_ground));
    assert!(supervisor.live(ground));
}

#[test]
fn reset_returns_to_idle_and_kills_tickets() {
    let mut supervisor: Supervisor<u8, u8> = Supervisor::new();
    let (ground, sky) = supervisor.start_session();
    supervisor.complete_ground(ground, Ok(1));
    supervisor.reset();
    assert!(matches!(supervisor.ground, GenerationStatus::Idle));
    assert!(matches!(supervisor.sky, GenerationStatus::Idle));
    assert!(!supervisor.live(sky));
    assert!(!supervisor.complete_sky(sky, Ok(2)));
    assert!(matches!(supervisor.sky, GenerationStatus::Idle));
    assert!(matches!(
        GenerationStatus::<u8>::from_result(Err("x".to_string())),
        GenerationStatus::Failed(_)
    ));
}

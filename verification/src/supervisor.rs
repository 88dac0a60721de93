//! The supervision of one level-load session: which generation jobs are under
//! way, what became of them, and when the level may be entered.

use crate::imagegen::{ImageGenerationRequest, ImageOutputFormat, ImageSize};
use crate::prompt::{ground_lead, sky_lead, GenerationPrompt};
use vstd::prelude::*;

verus! {

/// What a generation job produces.
#[derive(Debug, Clone, Copy, PartialEq, Eq, Structural)]
pub enum GenerationKind {
    GroundTexture,
    SkyCubemap,
    PropMesh,
}

/// What is known of the generation of one kind of asset.
#[derive(Debug, Clone)]
pub enum GenerationStatus<T> {
    /// No generation was asked for.
    Idle,
    /// A job is under way.
    InProgress,
    /// The job produced this asset.
    Succeeded(T),
    /// The job failed, for this reason.
    Failed(String),
}

impl<T> GenerationStatus<T> {
    /// Whether the generation ended, well or badly.
    pub open spec fn is_terminal(self) -> bool {
        self is Succeeded || self is Failed
    }

    /// Whether the generation ended, well or badly.
    pub fn terminal(&self) -> (r: bool)
        ensures
            r == self.is_terminal(),
    {
        match self {
            GenerationStatus::Succeeded(_) | GenerationStatus::Failed(_) => true,
            _ => false,
        }
    }

    /// Whether a job is under way.
    pub fn in_progress(&self) -> (r: bool)
        ensures
            r == (*self is InProgress),
    {
        match self {
            GenerationStatus::InProgress => true,
            _ => false,
        }
    }

    /// The status that a finished job leaves.
    pub open spec fn of(result: Result<T, String>) -> Self {
        match result {
            Ok(asset) => GenerationStatus::Succeeded(asset),
            Err(reason) => GenerationStatus::Failed(reason),
        }
    }

    /// The status that a finished job leaves.
    pub fn from_result(result: Result<T, String>) -> (r: Self)
        ensures
            r == Self::of(result),
    {
        match result {
            Ok(asset) => GenerationStatus::Succeeded(asset),
            Err(reason) => GenerationStatus::Failed(reason),
        }
    }
}

/// The claim to report the result of one job: its kind, and the session that
/// launched it.
#[derive(Debug, Clone, Copy, PartialEq, Eq, Structural)]
pub struct JobTicket {
    pub kind: GenerationKind,
    pub session: u64,
}

/// How far an asset has come on its way into the engine.
#[derive(Debug, Clone, Copy, PartialEq, Eq, Structural)]
pub enum AssetLoad {
    /// The engine does not track the asset.
    Untracked,
    NotLoaded,
    Loading,
    Loaded,
    Failed,
}

impl AssetLoad {
    /// Whether nothing more is awaited of the asset.
    pub open spec fn is_settled(self) -> bool {
        self == AssetLoad::Loaded || self == AssetLoad::Untracked
    }
}

/// Whether one of `loads` failed.
pub open spec fn any_failed(loads: Seq<AssetLoad>) -> bool {
    exists|i: int| 0 <= i < loads.len() && loads[i] == AssetLoad::Failed
}

/// Whether nothing more is awaited of any of `loads`.
pub open spec fn all_settled(loads: Seq<AssetLoad>) -> bool {
    forall|i: int| 0 <= i < loads.len() ==> (#[trigger] loads[i]).is_settled()
}

/// Why a session fell back to the previous screen.
#[derive(Debug)]
pub enum FallbackCause {
    /// A generation job failed, for this reason.
    GenerationFailed(String),
    /// The generated assets did not load.
    AssetsFailedToLoad,
}

/// What the screen is to do.
#[derive(Debug)]
pub enum Transition {
    /// Keep waiting.
    Stay,
    /// Enter the level.
    Activate,
    /// Return to the previous screen.
    Fallback(FallbackCause),
}

/// Tells whether one of `loads` failed.
pub fn some_load_failed(loads: &Vec<AssetLoad>) -> (r: bool)
    ensures
        r == any_failed(loads@),
{
    let mut i: usize = 0;
    while i < loads.len()
        invariant
            i <= loads.len(),
            forall|j: int| 0 <= j < i ==> loads@[j] != AssetLoad::Failed,
        decreases loads.len() - i,
    {
        if loads[i] == AssetLoad::Failed {
            return true;
        }
        i += 1;
    }
    false
}

/// Tells whether nothing more is awaited of any of `loads`.
pub fn every_load_settled(loads: &Vec<AssetLoad>) -> (r: bool)
    ensures
        r == all_settled(loads@),
{
    let mut i: usize = 0;
    while i < loads.len()
        invariant
            i <= loads.len(),
            forall|j: int| 0 <= j < i ==> (#[trigger] loads@[j]).is_settled(),
        decreases loads.len() - i,
    {
        if !(loads[i] == AssetLoad::Loaded || loads[i] == AssetLoad::Untracked) {
            assert(!loads@[i as int].is_settled());
            return false;
        }
        i += 1;
    }
    true
}

/// The number of the session after session `session`. Numbers come round
/// again after the largest; two sessions in a row never share one.
pub open spec fn next_session(session: u64) -> u64 {
    if session == u64::MAX {
        0
    } else {
        (session + 1) as u64
    }
}

/// The state of one level-load session. `G` and `S` are what the engine keeps
/// of a generated ground and of a generated sky.
#[derive(Debug)]
pub struct Supervisor<G, S> {
    /// The number of the running session. Its tickets carry it.
    pub session: u64,
    pub ground: GenerationStatus<G>,
    pub sky: GenerationStatus<S>,
}

/// One job to launch: the ticket under which its result is reported, and what
/// it asks of the image service.
#[derive(Debug)]
pub struct GenerationJob {
    pub ticket: JobTicket,
    pub request: ImageGenerationRequest,
}

impl<G, S> Supervisor<G, S> {
    /// The ticket of the running session's ground job.
    pub open spec fn ground_ticket(self) -> JobTicket {
        JobTicket { kind: GenerationKind::GroundTexture, session: self.session }
    }

    /// The ticket of the running session's sky job.
    pub open spec fn sky_ticket(self) -> JobTicket {
        JobTicket { kind: GenerationKind::SkyCubemap, session: self.session }
    }

    /// Whether the job of `ticket` is under way: it belongs to the running
    /// session, and nothing was reported for its kind yet.
    pub open spec fn is_live(self, ticket: JobTicket) -> bool {
        ticket.session == self.session && match ticket.kind {
            GenerationKind::GroundTexture => self.ground is InProgress,
            GenerationKind::SkyCubemap => self.sky is InProgress,
            GenerationKind::PropMesh => false,
        }
    }

    /// The supervisor after a new session was started.
    pub open spec fn started(self) -> Self {
        Supervisor {
            session: next_session(self.session),
            ground: GenerationStatus::InProgress,
            sky: GenerationStatus::InProgress,
        }
    }

    /// The supervisor after `result` was reported for the ground job of `ticket`.
    pub open spec fn with_ground(self, ticket: JobTicket, result: Result<G, String>) -> Self {
        if self.is_live(ticket) && ticket.kind == GenerationKind::GroundTexture {
            Supervisor { ground: GenerationStatus::of(result), ..self }
        } else {
            self
        }
    }

    /// The supervisor after `result` was reported for the sky job of `ticket`.
    pub open spec fn with_sky(self, ticket: JobTicket, result: Result<S, String>) -> Self {
        if self.is_live(ticket) && ticket.kind == GenerationKind::SkyCubemap {
            Supervisor { sky: GenerationStatus::of(result), ..self }
        } else {
            self
        }
    }

    /// What the screen is to do, given how far the generated assets have loaded.
    ///
    /// A failed job ends the session at once, whatever became of the other. The
    /// level is entered only when both jobs succeeded and nothing more is awaited
    /// of any asset.
    pub open spec fn decision(self, loads: Seq<AssetLoad>) -> Transition {
        match (self.ground, self.sky) {
            (GenerationStatus::Failed(reason), _) => Transition::Fallback(
                FallbackCause::GenerationFailed(reason),
            ),
            (_, GenerationStatus::Failed(reason)) => Transition::Fallback(
                FallbackCause::GenerationFailed(reason),
            ),
            (GenerationStatus::Succeeded(_), GenerationStatus::Succeeded(_)) => {
                if any_failed(loads) {
                    Transition::Fallback(FallbackCause::AssetsFailedToLoad)
                } else if all_settled(loads) {
                    Transition::Activate
                } else {
                    Transition::Stay
                }
            },
            _ => Transition::Stay,
        }
    }

    /// The supervisor after its session was torn down.
    pub open spec fn torn_down(self) -> Self {
        Supervisor { ground: GenerationStatus::Idle, sky: GenerationStatus::Idle, ..self }
    }

    /// The supervisor after the screen was told `self.decision(loads)` and left
    /// on it: a session that is left is torn down.
    pub open spec fn concluded(self, loads: Seq<AssetLoad>) -> Self {
        if self.decision(loads) is Stay {
            self
        } else {
            self.torn_down()
        }
    }

    /// A supervisor without a session.
    pub fn new() -> (r: Self)
        ensures
            r.session == 0,
            r.ground is Idle,
            r.sky is Idle,
    {
        Supervisor { session: 0, ground: GenerationStatus::Idle, sky: GenerationStatus::Idle }
    }

    /// Starts a session. Whatever jobs were under way are discarded: their
    /// tickets are no longer live. One ground job and one sky job are under way
    /// afterwards; their tickets are returned, ground first.
    pub fn start_session(&mut self) -> (r: (JobTicket, JobTicket))
        ensures
            *final(self) == old(self).started(),
            r.0 == final(self).ground_ticket(),
            r.1 == final(self).sky_ticket(),
    {
        self.session = if self.session == u64::MAX {
            0
        } else {
            self.session + 1
        };
        self.ground = GenerationStatus::InProgress;
        self.sky = GenerationStatus::InProgress;
        (
            JobTicket { kind: GenerationKind::GroundTexture, session: self.session },
            JobTicket { kind: GenerationKind::SkyCubemap, session: self.session },
        )
    }

    /// Whether the job of `ticket` is under way.
    pub fn live(&self, ticket: JobTicket) -> (r: bool)
        ensures
            r == self.is_live(ticket),
    {
        ticket.session == self.session && match ticket.kind {
            GenerationKind::GroundTexture => self.ground.in_progress(),
            GenerationKind::SkyCubemap => self.sky.in_progress(),
            GenerationKind::PropMesh => false,
        }
    }

    /// The tickets of the jobs under way, ground before sky.
    pub fn active_jobs(&self) -> (r: Vec<JobTicket>)
        ensures
            forall|t: JobTicket| r@.contains(t) <==> self.is_live(t),
            r@.no_duplicates(),
    {
        let mut jobs: Vec<JobTicket> = Vec::new();
        let ground = JobTicket { kind: GenerationKind::GroundTexture, session: self.session };
        let sky = JobTicket { kind: GenerationKind::SkyCubemap, session: self.session };
        if self.ground.in_progress() {
            jobs.push(ground);
        }
        if self.sky.in_progress() {
            jobs.push(sky);
        }
        proof {
            assert forall|t: JobTicket| jobs@.contains(t) <==> self.is_live(t) by {
                if self.is_live(t) {
                    if t.kind == GenerationKind::GroundTexture {
                        assert(t == ground);
                        assert(jobs@[0] == t);
                    } else {
                        assert(t == sky);
                        assert(jobs@[jobs@.len() - 1] == t);
                    }
                }
            }
        }
        jobs
    }

    /// Reports the result of the ground job of `ticket`. Says whether the report
    /// was taken: a ticket that is not live changes nothing.
    pub fn complete_ground(&mut self, ticket: JobTicket, result: Result<G, String>) -> (taken: bool)
        ensures
            *final(self) == old(self).with_ground(ticket, result),
            taken == (old(self).is_live(ticket) && ticket.kind == GenerationKind::GroundTexture),
    {
        let taken = self.live(ticket) && match ticket.kind {
            GenerationKind::GroundTexture => true,
            _ => false,
        };
        if taken {
            self.ground = GenerationStatus::from_result(result);
        }
        taken
    }

    /// Reports the result of the sky job of `ticket`. Says whether the report was
    /// taken: a ticket that is not live changes nothing.
    pub fn complete_sky(&mut self, ticket: JobTicket, result: Result<S, String>) -> (taken: bool)
        ensures
            *final(self) == old(self).with_sky(ticket, result),
            taken == (old(self).is_live(ticket) && ticket.kind == GenerationKind::SkyCubemap),
    {
        let taken = self.live(ticket) && match ticket.kind {
            GenerationKind::SkyCubemap => true,
            _ => false,
        };
        if taken {
            self.sky = GenerationStatus::from_result(result);
        }
        taken
    }

    /// Decides what the screen is to do. Nothing of the session is changed.
    pub fn advance(&self, loads: &Vec<AssetLoad>) -> (r: Transition)
        ensures
            r == self.decision(loads@),
    {
        match (&self.ground, &self.sky) {
            (GenerationStatus::Failed(reason), _) => Transition::Fallback(
                FallbackCause::GenerationFailed(reason.clone()),
            ),
            (_, GenerationStatus::Failed(reason)) => Transition::Fallback(
                FallbackCause::GenerationFailed(reason.clone()),
            ),
            (GenerationStatus::Succeeded(_), GenerationStatus::Succeeded(_)) => {
                if some_load_failed(loads) {
                    Transition::Fallback(FallbackCause::AssetsFailedToLoad)
                } else if every_load_settled(loads) {
                    Transition::Activate
                } else {
                    Transition::Stay
                }
            },
            _ => Transition::Stay,
        }
    }

    /// Decides what the screen is to do and, where it is to leave, tears the
    /// session down, so that the screen is told to leave once.
    pub fn conclude(&mut self, loads: &Vec<AssetLoad>) -> (r: Transition)
        ensures
            r == old(self).decision(loads@),
            *final(self) == old(self).concluded(loads@),
    {
        let transition = self.advance(loads);
        match transition {
            Transition::Stay => {},
            _ => {
                self.reset();
            },
        }
        transition
    }

    /// Tears the session down: both kinds are idle again, and no ticket is live.
    pub fn reset(&mut self)
        ensures
            *final(self) == old(self).torn_down(),
    {
        self.ground = GenerationStatus::Idle;
        self.sky = GenerationStatus::Idle;
    }
}

/// Starts a session for `prompt`: whatever jobs were under way are discarded,
/// and exactly one ground job and one sky job are to be launched, each asking
/// the image service for what `prompt` describes.
pub fn start_generation_tasks<G, S>(
    supervisor: &mut Supervisor<G, S>,
    prompt: &GenerationPrompt,
) -> (r: (GenerationJob, GenerationJob))
    ensures
        *final(supervisor) == old(supervisor).started(),
        final(supervisor).ground is InProgress && final(supervisor).sky is InProgress,
        r.0.ticket == final(supervisor).ground_ticket(),
        r.1.ticket == final(supervisor).sky_ticket(),
        forall|t: JobTicket| final(supervisor).is_live(t) <==> (t == r.0.ticket || t == r.1.ticket),
        r.0.request.prompt@ == ground_lead() + prompt.0@,
        r.1.request.prompt@ == sky_lead() + prompt.0@,
        r.0.request.output_format == ImageOutputFormat::Url && r.1.request.output_format
            == ImageOutputFormat::Url,
        r.0.request.size == ImageSize::Square1024 && r.1.request.size == ImageSize::Square1024,
        r.0.request.image_count == 1 && r.1.request.image_count == 1,
{
    let (ground, sky) = supervisor.start_session();
    (
        GenerationJob { ticket: ground, request: prompt.ground_request() },
        GenerationJob { ticket: sky, request: prompt.sky_request() },
    )
}

/// One request, one final status for each kind: once a session is started and
/// each of its two jobs has reported, in either order, both kinds hold the status
/// of their job's result, no job is under way, and a second report on either
/// ticket changes nothing.
pub proof fn lemma_each_kind_ends_once<G, S>(
    before: Supervisor<G, S>,
    ground: Result<G, String>,
    sky: Result<S, String>,
    late_ground: Result<G, String>,
    late_sky: Result<S, String>,
)
    ensures
        ({
            let s = before.started();
            let ground_first = s.with_ground(s.ground_ticket(), ground).with_sky(
                s.sky_ticket(),
                sky,
            );
            let sky_first = s.with_sky(s.sky_ticket(), sky).with_ground(s.ground_ticket(), ground);
            &&& s.ground is InProgress && s.sky is InProgress
            &&& forall|t: JobTicket| s.is_live(t) <==> (t == s.ground_ticket() || t == s.sky_ticket())
            &&& s.ground_ticket() != s.sky_ticket()
            &&& ground_first == sky_first
            &&& ground_first.ground == GenerationStatus::of(ground)
            &&& ground_first.sky == GenerationStatus::of(sky)
            &&& ground_first.ground.is_terminal() && ground_first.sky.is_terminal()
            &&& forall|t: JobTicket| !ground_first.is_live(t)
            &&& ground_first.with_ground(s.ground_ticket(), late_ground) == ground_first
            &&& ground_first.with_sky(s.sky_ticket(), late_sky) == ground_first
        }),
{
}

/// A status that is final stays as it is until a session is started or torn
/// down: no report changes it, and no report makes a kind idle.
pub proof fn lemma_final_status_is_kept<G, S>(
    s: Supervisor<G, S>,
    ticket: JobTicket,
    ground: Result<G, String>,
    sky: Result<S, String>,
)
    ensures
        s.ground.is_terminal() ==> s.with_ground(ticket, ground).ground == s.ground,
        s.sky.is_terminal() ==> s.with_sky(ticket, sky).sky == s.sky,
        s.with_ground(ticket, ground).sky == s.sky,
        s.with_sky(ticket, sky).ground == s.ground,
        !(s.with_ground(ticket, ground).ground is Idle) || s.ground is Idle,
        !(s.with_sky(ticket, sky).sky is Idle) || s.sky is Idle,
{
}

/// Starting a session while another is under way leaves exactly one job of each
/// kind under way, those of the new session, whatever had been reported before.
/// The tickets of the session that was discarded are dead: what its jobs report
/// later changes nothing.
pub proof fn lemma_restart_discards_stale_jobs<G, S>(
    first: Supervisor<G, S>,
    ground: Result<G, String>,
    sky: Result<S, String>,
)
    ensures
        ({
            let second = first.started();
            &&& second.ground is InProgress && second.sky is InProgress
            &&& forall|t: JobTicket|
                second.is_live(t) <==> (t == second.ground_ticket() || t == second.sky_ticket())
            &&& second.ground_ticket() != second.sky_ticket()
            &&& !second.is_live(first.ground_ticket()) && !second.is_live(first.sky_ticket())
            &&& second.with_ground(first.ground_ticket(), ground) == second
            &&& second.with_sky(first.sky_ticket(), sky) == second
        }),
{
}

/// As long as session numbers have not come round, every ticket of an earlier
/// session is dead in a later one.
pub proof fn lemma_earlier_tickets_are_dead<G, S>(
    first: Supervisor<G, S>,
    stale: JobTicket,
    ground: Result<G, String>,
    sky: Result<S, String>,
)
    requires
        first.session < u64::MAX,
        stale.session <= first.session,
    ensures
        !first.started().is_live(stale),
        first.started().with_ground(stale, ground) == first.started(),
        first.started().with_sky(stale, sky) == first.started(),
{
}

/// The tickets of a torn down session are dead: their reports change nothing.
pub proof fn lemma_teardown_discards_jobs<G, S>(
    s: Supervisor<G, S>,
    ticket: JobTicket,
    ground: Result<G, String>,
    sky: Result<S, String>,
)
    ensures
        !s.torn_down().is_live(ticket),
        s.torn_down().with_ground(ticket, ground) == s.torn_down(),
        s.torn_down().with_sky(ticket, sky) == s.torn_down(),
{
}

/// A session tells the screen to leave at most once: after any decision but
/// `Stay` the session is torn down, and every later decision is `Stay`, whatever
/// is reported or loaded in between.
pub proof fn lemma_signals_once<G, S>(
    s: Supervisor<G, S>,
    loads: Seq<AssetLoad>,
    ticket: JobTicket,
    ground: Result<G, String>,
    sky: Result<S, String>,
    later: Seq<AssetLoad>,
)
    requires
        !(s.decision(loads) is Stay),
    ensures
        s.concluded(loads).decision(later) is Stay,
        s.concluded(loads).with_ground(ticket, ground).decision(later) is Stay,
        s.concluded(loads).with_sky(ticket, sky).decision(later) is Stay,
        s.concluded(loads).concluded(later) == s.concluded(loads),
{
}

/// The level is entered exactly when both kinds succeeded and nothing more is
/// awaited of any asset; a failed kind makes the session fall back whatever the
/// other kind's status is.
pub proof fn lemma_entry_needs_everything<G, S>(s: Supervisor<G, S>, loads: Seq<AssetLoad>)
    ensures
        s.decision(loads) is Activate <==> (s.ground is Succeeded && s.sky is Succeeded
            && all_settled(loads)),
        (s.ground is Failed || s.sky is Failed) ==> s.decision(loads) is Fallback,
{
    if all_settled(loads) && any_failed(loads) {
        let i = choose|i: int| 0 <= i < loads.len() && loads[i] == AssetLoad::Failed;
        assert(loads[i].is_settled());
    }
}

/// With ground and sky both generated and every asset loaded, the screen is
/// told to enter the level, and to do nothing else.
pub proof fn lemma_loaded_session_enters<G, S>(s: Supervisor<G, S>, loads: Seq<AssetLoad>)
    requires
        s.ground is Succeeded,
        s.sky is Succeeded,
        forall|i: int| 0 <= i < loads.len() ==> loads[i] == AssetLoad::Loaded,
    ensures
        s.decision(loads) == Transition::Activate,
        s.concluded(loads).decision(loads) is Stay,
{
    assert(all_settled(loads)) by {
        assert forall|i: int| 0 <= i < loads.len() implies (#[trigger] loads[i]).is_settled() by {
        }
    }
    lemma_entry_needs_everything(s, loads);
}

} // verus!

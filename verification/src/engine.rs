//! The session-bootstrap engine.
//!
//! The engine is a step machine: the surrounding I/O loop performs one
//! daemon operation per emitted [`Action`] and feeds the daemon's answer
//! back as an [`Event`].  The engine decides everything else — target
//! resolution, shell probing order, the exec configuration, and the
//! cleanup of an ephemeral container on every exit path — and those
//! decisions are pinned by [`step_model`].
//!
//! The daemon is connected first; resolution is attempted only after a
//! successful connection.  A target that resolves to a running container
//! is attached to and nothing is created; a target that resolves to an
//! image gets one ephemeral container, whose removal obligation is
//! registered in the same step that confirms its creation and is drained
//! exactly once, whatever ends the session.

use vstd::prelude::*;

use crate::config::SessionConfig;
use crate::config::SessionConfigV;
use crate::config::default_candidates;
use crate::config::default_candidates_model;
use crate::config::session_config_of;
use crate::config::shell_override_model;
use crate::config::CommandConfiguration;
use crate::errors::Fault;
use crate::errors::Outcome;
use crate::locate::locator_init;
use crate::locate::locator_observe;
use crate::locate::LocatorV;
use crate::locate::ShellLocator;
use crate::resolve::classify_model;
use crate::resolve::classify_containers;
use crate::resolve::ids_model;
use crate::resolve::lemma_classify_running;
use crate::resolve::match_ids;
use crate::resolve::ContainerClass;
use crate::resolve::ContainerMatch;
use crate::resolve::MatchV;

verus! {

/// The identity an exec session runs as.
pub enum ExecUser {
    /// Force root; the default.
    Root,
    /// Keep whatever user the container itself is configured with.
    ContainerDefault,
    /// A concrete user name, taken from the running container.
    Named(String),
}

/// Mathematical model of an `ExecUser`.
pub enum ExecUserV {
    Root,
    ContainerDefault,
    Named(Seq<char>),
}

impl View for ExecUser {
    type V = ExecUserV;

    open spec fn view(&self) -> ExecUserV {
        match self {
            ExecUser::Root => ExecUserV::Root,
            ExecUser::ContainerDefault => ExecUserV::ContainerDefault,
            ExecUser::Named(u) => ExecUserV::Named(u@),
        }
    }
}

/// Everything the daemon needs to start the interactive exec session.
pub struct ExecRequest {
    /// The container to exec into.
    pub container: String,
    /// The resolved shell path.
    pub shell: String,
    /// The arguments handed to the shell.
    pub args: Vec<String>,
    /// The identity the session runs as.
    pub user: ExecUser,
    /// Whether the exec requests the full capability set.
    pub privileged: bool,
}

/// Mathematical model of an `ExecRequest`.
pub struct ExecRequestV {
    pub container: Seq<char>,
    pub shell: Seq<char>,
    pub args: Seq<Seq<char>>,
    pub user: ExecUserV,
    pub privileged: bool,
}

impl View for ExecRequest {
    type V = ExecRequestV;

    open spec fn view(&self) -> ExecRequestV {
        ExecRequestV {
            container: self.container@,
            shell: self.shell@,
            args: self.args.deep_view(),
            user: self.user@,
            privileged: self.privileged,
        }
    }
}

/// One answer from the daemon (or the local terminal), fed to the engine.
pub enum Event {
    /// The connection to the daemon is up.
    Connected,
    /// The daemon is unreachable.
    ConnectFailed,
    /// The containers whose id or name matches the target exactly.
    ContainersFound(Vec<ContainerMatch>),
    /// The references of the images matching the target (normalized by
    /// the daemon query).
    ImagesFound(Vec<String>),
    /// Whether the candidate just probed exists in the container.
    ProbeResult(bool),
    /// The ephemeral container was created, with this id.
    Created(String),
    /// The daemon denied the container creation for permission reasons.
    CreateDenied,
    /// The daemon failed to create the container.
    CreateFailed,
    /// The ephemeral container started.
    Started,
    /// The ephemeral container failed to start.
    StartFailed,
    /// The exec session is attached.
    ExecStarted,
    /// The daemon denied the requested privilege or identity.
    ExecDenied,
    /// The daemon failed to start the exec session.
    ExecFailed,
    /// The interactive session ended with this remote exit code.
    SessionEnded(u8),
    /// The transport reported stream closure before any exit code was
    /// obtained.
    SessionClosed,
    /// An external cancellation request.
    Interrupted,
    /// The ephemeral container was removed.
    Removed,
    /// The removal request failed.
    RemoveFailed,
}

/// Mathematical model of an `Event`.
pub enum EventV {
    Connected,
    ConnectFailed,
    ContainersFound(Seq<MatchV>),
    ImagesFound(Seq<Seq<char>>),
    ProbeResult(bool),
    Created(Seq<char>),
    CreateDenied,
    CreateFailed,
    Started,
    StartFailed,
    ExecStarted,
    ExecDenied,
    ExecFailed,
    SessionEnded(u8),
    SessionClosed,
    Interrupted,
    Removed,
    RemoveFailed,
}

impl View for Event {
    type V = EventV;

    open spec fn view(&self) -> EventV {
        match self {
            Event::Connected => EventV::Connected,
            Event::ConnectFailed => EventV::ConnectFailed,
            Event::ContainersFound(ms) => EventV::ContainersFound(ms.deep_view()),
            Event::ImagesFound(names) => EventV::ImagesFound(names.deep_view()),
            Event::ProbeResult(b) => EventV::ProbeResult(*b),
            Event::Created(id) => EventV::Created(id@),
            Event::CreateDenied => EventV::CreateDenied,
            Event::CreateFailed => EventV::CreateFailed,
            Event::Started => EventV::Started,
            Event::StartFailed => EventV::StartFailed,
            Event::ExecStarted => EventV::ExecStarted,
            Event::ExecDenied => EventV::ExecDenied,
            Event::ExecFailed => EventV::ExecFailed,
            Event::SessionEnded(c) => EventV::SessionEnded(*c),
            Event::SessionClosed => EventV::SessionClosed,
            Event::Interrupted => EventV::Interrupted,
            Event::Removed => EventV::Removed,
            Event::RemoveFailed => EventV::RemoveFailed,
        }
    }
}

/// The one daemon operation the surrounding I/O loop must perform next.
pub enum Action {
    /// Nothing to do (the event was out of protocol, or the engine is
    /// finished).
    Idle,
    /// Query the daemon for containers matching this target exactly.
    QueryContainers(String),
    /// Query the daemon for images matching this target reference.
    QueryImages(String),
    /// Run one existence probe for `path` inside `container`.
    Probe { container: String, path: String },
    /// Create an ephemeral container from this image, with an inert
    /// entrypoint, at the requested privilege.
    CreateContainer { image: String, privileged: bool },
    /// Start this container.
    StartContainer(String),
    /// Start the interactive exec session.
    ExecShell(ExecRequest),
    /// Attach the terminal streams of this container's exec session and
    /// run the stream relay.
    OpenRelay(String),
    /// Remove this ephemeral container.
    RemoveContainer(String),
}

/// Mathematical model of an `Action`.
pub enum ActionV {
    Idle,
    QueryContainers(Seq<char>),
    QueryImages(Seq<char>),
    Probe { container: Seq<char>, path: Seq<char> },
    CreateContainer { image: Seq<char>, privileged: bool },
    StartContainer(Seq<char>),
    ExecShell(ExecRequestV),
    OpenRelay(Seq<char>),
    RemoveContainer(Seq<char>),
}

impl View for Action {
    type V = ActionV;

    open spec fn view(&self) -> ActionV {
        match self {
            Action::Idle => ActionV::Idle,
            Action::QueryContainers(t) => ActionV::QueryContainers(t@),
            Action::QueryImages(t) => ActionV::QueryImages(t@),
            Action::Probe { container, path } => ActionV::Probe {
                container: container@,
                path: path@,
            },
            Action::CreateContainer { image, privileged } => ActionV::CreateContainer {
                image: image@,
                privileged: *privileged,
            },
            Action::StartContainer(c) => ActionV::StartContainer(c@),
            Action::ExecShell(req) => ActionV::ExecShell(req@),
            Action::OpenRelay(c) => ActionV::OpenRelay(c@),
            Action::RemoveContainer(c) => ActionV::RemoveContainer(c@),
        }
    }
}

/// Where the engine stands in the session lifecycle.
#[derive(Clone, Copy, Debug, PartialEq, Eq, Structural)]
pub enum Phase {
    /// Waiting for the daemon connection.
    Connecting,
    /// The container query is out.
    QueryingContainers,
    /// No container matched; the image query is out.
    QueryingImages,
    /// The create request for the ephemeral container is out.
    Creating,
    /// The start request for the ephemeral container is out.
    Starting,
    /// A shell existence probe is out.
    Probing,
    /// The exec request is out.
    Execing,
    /// The interactive session is live.
    Relaying,
    /// The removal of the ephemeral container is out.
    CleaningUp,
    /// The session is over.
    Finished,
}

/// The session engine.
pub struct Engine {
    /// The raw target string.
    pub target: String,
    /// The session options.
    pub config: SessionConfig,
    /// The ordered shell probe.
    pub locator: ShellLocator,
    /// Where the engine stands.
    pub phase: Phase,
    /// The resolved or created container id.
    pub container: Option<String>,
    /// The running target's configured default user, once known.
    pub container_user: Option<String>,
    /// Whether the execution context is an ephemeral container of ours.
    pub ephemeral: bool,
    /// Whether a container creation request was ever issued.
    pub create_issued: bool,
    /// The outstanding cleanup obligation: the ephemeral container owed
    /// removal, registered in the step that confirms its creation.
    pub obligation: Option<String>,
    /// Whether the removal request was issued (it is issued at most once).
    pub removal_issued: bool,
    /// Whether the removal request failed; reported beside the outcome,
    /// never in its place.
    pub cleanup_failed: bool,
    /// How the session ended, once decided.
    pub outcome: Option<Outcome>,
    /// The candidates an ambiguous resolution failure is surfaced with:
    /// the matched container ids or image references.
    pub ambiguous_candidates: Vec<String>,
}

/// Mathematical model of an `Engine`.
pub struct EngineV {
    pub target: Seq<char>,
    pub config: SessionConfigV,
    pub locator: LocatorV,
    pub phase: Phase,
    pub container: Option<Seq<char>>,
    pub container_user: Option<Seq<char>>,
    pub ephemeral: bool,
    pub create_issued: bool,
    pub obligation: Option<Seq<char>>,
    pub removal_issued: bool,
    pub cleanup_failed: bool,
    pub outcome: Option<Outcome>,
    pub ambiguous_candidates: Seq<Seq<char>>,
}

impl View for Engine {
    type V = EngineV;

    open spec fn view(&self) -> EngineV {
        EngineV {
            target: self.target@,
            config: self.config@,
            locator: self.locator@,
            phase: self.phase,
            container: self.container.deep_view(),
            container_user: self.container_user.deep_view(),
            ephemeral: self.ephemeral,
            create_issued: self.create_issued,
            obligation: self.obligation.deep_view(),
            removal_issued: self.removal_issued,
            cleanup_failed: self.cleanup_failed,
            outcome: self.outcome,
            ambiguous_candidates: self.ambiguous_candidates.deep_view(),
        }
    }
}

/// A fresh engine: connect first, resolve only afterwards.  An explicit
/// shell override narrows the candidate list to that single path.
pub open spec fn init_model(
    target: Seq<char>,
    config: SessionConfigV,
    candidates: Seq<Seq<char>>,
) -> EngineV {
    EngineV {
        target,
        config,
        locator: locator_init(
            match config.shell_override {
                Some(path) => seq![path],
                None => candidates,
            },
        ),
        phase: Phase::Connecting,
        container: None,
        container_user: None,
        ephemeral: false,
        create_issued: false,
        obligation: None,
        removal_issued: false,
        cleanup_failed: false,
        outcome: None,
        ambiguous_candidates: Seq::empty(),
    }
}

/// The id of the engine's execution context; the empty string while none
/// is resolved.
pub open spec fn container_id_model(s: EngineV) -> Seq<char> {
    match s.container {
        Some(c) => c,
        None => Seq::empty(),
    }
}

/// The identity the exec session runs as: root unless the user is
/// preserved; a preserved user is the running container's configured one,
/// or the container's own default where none was reported (ephemeral
/// containers keep their image's default).
pub open spec fn exec_user_model(s: EngineV) -> ExecUserV {
    if s.config.preserve_user {
        if s.ephemeral {
            ExecUserV::ContainerDefault
        } else {
            match s.container_user {
                Some(u) => ExecUserV::Named(u),
                None => ExecUserV::ContainerDefault,
            }
        }
    } else {
        ExecUserV::Root
    }
}

/// End the session with this outcome.  An undrained cleanup obligation is
/// drained now — the removal request goes out exactly once — and the
/// outcome is recorded before cleanup, so a later removal failure can
/// never mask it.
pub open spec fn finish_model(s: EngineV, o: Outcome) -> (EngineV, ActionV) {
    if s.obligation is Some && !s.removal_issued {
        (
            EngineV {
                phase: Phase::CleaningUp,
                outcome: Some(o),
                removal_issued: true,
                ..s
            },
            ActionV::RemoveContainer(s.obligation->0),
        )
    } else {
        (EngineV { phase: Phase::Finished, outcome: Some(o), ..s }, ActionV::Idle)
    }
}

/// With the engine in the probing phase: probe the pending candidate; or,
/// once a candidate won, issue the exec request; or fail when the list is
/// exhausted.  The exec runs as `exec_user_model` says; privilege is
/// requested at exec time only for an attached target — an ephemeral
/// container was already created at the requested privilege.
pub open spec fn probe_or_exec_model(s: EngineV) -> (EngineV, ActionV) {
    if s.locator.state is Pending && 0 <= s.locator.index < s.locator.candidates.len() {
        (
            s,
            ActionV::Probe {
                container: container_id_model(s),
                path: s.locator.candidates[s.locator.index],
            },
        )
    } else if s.locator.state is Located && 0 <= s.locator.index < s.locator.candidates.len() {
        (
            EngineV { phase: Phase::Execing, ..s },
            ActionV::ExecShell(
                ExecRequestV {
                    container: container_id_model(s),
                    shell: s.locator.candidates[s.locator.index],
                    args: s.config.command_args,
                    user: exec_user_model(s),
                    privileged: if s.ephemeral {
                        false
                    } else {
                        s.config.privileged
                    },
                },
            ),
        )
    } else {
        finish_model(s, Outcome::Failed(Fault::ShellNotFound))
    }
}

/// One engine step: the state after an event and the daemon operation it
/// demands.  Out-of-protocol events are ignored.
pub open spec fn step_model(s: EngineV, e: EventV) -> (EngineV, ActionV) {
    if s.phase == Phase::Finished {
        (s, ActionV::Idle)
    } else if e is Interrupted {
        if s.phase == Phase::CleaningUp {
            (s, ActionV::Idle)
        } else {
            finish_model(s, Outcome::Interrupted)
        }
    } else {
        match (s.phase, e) {
            (Phase::Connecting, EventV::Connected) => (
                EngineV { phase: Phase::QueryingContainers, ..s },
                ActionV::QueryContainers(s.target),
            ),
            (Phase::Connecting, EventV::ConnectFailed) => finish_model(
                s,
                Outcome::Failed(Fault::Connection),
            ),
            (Phase::QueryingContainers, EventV::ContainersFound(ms)) => match classify_model(ms) {
                ContainerClass::Running(i) => probe_or_exec_model(
                    EngineV {
                        phase: Phase::Probing,
                        container: Some(ms[i as int].id),
                        container_user: Some(ms[i as int].user),
                        ephemeral: false,
                        ..s
                    },
                ),
                ContainerClass::Stopped => finish_model(
                    s,
                    Outcome::Failed(Fault::TargetNotRunning),
                ),
                ContainerClass::Ambiguous => finish_model(
                    EngineV { ambiguous_candidates: ids_model(ms), ..s },
                    Outcome::Failed(Fault::ResolutionAmbiguous),
                ),
                ContainerClass::NoMatch => (
                    EngineV { phase: Phase::QueryingImages, ..s },
                    ActionV::QueryImages(s.target),
                ),
            },
            (Phase::QueryingImages, EventV::ImagesFound(names)) => {
                if names.len() == 1 {
                    (
                        EngineV { phase: Phase::Creating, create_issued: true, ..s },
                        ActionV::CreateContainer {
                            image: s.target,
                            privileged: s.config.privileged,
                        },
                    )
                } else if names.len() == 0 {
                    finish_model(s, Outcome::Failed(Fault::ResolutionNotFound))
                } else {
                    finish_model(
                        EngineV { ambiguous_candidates: names, ..s },
                        Outcome::Failed(Fault::ResolutionAmbiguous),
                    )
                }
            },
            (Phase::Creating, EventV::Created(id)) => (
                EngineV {
                    phase: Phase::Starting,
                    container: Some(id),
                    obligation: Some(id),
                    ephemeral: true,
                    ..s
                },
                ActionV::StartContainer(id),
            ),
            (Phase::Creating, EventV::CreateDenied) => finish_model(
                s,
                Outcome::Failed(Fault::Permission),
            ),
            (Phase::Creating, EventV::CreateFailed) => finish_model(
                s,
                Outcome::Failed(Fault::CreateFailed),
            ),
            (Phase::Starting, EventV::Started) => probe_or_exec_model(
                EngineV { phase: Phase::Probing, ..s },
            ),
            (Phase::Starting, EventV::StartFailed) => finish_model(
                s,
                Outcome::Failed(Fault::StartFailed),
            ),
            (Phase::Probing, EventV::ProbeResult(exists)) => {
                if s.locator.state is Pending && 0 <= s.locator.index
                    < s.locator.candidates.len() {
                    probe_or_exec_model(
                        EngineV { locator: locator_observe(s.locator, exists), ..s },
                    )
                } else {
                    (s, ActionV::Idle)
                }
            },
            (Phase::Execing, EventV::ExecStarted) => (
                EngineV { phase: Phase::Relaying, ..s },
                ActionV::OpenRelay(container_id_model(s)),
            ),
            (Phase::Execing, EventV::ExecDenied) => finish_model(
                s,
                Outcome::Failed(Fault::Permission),
            ),
            (Phase::Execing, EventV::ExecFailed) => finish_model(
                s,
                Outcome::Failed(Fault::ExecFailed),
            ),
            (Phase::Relaying, EventV::SessionEnded(c)) => finish_model(s, Outcome::Exited(c)),
            (Phase::Relaying, EventV::SessionClosed) => finish_model(s, Outcome::Disconnected),
            (Phase::CleaningUp, EventV::Removed) => (
                EngineV { phase: Phase::Finished, ..s },
                ActionV::Idle,
            ),
            (Phase::CleaningUp, EventV::RemoveFailed) => (
                EngineV { phase: Phase::Finished, cleanup_failed: true, ..s },
                ActionV::Idle,
            ),
            _ => (s, ActionV::Idle),
        }
    }
}

/// Clone a vector of strings, keeping its contents.
fn clone_strings(v: &Vec<String>) -> (r: Vec<String>)
    ensures
        r.deep_view() == v.deep_view(),
{
    let mut r: Vec<String> = Vec::new();
    let mut i: usize = 0;
    while i < v.len()
        invariant
            i <= v.len(),
            r@.len() == i,
            forall|j: int| 0 <= j < i ==> r@[j] == v@[j],
        decreases v.len() - i,
    {
        r.push(v[i].clone());
        i = i + 1;
    }
    proof {
        assert(r@ =~= v@);
    }
    r
}

impl Engine {
    /// Build a fresh engine, as `init_model` states.
    pub fn new(target: String, config: SessionConfig, candidates: Vec<String>) -> (e: Engine)
        ensures
            e@ == init_model(target@, config@, candidates.deep_view()),
    {
        let cands = match &config.shell_override {
            Some(path) => {
                let mut v: Vec<String> = Vec::new();
                v.push(path.clone());
                proof {
                    assert(v.deep_view() =~= seq![path@]);
                }
                v
            },
            None => candidates,
        };
        let ambiguous_candidates: Vec<String> = Vec::new();
        proof {
            assert(ambiguous_candidates.deep_view() =~= Seq::<Seq<char>>::empty());
        }
        Engine {
            target,
            config,
            locator: ShellLocator::new(cands),
            phase: Phase::Connecting,
            container: None,
            container_user: None,
            ephemeral: false,
            create_issued: false,
            obligation: None,
            removal_issued: false,
            cleanup_failed: false,
            outcome: None,
            ambiguous_candidates,
        }
    }

    /// Whether the session is over.
    pub fn is_finished(&self) -> (b: bool)
        ensures
            b == (self@.phase == Phase::Finished),
    {
        matches!(self.phase, Phase::Finished)
    }

    /// How the session ended, once decided.
    pub fn outcome(&self) -> (o: Option<Outcome>)
        ensures
            o == self@.outcome,
    {
        self.outcome
    }

    /// The id of the execution context; empty while none is resolved.
    fn container_id(&self) -> (c: String)
        ensures
            c@ == container_id_model(self@),
    {
        match &self.container {
            Some(c) => c.clone(),
            None => String::new(),
        }
    }

    /// End the session with this outcome, as `finish_model` states.
    fn finish(&mut self, o: Outcome) -> (a: Action)
        ensures
            ({
                let r = finish_model(old(self)@, o);
                final(self)@ == r.0 && a@ == r.1
            }),
    {
        self.outcome = Some(o);
        if !self.removal_issued {
            let id = match &self.obligation {
                Some(id) => Some(id.clone()),
                None => None,
            };
            if let Some(id) = id {
                self.phase = Phase::CleaningUp;
                self.removal_issued = true;
                return Action::RemoveContainer(id);
            }
        }
        self.phase = Phase::Finished;
        Action::Idle
    }

    /// Probe, exec, or fail, as `probe_or_exec_model` states.
    fn probe_or_exec(&mut self) -> (a: Action)
        ensures
            ({
                let r = probe_or_exec_model(old(self)@);
                final(self)@ == r.0 && a@ == r.1
            }),
    {
        let pending = match self.locator.pending_candidate() {
            Some(p) => Some(p.clone()),
            None => None,
        };
        if let Some(path) = pending {
            let container = self.container_id();
            return Action::Probe { container, path };
        }
        let located = match self.locator.located_candidate() {
            Some(p) => Some(p.clone()),
            None => None,
        };
        if let Some(shell) = located {
            let container = self.container_id();
            let args = clone_strings(&self.config.command_args);
            let user = if self.config.preserve_user {
                if self.ephemeral {
                    ExecUser::ContainerDefault
                } else {
                    match &self.container_user {
                        Some(u) => ExecUser::Named(u.clone()),
                        None => ExecUser::ContainerDefault,
                    }
                }
            } else {
                ExecUser::Root
            };
            let privileged = if self.ephemeral {
                false
            } else {
                self.config.privileged
            };
            self.phase = Phase::Execing;
            return Action::ExecShell(ExecRequest { container, shell, args, user, privileged });
        }
        self.finish(Outcome::Failed(Fault::ShellNotFound))
    }

    /// Consume one event, as `step_model` states.
    pub fn step(&mut self, e: Event) -> (a: Action)
        ensures
            ({
                let r = step_model(old(self)@, e@);
                final(self)@ == r.0 && a@ == r.1
            }),
    {
        if matches!(self.phase, Phase::Finished) {
            return Action::Idle;
        }
        if matches!(e, Event::Interrupted) {
            if matches!(self.phase, Phase::CleaningUp) {
                return Action::Idle;
            }
            return self.finish(Outcome::Interrupted);
        }
        match (self.phase, e) {
            (Phase::Connecting, Event::Connected) => {
                self.phase = Phase::QueryingContainers;
                Action::QueryContainers(self.target.clone())
            },
            (Phase::Connecting, Event::ConnectFailed) => self.finish(
                Outcome::Failed(Fault::Connection),
            ),
            (Phase::QueryingContainers, Event::ContainersFound(ms)) => {
                match classify_containers(&ms) {
                    ContainerClass::Running(i) => {
                        let n = ms.len();
                        proof {
                            assert(ms.deep_view().len() == n);
                            lemma_classify_running(ms.deep_view(), i);
                        }
                        self.container = Some(ms[i].id.clone());
                        self.container_user = Some(ms[i].user.clone());
                        self.ephemeral = false;
                        self.phase = Phase::Probing;
                        self.probe_or_exec()
                    },
                    ContainerClass::Stopped => self.finish(
                        Outcome::Failed(Fault::TargetNotRunning),
                    ),
                    ContainerClass::Ambiguous => {
                        self.ambiguous_candidates = match_ids(&ms);
                        self.finish(Outcome::Failed(Fault::ResolutionAmbiguous))
                    },
                    ContainerClass::NoMatch => {
                        self.phase = Phase::QueryingImages;
                        Action::QueryImages(self.target.clone())
                    },
                }
            },
            (Phase::QueryingImages, Event::ImagesFound(names)) => {
                let n = names.len();
                if n == 1 {
                    self.phase = Phase::Creating;
                    self.create_issued = true;
                    Action::CreateContainer {
                        image: self.target.clone(),
                        privileged: self.config.privileged,
                    }
                } else if n == 0 {
                    self.finish(Outcome::Failed(Fault::ResolutionNotFound))
                } else {
                    self.ambiguous_candidates = names;
                    self.finish(Outcome::Failed(Fault::ResolutionAmbiguous))
                }
            },
            (Phase::Creating, Event::Created(id)) => {
                self.container = Some(id.clone());
                self.obligation = Some(id.clone());
                self.ephemeral = true;
                self.phase = Phase::Starting;
                Action::StartContainer(id)
            },
            (Phase::Creating, Event::CreateDenied) => self.finish(
                Outcome::Failed(Fault::Permission),
            ),
            (Phase::Creating, Event::CreateFailed) => self.finish(
                Outcome::Failed(Fault::CreateFailed),
            ),
            (Phase::Starting, Event::Started) => {
                self.phase = Phase::Probing;
                self.probe_or_exec()
            },
            (Phase::Starting, Event::StartFailed) => self.finish(
                Outcome::Failed(Fault::StartFailed),
            ),
            (Phase::Probing, Event::ProbeResult(exists)) => {
                let pending = self.locator.pending_candidate().is_some();
                if pending {
                    self.locator.observe(exists);
                    self.probe_or_exec()
                } else {
                    Action::Idle
                }
            },
            (Phase::Execing, Event::ExecStarted) => {
                self.phase = Phase::Relaying;
                Action::OpenRelay(self.container_id())
            },
            (Phase::Execing, Event::ExecDenied) => self.finish(Outcome::Failed(Fault::Permission)),
            (Phase::Execing, Event::ExecFailed) => self.finish(Outcome::Failed(Fault::ExecFailed)),
            (Phase::Relaying, Event::SessionEnded(c)) => self.finish(Outcome::Exited(c)),
            (Phase::Relaying, Event::SessionClosed) => self.finish(Outcome::Disconnected),
            (Phase::CleaningUp, Event::Removed) => {
                self.phase = Phase::Finished;
                Action::Idle
            },
            (Phase::CleaningUp, Event::RemoveFailed) => {
                self.cleanup_failed = true;
                self.phase = Phase::Finished;
                Action::Idle
            },
            (_, _) => Action::Idle,
        }
    }
}

/// Build the engine for one session: the defaulted command configuration
/// and the forwarded arguments become the session options, and the fixed
/// candidate list (or the explicit shell override) seeds the locator.
pub fn rebug(target: String, argv: Vec<String>, command_config: &CommandConfiguration) -> (e:
    Engine)
    ensures
        e@ == init_model(
            target@,
            SessionConfigV {
                preserve_user: command_config.preserve_user,
                privileged: command_config.privileged,
                shell_override: shell_override_model(command_config.shell@),
                command_args: argv.deep_view(),
            },
            default_candidates_model(),
        ),
{
    let config = session_config_of(command_config, argv);
    Engine::new(target, config, default_candidates())
}

} // verus!

use rebug::config::Cli;
use rebug::config::CommandConfiguration;
use rebug::config::SessionConfig;
use rebug::engine::rebug;
use rebug::engine::Action;
use rebug::engine::Engine;
use rebug::engine::Event;
use rebug::engine::ExecUser;
use rebug::errors::exit_code;
use rebug::errors::Fault;
use rebug::errors::Outcome;
use rebug::resolve::ContainerMatch;

fn running_match(id: &str, user: &str) -> ContainerMatch {
    ContainerMatch { id: id.to_string(), running: true, user: user.to_string() }
}

fn stopped_match(id: &str) -> ContainerMatch {
    ContainerMatch { id: id.to_string(), running: false, user: "root".to_string() }
}

fn auto_config(preserve_user: bool, privileged: bool) -> SessionConfig {
    SessionConfig { preserve_user, privileged, shell_override: None, command_args: Vec::new() }
}

/// Target `web-1` is a running container with user `app`; preserve_user
/// is on, privileged off, shell auto with candidates /bin/bash then
/// /bin/sh, and /bin/bash exists: the exec runs /bin/bash as `app`, the
/// context is attached, and no cleanup obligation arises.
#[test]
fn attaches_to_running_container_preserving_user() {
    let candidates = vec!["/bin/bash".to_string(), "/bin/sh".to_string()];
    let mut engine = Engine::new("web-1".to_string(), auto_config(true, false), candidates);

    match engine.step(Event::Connected) {
        Action::QueryContainers(t) => assert_eq!(t, "web-1"),
        _ => panic!("expected a container query"),
    }
    match engine.step(Event::ContainersFound(vec![running_match("web-1", "app")])) {
        Action::Probe { container, path } => {
            assert_eq!(container, "web-1");
            assert_eq!(path, "/bin/bash");
        }
        _ => panic!("expected the first probe"),
    }
    match engine.step(Event::ProbeResult(true)) {
        Action::ExecShell(req) => {
            assert_eq!(req.container, "web-1");
            assert_eq!(req.shell, "/bin/bash");
            assert!(!req.privileged);
            match req.user {
                ExecUser::Named(u) => assert_eq!(u, "app"),
                _ => panic!("expected the container's user to be preserved"),
            }
        }
        _ => panic!("expected the exec request"),
    }
    assert!(!engine.ephemeral);
    assert!(engine.obligation.is_none());
    match engine.step(Event::ExecStarted) {
        Action::OpenRelay(c) => assert_eq!(c, "web-1"),
        _ => panic!("expected the relay to open"),
    }
    match engine.step(Event::SessionEnded(0)) {
        Action::Idle => {}
        _ => panic!("an attached session owes no cleanup"),
    }
    assert!(engine.is_finished());
    assert_eq!(engine.outcome(), Some(Outcome::Exited(0)));
    assert_eq!(exit_code(Outcome::Exited(0)), 0);
}

/// Target `alpine:3.18` matches no container; flags are the defaults and
/// only /bin/sh exists: one ephemeral container is created from the
/// image, /bin/sh is launched, and the container is removed on exit.
#[test]
fn creates_and_removes_ephemeral_container_for_image() {
    let cli = Cli {
        command_arg: None,
        host: None,
        preserve_user: false,
        privileged: false,
        shell: None,
    };
    let command_config = CommandConfiguration::new(&cli);
    assert_eq!(command_config.shell, "auto");
    assert_eq!(command_config.host, "unix:///var/run/docker.sock");
    let mut engine = rebug("alpine:3.18".to_string(), Vec::new(), &command_config);

    match engine.step(Event::Connected) {
        Action::QueryContainers(t) => assert_eq!(t, "alpine:3.18"),
        _ => panic!("expected a container query"),
    }
    match engine.step(Event::ContainersFound(Vec::new())) {
        Action::QueryImages(t) => assert_eq!(t, "alpine:3.18"),
        _ => panic!("expected an image query"),
    }
    match engine.step(Event::ImagesFound(vec!["busybox".to_string()])) {
        Action::CreateContainer { image, privileged } => {
            assert_eq!(image, "alpine:3.18");
            assert!(!privileged);
        }
        _ => panic!("expected the ephemeral container creation"),
    }
    match engine.step(Event::Created("c-eph".to_string())) {
        Action::StartContainer(c) => assert_eq!(c, "c-eph"),
        _ => panic!("expected the container start"),
    }
    assert!(engine.ephemeral);
    assert_eq!(engine.obligation.as_deref(), Some("c-eph"));
    // With no shell flag the ordered candidate list is probed, the
    // full-featured shells first; only /bin/sh exists here.
    match engine.step(Event::Started) {
        Action::Probe { container, path } => {
            assert_eq!(container, "c-eph");
            assert_eq!(path, "/bin/bash");
        }
        _ => panic!("expected the first probe"),
    }
    match engine.step(Event::ProbeResult(false)) {
        Action::Probe { path, .. } => assert_eq!(path, "/bin/zsh"),
        _ => panic!("expected the second probe"),
    }
    match engine.step(Event::ProbeResult(false)) {
        Action::Probe { path, .. } => assert_eq!(path, "/usr/bin/fish"),
        _ => panic!("expected the third probe"),
    }
    match engine.step(Event::ProbeResult(false)) {
        Action::Probe { path, .. } => assert_eq!(path, "/bin/sh"),
        _ => panic!("expected the last probe"),
    }
    match engine.step(Event::ProbeResult(true)) {
        Action::ExecShell(req) => {
            assert_eq!(req.shell, "/bin/sh");
            assert!(matches!(req.user, ExecUser::Root));
            assert!(!req.privileged);
        }
        _ => panic!("expected the exec request"),
    }
    match engine.step(Event::ExecStarted) {
        Action::OpenRelay(c) => assert_eq!(c, "c-eph"),
        _ => panic!("expected the relay to open"),
    }
    match engine.step(Event::SessionEnded(0)) {
        Action::RemoveContainer(c) => assert_eq!(c, "c-eph"),
        _ => panic!("the ephemeral container must be removed"),
    }
    match engine.step(Event::Removed) {
        Action::Idle => {}
        _ => panic!("cleanup is drained exactly once"),
    }
    assert!(engine.is_finished());
    assert_eq!(engine.outcome(), Some(Outcome::Exited(0)));
    assert!(!engine.cleanup_failed);
}

/// The ephemeral container is removed exactly once even when the exec
/// step fails after creation, and a removal failure is reported beside
/// the primary error, never in its place.
#[test]
fn removes_ephemeral_container_once_when_exec_fails() {
    let mut engine = Engine::new(
        "busybox".to_string(),
        auto_config(false, false),
        vec!["/bin/sh".to_string()],
    );
    engine.step(Event::Connected);
    engine.step(Event::ContainersFound(Vec::new()));
    engine.step(Event::ImagesFound(vec!["busybox".to_string()]));
    engine.step(Event::Created("c-fail".to_string()));
    engine.step(Event::Started);
    engine.step(Event::ProbeResult(true));
    match engine.step(Event::ExecFailed) {
        Action::RemoveContainer(c) => assert_eq!(c, "c-fail"),
        _ => panic!("the failed session still owes the cleanup"),
    }
    match engine.step(Event::RemoveFailed) {
        Action::Idle => {}
        _ => panic!("cleanup is attempted once, not retried forever"),
    }
    assert!(engine.is_finished());
    assert_eq!(engine.outcome(), Some(Outcome::Failed(Fault::ExecFailed)));
    assert!(engine.cleanup_failed);
    // Nothing further is ever demanded: no second removal.
    assert!(matches!(engine.step(Event::Removed), Action::Idle));
    assert!(matches!(engine.step(Event::SessionEnded(3)), Action::Idle));
    assert_eq!(engine.outcome(), Some(Outcome::Failed(Fault::ExecFailed)));
}

/// An external cancellation during bootstrap drains the obligation and
/// ends the session with the conventional interrupt code.
#[test]
fn interrupt_during_bootstrap_still_cleans_up() {
    let mut engine = Engine::new(
        "busybox".to_string(),
        auto_config(false, false),
        vec!["/bin/sh".to_string()],
    );
    engine.step(Event::Connected);
    engine.step(Event::ContainersFound(Vec::new()));
    engine.step(Event::ImagesFound(vec!["busybox".to_string()]));
    engine.step(Event::Created("c-int".to_string()));
    match engine.step(Event::Interrupted) {
        Action::RemoveContainer(c) => assert_eq!(c, "c-int"),
        _ => panic!("cancellation must still drain the obligation"),
    }
    assert!(matches!(engine.step(Event::Removed), Action::Idle));
    assert!(engine.is_finished());
    assert_eq!(engine.outcome(), Some(Outcome::Interrupted));
    assert_eq!(exit_code(Outcome::Interrupted), 130);
}

/// A target matching exactly one running container never triggers any
/// container creation, whatever happens later.
#[test]
fn running_target_never_creates() {
    let mut engine = Engine::new(
        "db".to_string(),
        auto_config(false, false),
        vec!["/bin/bash".to_string(), "/bin/sh".to_string()],
    );
    let mut actions = Vec::new();
    actions.push(engine.step(Event::Connected));
    actions.push(engine.step(Event::ContainersFound(vec![
        stopped_match("db-old"),
        running_match("db", "postgres"),
    ])));
    actions.push(engine.step(Event::ProbeResult(false)));
    actions.push(engine.step(Event::ProbeResult(true)));
    actions.push(engine.step(Event::ExecStarted));
    actions.push(engine.step(Event::SessionEnded(1)));
    for a in &actions {
        assert!(!matches!(a, Action::CreateContainer { .. }));
        assert!(!matches!(a, Action::RemoveContainer(_)));
    }
    assert!(engine.is_finished());
    assert_eq!(engine.outcome(), Some(Outcome::Exited(1)));
}

/// Two matching containers with none running fail as ambiguous, and no
/// container is created or mutated.
#[test]
fn ambiguous_target_is_inert() {
    let mut engine = Engine::new(
        "dup".to_string(),
        auto_config(false, false),
        vec!["/bin/sh".to_string()],
    );
    engine.step(Event::Connected);
    match engine.step(Event::ContainersFound(vec![stopped_match("dup-1"), stopped_match("dup-2")]))
    {
        Action::Idle => {}
        _ => panic!("an ambiguous target demands nothing"),
    }
    assert!(engine.is_finished());
    assert_eq!(engine.outcome(), Some(Outcome::Failed(Fault::ResolutionAmbiguous)));
    // The failure is surfaced with the candidate list.
    assert_eq!(engine.ambiguous_candidates, vec!["dup-1", "dup-2"]);
    assert!(matches!(engine.step(Event::ImagesFound(vec!["busybox".to_string()])), Action::Idle));
    assert!(matches!(engine.step(Event::Created("x".to_string())), Action::Idle));
}

/// Several matching images with no matching container are ambiguous too,
/// and the failure carries the matching references.
#[test]
fn ambiguous_images_surface_their_references() {
    let mut engine = Engine::new(
        "tool".to_string(),
        auto_config(false, false),
        vec!["/bin/sh".to_string()],
    );
    engine.step(Event::Connected);
    engine.step(Event::ContainersFound(Vec::new()));
    match engine.step(Event::ImagesFound(vec![
        "tool:1".to_string(),
        "tool:2".to_string(),
    ])) {
        Action::Idle => {}
        _ => panic!("an ambiguous target demands nothing"),
    }
    assert!(engine.is_finished());
    assert_eq!(engine.outcome(), Some(Outcome::Failed(Fault::ResolutionAmbiguous)));
    assert_eq!(engine.ambiguous_candidates, vec!["tool:1", "tool:2"]);
}

/// A transport that closes before any exit code is obtained ends the
/// session as disconnected — its own outcome with its own exit code —
/// and an ephemeral container is still removed.
#[test]
fn stream_closure_without_code_is_disconnected() {
    let mut engine = Engine::new(
        "busybox".to_string(),
        auto_config(false, false),
        vec!["/bin/sh".to_string()],
    );
    engine.step(Event::Connected);
    engine.step(Event::ContainersFound(Vec::new()));
    engine.step(Event::ImagesFound(vec!["busybox".to_string()]));
    engine.step(Event::Created("c-gone".to_string()));
    engine.step(Event::Started);
    engine.step(Event::ProbeResult(true));
    engine.step(Event::ExecStarted);
    match engine.step(Event::SessionClosed) {
        Action::RemoveContainer(c) => assert_eq!(c, "c-gone"),
        _ => panic!("the ephemeral container must still be removed"),
    }
    engine.step(Event::Removed);
    assert!(engine.is_finished());
    assert_eq!(engine.outcome(), Some(Outcome::Disconnected));
    assert_ne!(exit_code(Outcome::Disconnected), 0);
    assert_ne!(
        exit_code(Outcome::Disconnected),
        exit_code(Outcome::Failed(Fault::Connection))
    );
    assert_ne!(
        exit_code(Outcome::Disconnected),
        exit_code(Outcome::Failed(Fault::ExecFailed))
    );
}

/// A stopped target is never implicitly started.
#[test]
fn stopped_target_is_refused() {
    let mut engine = Engine::new(
        "old".to_string(),
        auto_config(false, false),
        vec!["/bin/sh".to_string()],
    );
    engine.step(Event::Connected);
    engine.step(Event::ContainersFound(vec![stopped_match("old")]));
    assert!(engine.is_finished());
    assert_eq!(engine.outcome(), Some(Outcome::Failed(Fault::TargetNotRunning)));
}

/// An unreachable daemon yields the connection error before any
/// resolution is attempted, with an exit code distinct from every other
/// error category.
#[test]
fn connection_error_precedes_resolution() {
    let mut engine = Engine::new(
        "web".to_string(),
        auto_config(false, false),
        vec!["/bin/sh".to_string()],
    );
    match engine.step(Event::ConnectFailed) {
        Action::Idle => {}
        _ => panic!("no query may precede the connection"),
    }
    assert!(engine.is_finished());
    assert_eq!(engine.outcome(), Some(Outcome::Failed(Fault::Connection)));

    let codes = [
        exit_code(Outcome::Failed(Fault::Connection)),
        exit_code(Outcome::Failed(Fault::ResolutionAmbiguous)),
        exit_code(Outcome::Failed(Fault::ShellNotFound)),
        exit_code(Outcome::Failed(Fault::Permission)),
        exit_code(Outcome::Failed(Fault::ExecFailed)),
    ];
    for (i, a) in codes.iter().enumerate() {
        assert_ne!(*a, 0);
        for (j, b) in codes.iter().enumerate() {
            if i != j {
                assert_ne!(*a, *b);
            }
        }
    }
    assert_eq!(
        exit_code(Outcome::Failed(Fault::ResolutionAmbiguous)),
        exit_code(Outcome::Failed(Fault::ResolutionNotFound))
    );
    assert_eq!(
        exit_code(Outcome::Failed(Fault::CreateFailed)),
        exit_code(Outcome::Failed(Fault::TargetNotRunning))
    );
}

/// When no target resolves at all, the engine reports it as not found.
#[test]
fn unmatched_target_not_found() {
    let mut engine = Engine::new(
        "ghost".to_string(),
        auto_config(false, false),
        vec!["/bin/sh".to_string()],
    );
    engine.step(Event::Connected);
    engine.step(Event::ContainersFound(Vec::new()));
    engine.step(Event::ImagesFound(Vec::new()));
    assert!(engine.is_finished());
    assert_eq!(engine.outcome(), Some(Outcome::Failed(Fault::ResolutionNotFound)));
}

/// Privilege elevation is wired into the exec of an attached target; an
/// ephemeral container instead carries the privilege at creation time.
#[test]
fn privilege_is_applied_where_it_belongs() {
    let mut attached = Engine::new(
        "svc".to_string(),
        auto_config(false, true),
        vec!["/bin/sh".to_string()],
    );
    attached.step(Event::Connected);
    attached.step(Event::ContainersFound(vec![running_match("svc", "app")]));
    match attached.step(Event::ProbeResult(true)) {
        Action::ExecShell(req) => {
            assert!(req.privileged);
            assert!(matches!(req.user, ExecUser::Root));
        }
        _ => panic!("expected the exec request"),
    }

    let mut ephemeral = Engine::new(
        "img".to_string(),
        auto_config(false, true),
        vec!["/bin/sh".to_string()],
    );
    ephemeral.step(Event::Connected);
    ephemeral.step(Event::ContainersFound(Vec::new()));
    match ephemeral.step(Event::ImagesFound(vec!["busybox".to_string()])) {
        Action::CreateContainer { privileged, .. } => assert!(privileged),
        _ => panic!("expected the creation to carry the privilege"),
    }
    ephemeral.step(Event::Created("c-p".to_string()));
    ephemeral.step(Event::Started);
    match ephemeral.step(Event::ProbeResult(true)) {
        Action::ExecShell(req) => assert!(!req.privileged),
        _ => panic!("expected the exec request"),
    }
}

/// An explicit shell override is verified by a single probe and used
/// unconditionally; when it is absent the session fails rather than
/// falling back to other candidates.
#[test]
fn shell_override_is_probed_once_and_never_falls_back() {
    let config = SessionConfig {
        preserve_user: false,
        privileged: false,
        shell_override: Some("/bin/fancy".to_string()),
        command_args: Vec::new(),
    };
    // The candidate list is ignored in favour of the override.
    let mut engine = Engine::new(
        "web".to_string(),
        config,
        vec!["/bin/bash".to_string(), "/bin/sh".to_string()],
    );
    engine.step(Event::Connected);
    match engine.step(Event::ContainersFound(vec![running_match("web", "app")])) {
        Action::Probe { path, .. } => assert_eq!(path, "/bin/fancy"),
        _ => panic!("the override is probed first and alone"),
    }
    match engine.step(Event::ProbeResult(false)) {
        Action::Idle => {}
        _ => panic!("an absent override must not fall back"),
    }
    assert!(engine.is_finished());
    assert_eq!(engine.outcome(), Some(Outcome::Failed(Fault::ShellNotFound)));
}

/// The forwarded positional arguments become the exec arguments of the
/// resolved shell.
#[test]
fn command_args_reach_the_exec_request() {
    let config = SessionConfig {
        preserve_user: false,
        privileged: false,
        shell_override: None,
        command_args: vec!["-c".to_string(), "ls /".to_string()],
    };
    let mut engine = Engine::new("web".to_string(), config, vec!["/bin/sh".to_string()]);
    engine.step(Event::Connected);
    engine.step(Event::ContainersFound(vec![running_match("web", "app")]));
    match engine.step(Event::ProbeResult(true)) {
        Action::ExecShell(req) => {
            assert_eq!(req.args, vec!["-c".to_string(), "ls /".to_string()]);
        }
        _ => panic!("expected the exec request"),
    }
}

/// When no candidate shell exists, the session fails with the shell
/// error and an ephemeral container is still removed.
#[test]
fn shell_not_found_still_cleans_up() {
    let mut engine = Engine::new(
        "img".to_string(),
        auto_config(false, false),
        vec!["/bin/bash".to_string(), "/bin/sh".to_string()],
    );
    engine.step(Event::Connected);
    engine.step(Event::ContainersFound(Vec::new()));
    engine.step(Event::ImagesFound(vec!["busybox".to_string()]));
    engine.step(Event::Created("c-bare".to_string()));
    engine.step(Event::Started);
    engine.step(Event::ProbeResult(false));
    match engine.step(Event::ProbeResult(false)) {
        Action::RemoveContainer(c) => assert_eq!(c, "c-bare"),
        _ => panic!("exhausted probing must still clean up"),
    }
    engine.step(Event::Removed);
    assert_eq!(engine.outcome(), Some(Outcome::Failed(Fault::ShellNotFound)));
}

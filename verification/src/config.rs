//! Configuration of one session: the raw command-line values, the
//! defaulted command configuration, and the session options the engine
//! consumes.

use vstd::prelude::*;

verus! {

/// The raw command-line values, already parsed by the surrounding CLI
/// layer.  `None` means the flag was not given.
pub struct Cli {
    /// Commands to evaluate instead of an interactive shell.
    pub command_arg: Option<String>,
    /// Daemon socket to connect to.
    pub host: Option<String>,
    /// Running containers only: keep the container's own user.
    pub preserve_user: bool,
    /// Running containers only: give the shell all capabilities.
    pub privileged: bool,
    /// Requested shell: a known name, an explicit path, or `auto`.
    pub shell: Option<String>,
}

/// The command configuration after defaulting: every field present.
pub struct CommandConfiguration {
    pub command_arg: String,
    pub host: String,
    pub preserve_user: bool,
    pub privileged: bool,
    pub shell: String,
}

/// An optional string, or a default where it is absent.
pub open spec fn or_default(o: Option<Seq<char>>, d: Seq<char>) -> Seq<char> {
    match o {
        Some(s) => s,
        None => d,
    }
}

impl CommandConfiguration {
    /// Fill in the defaults: shell `auto` (so the ordered candidate
    /// probing runs), command the shell itself, and the local daemon
    /// socket.
    pub fn new(cli: &Cli) -> (c: Self)
        ensures
            c.shell@ == or_default(cli.shell.deep_view(), "auto"@),
            c.command_arg@ == or_default(cli.command_arg.deep_view(), c.shell@),
            c.host@ == or_default(cli.host.deep_view(), "unix:///var/run/docker.sock"@),
            c.preserve_user == cli.preserve_user,
            c.privileged == cli.privileged,
    {
        let shell = match &cli.shell {
            Some(s) => s.clone(),
            None => String::from_str("auto"),
        };
        let command_arg = match &cli.command_arg {
            Some(a) => a.clone(),
            None => shell.clone(),
        };
        let host = match &cli.host {
            Some(h) => h.clone(),
            None => String::from_str("unix:///var/run/docker.sock"),
        };
        Self { command_arg, host, preserve_user: cli.preserve_user, privileged: cli.privileged, shell }
    }
}

/// The options the engine consumes, constructed once and read-only
/// afterwards.
pub struct SessionConfig {
    /// Keep the container's own user instead of forcing root.
    pub preserve_user: bool,
    /// Request the full capability set.
    pub privileged: bool,
    /// An explicit shell to use unconditionally; `None` probes the
    /// candidate list.
    pub shell_override: Option<String>,
    /// Arguments handed to the resolved shell.
    pub command_args: Vec<String>,
}

/// Mathematical model of a `SessionConfig`.
pub struct SessionConfigV {
    pub preserve_user: bool,
    pub privileged: bool,
    pub shell_override: Option<Seq<char>>,
    pub command_args: Seq<Seq<char>>,
}

impl View for SessionConfig {
    type V = SessionConfigV;

    open spec fn view(&self) -> SessionConfigV {
        SessionConfigV {
            preserve_user: self.preserve_user,
            privileged: self.privileged,
            shell_override: self.shell_override.deep_view(),
            command_args: self.command_args.deep_view(),
        }
    }
}

/// The shell override a requested shell stands for: `auto` means none
/// (probe the candidates), a known shell name means its usual path, and
/// anything else is taken as an explicit path.
pub open spec fn shell_override_model(s: Seq<char>) -> Option<Seq<char>> {
    if s == "auto"@ {
        None
    } else if s == "bash"@ {
        Some("/bin/bash"@)
    } else if s == "zsh"@ {
        Some("/bin/zsh"@)
    } else if s == "fish"@ {
        Some("/usr/bin/fish"@)
    } else if s == "sh"@ {
        Some("/bin/sh"@)
    } else {
        Some(s)
    }
}

/// Map the requested shell to its override, as `shell_override_model`
/// states.
pub fn shell_override_of(shell: &String) -> (r: Option<String>)
    ensures
        r.deep_view() == shell_override_model(shell@),
{
    if *shell == String::from_str("auto") {
        None
    } else if *shell == String::from_str("bash") {
        Some(String::from_str("/bin/bash"))
    } else if *shell == String::from_str("zsh") {
        Some(String::from_str("/bin/zsh"))
    } else if *shell == String::from_str("fish") {
        Some(String::from_str("/usr/bin/fish"))
    } else if *shell == String::from_str("sh") {
        Some(String::from_str("/bin/sh"))
    } else {
        Some(shell.clone())
    }
}

/// The fixed, ordered candidate list used when no shell override is
/// given: full-featured shells first, the minimal shell last.
pub open spec fn default_candidates_model() -> Seq<Seq<char>> {
    seq!["/bin/bash"@, "/bin/zsh"@, "/usr/bin/fish"@, "/bin/sh"@]
}

/// Build the fixed candidate list of `default_candidates_model`.
pub fn default_candidates() -> (v: Vec<String>)
    ensures
        v.deep_view() == default_candidates_model(),
{
    let mut v: Vec<String> = Vec::new();
    v.push(String::from_str("/bin/bash"));
    v.push(String::from_str("/bin/zsh"));
    v.push(String::from_str("/usr/bin/fish"));
    v.push(String::from_str("/bin/sh"));
    proof {
        assert(v.deep_view() =~= default_candidates_model());
    }
    v
}

/// Build the session options from a defaulted command configuration and
/// the positional arguments forwarded to the shell.
pub fn session_config_of(cfg: &CommandConfiguration, argv: Vec<String>) -> (c: SessionConfig)
    ensures
        c@.preserve_user == cfg.preserve_user,
        c@.privileged == cfg.privileged,
        c@.shell_override == shell_override_model(cfg.shell@),
        c@.command_args == argv.deep_view(),
{
    SessionConfig {
        preserve_user: cfg.preserve_user,
        privileged: cfg.privileged,
        shell_override: shell_override_of(&cfg.shell),
        command_args: argv,
    }
}

} // verus!

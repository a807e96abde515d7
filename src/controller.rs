//! The commands of the tool, the server installation they act on, the stored
//! deployment profiles and the listing of them.

use vstd::prelude::*;
use crate::error::DeployError;
use crate::paths::{join, joined};
use crate::descriptor::parent_dir;

verus! {

/// The command line: one main command.
pub struct Cli {
    pub command: MainCommands,
}

/// The main commands.
pub enum MainCommands {
    /// Deploy a profile and run the server in this terminal.
    Run { jpda: bool, config: String },
    /// Deploy a profile and run the server in its debugger.
    Debug { config: String },
    /// Deploy a profile without starting the server.
    Deploy { config: String },
    /// Manage the stored profiles.
    Config { command: ConfigCommands },
}

/// The commands that manage stored profiles.
pub enum ConfigCommands {
    Add { name: String, path: String, project_path: String },
    Remove { name: String },
    List,
}

/// The arguments the server's launcher script is started with, if the
/// command starts the server at all.
pub open spec fn launch_args_of(cmd: MainCommands) -> Option<Seq<Seq<char>>> {
    match cmd {
        MainCommands::Run { jpda, .. } => if jpda {
            Some(seq!["jpda"@, "run"@])
        } else {
            Some(seq!["run"@])
        },
        MainCommands::Debug { .. } => Some(seq!["debug"@]),
        _ => None,
    }
}

/// The profile a command deploys, if it deploys one.
pub open spec fn deployed_profile_of(cmd: MainCommands) -> Option<Seq<char>> {
    match cmd {
        MainCommands::Run { config, .. } => Some(config@),
        MainCommands::Debug { config } => Some(config@),
        MainCommands::Deploy { config } => Some(config@),
        _ => None,
    }
}

impl MainCommands {
    /// The profile this command deploys before anything else, if any.
    pub fn deployed_profile(&self) -> (r: Option<String>)
        ensures
            match r {
                Some(s) => deployed_profile_of(*self) == Some(s@),
                None => deployed_profile_of(*self) is None,
            },
    {
        match self {
            MainCommands::Run { config, .. } => Some(config.clone()),
            MainCommands::Debug { config } => Some(config.clone()),
            MainCommands::Deploy { config } => Some(config.clone()),
            MainCommands::Config { .. } => None,
        }
    }

    /// The arguments of the launcher script when this command starts the
    /// server: `[jpda,] run` to run it, `debug` to debug it.
    pub fn launch_args(&self) -> (r: Option<Vec<String>>)
        ensures
            match r {
                Some(v) => launch_args_of(*self) == Some(v.deep_view()),
                None => launch_args_of(*self) is None,
            },
    {
        proof {
            reveal_strlit("jpda");
            reveal_strlit("run");
            reveal_strlit("debug");
        }
        match self {
            MainCommands::Run { jpda, .. } => {
                let mut v: Vec<String> = Vec::new();
                if *jpda {
                    v.push(String::from_str("jpda"));
                }
                v.push(String::from_str("run"));
                proof {
                    if *jpda {
                        assert(v.deep_view() =~= seq!["jpda"@, "run"@]);
                    } else {
                        assert(v.deep_view() =~= seq!["run"@]);
                    }
                }
                Some(v)
            },
            MainCommands::Debug { .. } => {
                let mut v: Vec<String> = Vec::new();
                v.push(String::from_str("debug"));
                assert(v.deep_view() =~= seq!["debug"@]);
                Some(v)
            },
            _ => None,
        }
    }
}

/// `s` without the line ends and blanks that follow it.
pub open spec fn strip_line_end(s: Seq<char>) -> Seq<char>
    decreases s.len(),
{
    if s.len() > 0 && (s.last() == '\n' || s.last() == '\r' || s.last() == ' ' || s.last()
        == '\t') {
        strip_line_end(s.drop_last())
    } else {
        s
    }
}

/// The launcher named by the output of a search of the execution path, if
/// that output names one.
pub open spec fn located_launcher(out: Seq<char>) -> Option<Seq<char>> {
    if strip_line_end(out).len() == 0 {
        None
    } else {
        Some(strip_line_end(out))
    }
}

/// The installation root, from the environment or else from the launcher's
/// location two levels up.
pub open spec fn installation_root(env: Option<Seq<char>>, launcher: Option<Seq<char>>) -> Option<
    Seq<char>,
> {
    match env {
        Some(h) if h.len() > 0 => Some(h),
        _ => match launcher {
            Some(l) if parent_dir(parent_dir(l)).len() > 0 => Some(parent_dir(parent_dir(l))),
            _ => None,
        },
    }
}

/// Three levels of directories below `home`.
pub open spec fn below(home: Seq<char>, a: Seq<char>, b: Seq<char>, c: Seq<char>) -> Seq<char> {
    joined(joined(joined(home, a), b), c)
}

/// Reads the launcher out of what a search of the execution path printed.
pub fn launcher_location(out: &str) -> (r: Option<String>)
    ensures
        match r {
            Some(s) => located_launcher(out@) == Some(s@),
            None => located_launcher(out@) is None,
        },
{
    let n = out.unicode_len();
    let mut hi: usize = n;
    assert(out@.subrange(0, n as int) =~= out@);
    while hi > 0 && (out.get_char(hi - 1) == '\n' || out.get_char(hi - 1) == '\r' || out.get_char(
        hi - 1,
    ) == ' ' || out.get_char(hi - 1) == '\t')
        invariant
            n == out@.len(),
            hi <= n,
            strip_line_end(out@) == strip_line_end(out@.subrange(0, hi as int)),
        decreases hi,
    {
        assert(out@.subrange(0, hi as int).drop_last() =~= out@.subrange(0, hi - 1));
        hi = hi - 1;
    }
    if hi == 0 {
        None
    } else {
        Some(String::from_str(out.substring_char(0, hi)))
    }
}

/// The directory that holds the entry at `p`.
pub fn parent_of(p: &str) -> (r: String)
    ensures
        r@ == parent_dir(p@),
{
    proof {
        crate::paths::lemma_last_index_bounds(p@, '/');
    }
    match crate::paths::find_last(p, '/') {
        Some(i) => {
            if i > 0 {
                String::from_str(p.substring_char(0, i))
            } else {
                proof {
                    reveal_strlit("/");
                }
                let r = String::from_str("/");
                assert(r@ =~= seq!['/']);
                r
            }
        },
        None => String::new(),
    }
}

/// The server installation the tool deploys to and runs.
pub struct Controller {
    pub catalina_home: String,
}

impl Controller {
    /// Finds the installation root: the environment's value if it is set and
    /// not empty, else two levels above the launcher found on the execution
    /// path.
    pub fn create(env_home: Option<String>, launcher: Option<String>) -> (r: Result<
        Controller,
        DeployError,
    >)
        ensures
            match installation_root(
                match env_home {
                    Some(h) => Some(h@),
                    None => None,
                },
                match launcher {
                    Some(l) => Some(l@),
                    None => None,
                },
            ) {
                Some(h) => r is Ok && r->Ok_0.catalina_home@ == h,
                None => r == Err::<Controller, DeployError>(DeployError::InstallationNotFound),
            },
    {
        if let Some(h) = &env_home {
            if h.as_str().unicode_len() > 0 {
                return Ok(Controller { catalina_home: h.clone() });
            }
        }
        match launcher {
            Some(l) => {
                let bin = parent_of(l.as_str());
                let home = parent_of(bin.as_str());
                if home.as_str().unicode_len() > 0 {
                    Ok(Controller { catalina_home: home })
                } else {
                    Err(DeployError::InstallationNotFound)
                }
            },
            None => Err(DeployError::InstallationNotFound),
        }
    }

    /// The directory of the deployment descriptors: `conf/Catalina/localhost`.
    pub fn descriptor_dir(&self) -> (r: String)
        ensures
            r@ == below(self.catalina_home@, "conf"@, "Catalina"@, "localhost"@),
    {
        let a = join(self.catalina_home.as_str(), "conf");
        let b = join(a.as_str(), "Catalina");
        join(b.as_str(), "localhost")
    }

    /// The directory of the work caches: `work/Catalina/localhost`.
    pub fn work_dir(&self) -> (r: String)
        ensures
            r@ == below(self.catalina_home@, "work"@, "Catalina"@, "localhost"@),
    {
        let a = join(self.catalina_home.as_str(), "work");
        let b = join(a.as_str(), "Catalina");
        join(b.as_str(), "localhost")
    }

    /// The launcher script to start: the one found on the execution path, or
    /// else `bin/catalina.sh` under the installation root.
    pub fn launcher_path(&self, found: Option<String>) -> (r: String)
        ensures
            match found {
                Some(l) => r@ == l@,
                None => r@ == joined(joined(self.catalina_home@, "bin"@), "catalina.sh"@),
            },
    {
        match found {
            Some(l) => l,
            None => {
                let b = join(self.catalina_home.as_str(), "bin");
                join(b.as_str(), "catalina.sh")
            },
        }
    }
}

} // verus!

//! Configuration for the dispatcher: a logging policy, a list of named
//! shell definitions, and a list of named protocol definitions.
//!
//! A [`Config`] is built with defaults and may be overwritten from a loaded
//! file by the surrounding application; during a single command resolution it
//! is only read. Each executable type has a mathematical view over character
//! sequences, and the contracts of this crate speak in those views.

use vstd::prelude::*;

verus! {

/// The views of a sequence of strings, element by element.
pub open spec fn str_views(strings: Seq<String>) -> Seq<Seq<char>> {
    Seq::new(strings.len(), |i: int| strings[i]@)
}

/// A verbosity threshold for the application's diagnostic log.
#[derive(Clone, Copy, Debug, PartialEq, Eq, Structural)]
pub enum LoggingLevel {
    Debug,
    Info,
    Warn,
    Error,
    Off,
}

/// Where diagnostic output goes and how much of it is kept.
#[derive(Debug)]
pub struct LoggingConfig {
    /// Path to the log file.
    pub path: String,
    /// Logging level.
    pub level: LoggingLevel,
}

/// The mathematical value of a [`LoggingConfig`].
#[verifier::ext_equal]
pub struct LoggingConfigView {
    pub path: Seq<char>,
    pub level: LoggingLevel,
}

impl View for LoggingConfig {
    type V = LoggingConfigView;

    open spec fn view(&self) -> LoggingConfigView {
        LoggingConfigView { path: self.path@, level: self.level }
    }
}

/// A named shell: the executable that runs a protocol's script, together
/// with the flags its invocations always carry.
#[derive(Debug)]
pub struct ShellConfig {
    /// Name of the shell; the key protocols refer to.
    pub name: String,
    /// Command to execute the shell.
    pub cmd: String,
    /// Arguments for the shell command.
    pub args: Vec<String>,
}

/// The mathematical value of a [`ShellConfig`].
#[verifier::ext_equal]
pub struct ShellConfigView {
    pub name: Seq<char>,
    pub cmd: Seq<char>,
    pub args: Seq<Seq<char>>,
}

impl View for ShellConfig {
    type V = ShellConfigView;

    open spec fn view(&self) -> ShellConfigView {
        ShellConfigView { name: self.name@, cmd: self.cmd@, args: str_views(self.args@) }
    }
}

/// The script a protocol runs: its name and the arguments it is given.
#[derive(Debug)]
pub struct ProtocolScriptConfig {
    pub name: String,
    pub args: Vec<String>,
}

/// The mathematical value of a [`ProtocolScriptConfig`].
#[verifier::ext_equal]
pub struct ProtocolScriptConfigView {
    pub name: Seq<char>,
    pub args: Seq<Seq<char>>,
}

impl View for ProtocolScriptConfig {
    type V = ProtocolScriptConfigView;

    open spec fn view(&self) -> ProtocolScriptConfigView {
        ProtocolScriptConfigView { name: self.name@, args: str_views(self.args@) }
    }
}

/// The shell a protocol runs under: the name of a [`ShellConfig`] and the
/// extra arguments this protocol adds to the shell's own.
#[derive(Debug)]
pub struct ProtocolShellConfig {
    pub name: String,
    pub args: Vec<String>,
}

/// The mathematical value of a [`ProtocolShellConfig`].
#[verifier::ext_equal]
pub struct ProtocolShellConfigView {
    pub name: Seq<char>,
    pub args: Seq<Seq<char>>,
}

impl View for ProtocolShellConfig {
    type V = ProtocolShellConfigView;

    open spec fn view(&self) -> ProtocolShellConfigView {
        ProtocolShellConfigView { name: self.name@, args: str_views(self.args@) }
    }
}

/// A named protocol: the URI scheme it answers to, a description, the script
/// to call, and the shell to call it with.
#[derive(Debug)]
pub struct ProtocolConfig {
    /// Name of the protocol; matches the URI scheme.
    pub name: String,
    /// A short description of the protocol.
    pub desc: String,
    /// The script to call.
    pub script: ProtocolScriptConfig,
    /// The shell to use when calling the script.
    pub shell: ProtocolShellConfig,
}

/// The mathematical value of a [`ProtocolConfig`].
#[verifier::ext_equal]
pub struct ProtocolConfigView {
    pub name: Seq<char>,
    pub desc: Seq<char>,
    pub script: ProtocolScriptConfigView,
    pub shell: ProtocolShellConfigView,
}

impl View for ProtocolConfig {
    type V = ProtocolConfigView;

    open spec fn view(&self) -> ProtocolConfigView {
        ProtocolConfigView {
            name: self.name@,
            desc: self.desc@,
            script: self.script@,
            shell: self.shell@,
        }
    }
}

/// The whole configuration: logging policy, shells, protocols.
#[derive(Debug)]
pub struct Config {
    /// Logging configuration.
    pub logging: LoggingConfig,
    /// List of shell configurations.
    pub shells: Vec<ShellConfig>,
    /// List of protocol configurations.
    pub protocols: Vec<ProtocolConfig>,
}

/// The mathematical value of a [`Config`].
#[verifier::ext_equal]
pub struct ConfigView {
    pub logging: LoggingConfigView,
    pub shells: Seq<ShellConfigView>,
    pub protocols: Seq<ProtocolConfigView>,
}

impl View for Config {
    type V = ConfigView;

    open spec fn view(&self) -> ConfigView {
        ConfigView {
            logging: self.logging@,
            shells: self.shells@.map_values(|s: ShellConfig| s@),
            protocols: self.protocols@.map_values(|p: ProtocolConfig| p@),
        }
    }
}

/// The default logging policy: an `Info`-level log next to the program.
pub open spec fn spec_default_logging() -> LoggingConfigView {
    LoggingConfigView { path: "protocolhandler.log"@, level: LoggingLevel::Info }
}

/// The built-in configuration: two shells, `pwsh` and `python`, and no
/// protocols.
pub open spec fn spec_default_config() -> ConfigView {
    ConfigView {
        logging: spec_default_logging(),
        shells: seq![
            ShellConfigView {
                name: "pwsh"@,
                cmd: "pwsh"@,
                args: seq!["-noProfile"@, "-noLogo"@, "-File"@],
            },
            ShellConfigView { name: "python"@, cmd: "python"@, args: Seq::<Seq<char>>::empty() },
        ],
        protocols: Seq::<ProtocolConfigView>::empty(),
    }
}

impl Default for LoggingConfig {
    fn default() -> (r: Self)
        ensures
            r@ == spec_default_logging(),
    {
        LoggingConfig { path: String::from_str("protocolhandler.log"), level: LoggingLevel::Info }
    }
}

impl Default for ShellConfig {
    fn default() -> (r: Self)
        ensures
            r@.name == Seq::<char>::empty(),
            r@.cmd == Seq::<char>::empty(),
            r@.args == Seq::<Seq<char>>::empty(),
    {
        let r = ShellConfig { name: String::new(), cmd: String::new(), args: Vec::new() };
        proof {
            assert(r@.args =~= Seq::<Seq<char>>::empty());
        }
        r
    }
}

impl Default for ProtocolScriptConfig {
    fn default() -> (r: Self)
        ensures
            r@.name == Seq::<char>::empty(),
            r@.args == Seq::<Seq<char>>::empty(),
    {
        let r = ProtocolScriptConfig { name: String::new(), args: Vec::new() };
        proof {
            assert(r@.args =~= Seq::<Seq<char>>::empty());
        }
        r
    }
}

impl Default for ProtocolShellConfig {
    fn default() -> (r: Self)
        ensures
            r@.name == Seq::<char>::empty(),
            r@.args == Seq::<Seq<char>>::empty(),
    {
        let r = ProtocolShellConfig { name: String::new(), args: Vec::new() };
        proof {
            assert(r@.args =~= Seq::<Seq<char>>::empty());
        }
        r
    }
}

impl Default for ProtocolConfig {
    fn default() -> (r: Self)
        ensures
            r@.name == Seq::<char>::empty(),
            r@.desc == Seq::<char>::empty(),
            r@.script.name == Seq::<char>::empty(),
            r@.script.args == Seq::<Seq<char>>::empty(),
            r@.shell.name == Seq::<char>::empty(),
            r@.shell.args == Seq::<Seq<char>>::empty(),
    {
        ProtocolConfig {
            name: String::new(),
            desc: String::new(),
            script: ProtocolScriptConfig::default(),
            shell: ProtocolShellConfig::default(),
        }
    }
}

impl Default for Config {
    fn default() -> (r: Self)
        ensures
            r@ == spec_default_config(),
    {
        let pwsh = ShellConfig {
            name: String::from_str("pwsh"),
            cmd: String::from_str("pwsh"),
            args: vec![
                String::from_str("-noProfile"),
                String::from_str("-noLogo"),
                String::from_str("-File"),
            ],
        };
        let python = ShellConfig {
            name: String::from_str("python"),
            cmd: String::from_str("python"),
            args: Vec::new(),
        };
        let r = Config {
            logging: LoggingConfig::default(),
            shells: vec![pwsh, python],
            protocols: Vec::new(),
        };
        proof {
            assert(r@ =~~= spec_default_config());
        }
        r
    }
}

/// Where the dispatcher's configuration file sits under a platform base
/// directory: a directory and a file both named after the application, with
/// the `.yml` extension.
pub open spec fn spec_config_file_path(base: Seq<char>) -> Seq<char> {
    base + "/protohandler/protohandler.yml"@
}

impl Config {
    /// The built-in configuration, before any file is loaded.
    pub fn new() -> (r: Self)
        ensures
            r@ == spec_default_config(),
    {
        Config::default()
    }

    /// Returns the directory where the dispatcher's configuration is stored,
    /// or `None` when the platform offers no base directory for it.
    pub fn get_directory(&self) -> (r: Option<String>)
        ensures
            r matches Some(d) ==> exists|base: Seq<char>| d@ == base + "/protohandler"@,
    {
        match base_config_dir() {
            Some(base) => {
                let ghost b0 = base@;
                let mut d = base;
                d.append("/protohandler");
                proof {
                    assert(d@ == b0 + "/protohandler"@);
                }
                Some(d)
            },
            None => None,
        }
    }

    /// Returns the location of the dispatcher's configuration file, a file
    /// named `protohandler.yml` inside [`Config::get_directory`], or `None`
    /// when the platform offers no configuration directory.
    pub fn get_file(&self) -> (r: Option<String>)
        ensures
            r matches Some(f) ==> exists|base: Seq<char>| f@ == spec_config_file_path(base),
    {
        match self.get_directory() {
            Some(dir) => {
                let ghost d0 = dir@;
                let ghost base = choose|b: Seq<char>| d0 == b + "/protohandler"@;
                let mut f = dir;
                f.append("/");
                f.append("protohandler");
                f.append(".yml");
                proof {
                    reveal_strlit("/protohandler");
                    reveal_strlit("/");
                    reveal_strlit("protohandler");
                    reveal_strlit(".yml");
                    reveal_strlit("/protohandler/protohandler.yml");
                    assert(f@ =~= spec_config_file_path(base));
                }
                Some(f)
            },
            None => None,
        }
    }
}

/// Relies on `etcetera::choose_base_strategy` and `BaseStrategy::config_dir`:
/// the platform's configuration directory for the current user, as text.
/// Returns `None` when no such directory can be determined or its path is not
/// unicode. The result depends on the environment, so nothing more is stated.
#[verifier::external_body]
fn base_config_dir() -> (r: Option<String>) {
    match etcetera::choose_base_strategy() {
        Ok(strategy) => match etcetera::BaseStrategy::config_dir(&strategy).to_str() {
            Some(dir) => Some(dir.to_string()),
            None => None,
        },
        Err(_) => None,
    }
}

/// Clones a list of strings element by element, keeping every character.
fn clone_strings(v: &Vec<String>) -> (r: Vec<String>)
    ensures
        str_views(r@) == str_views(v@),
{
    let mut r: Vec<String> = Vec::new();
    let mut i: usize = 0;
    while i < v.len()
        invariant
            i <= v.len(),
            r@.len() == i,
            forall|j: int| 0 <= j < i ==> r@[j]@ == v@[j]@,
        decreases v.len() - i,
    {
        r.push(v[i].clone());
        i += 1;
    }
    proof {
        assert(str_views(r@) =~= str_views(v@));
    }
    r
}

impl Clone for ShellConfig {
    fn clone(&self) -> (r: Self)
        ensures
            r@ == self@,
    {
        let r = ShellConfig {
            name: self.name.clone(),
            cmd: self.cmd.clone(),
            args: clone_strings(&self.args),
        };
        proof {
            assert(r@ =~~= self@);
        }
        r
    }
}

impl Clone for ProtocolScriptConfig {
    fn clone(&self) -> (r: Self)
        ensures
            r@ == self@,
    {
        let r = ProtocolScriptConfig { name: self.name.clone(), args: clone_strings(&self.args) };
        proof {
            assert(r@ =~~= self@);
        }
        r
    }
}

impl Clone for ProtocolShellConfig {
    fn clone(&self) -> (r: Self)
        ensures
            r@ == self@,
    {
        let r = ProtocolShellConfig { name: self.name.clone(), args: clone_strings(&self.args) };
        proof {
            assert(r@ =~~= self@);
        }
        r
    }
}

impl Clone for ProtocolConfig {
    fn clone(&self) -> (r: Self)
        ensures
            r@ == self@,
    {
        let r = ProtocolConfig {
            name: self.name.clone(),
            desc: self.desc.clone(),
            script: self.script.clone(),
            shell: self.shell.clone(),
        };
        proof {
            assert(r@ =~~= self@);
        }
        r
    }
}

} // verus!

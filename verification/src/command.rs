//! The command-resolution pipeline: extracting a scheme token from a URI,
//! mapping it through the configuration to a shell and a script, and building
//! the command line that the surrounding application hands to the operating
//! system.

use vstd::prelude::*;

use crate::config::Config;
use crate::config::ConfigView;
use crate::config::spec_default_config;
use crate::config::ProtocolConfig;
use crate::config::ProtocolConfigView;
use crate::config::ShellConfig;
use crate::config::ShellConfigView;
use crate::config::str_views;
use crate::error::ProtoHandlerError;
use crate::error::ProtoHandlerErrorView;

verus! {

/// Whether `c` may open a scheme: one lowercase ASCII letter.
pub open spec fn is_scheme_first_char(c: char) -> bool {
    97 <= c as u32 <= 122
}

/// Whether `c` may continue a scheme: an ASCII letter, a digit, a hyphen or
/// an underscore.
pub open spec fn is_scheme_char(c: char) -> bool {
    ||| 97 <= c as u32 <= 122
    ||| 65 <= c as u32 <= 90
    ||| 48 <= c as u32 <= 57
    ||| c == '-'
    ||| c == '_'
}

/// Whether `uri` opens with a scheme of length `k`: a lowercase letter, then
/// one or more scheme characters up to position `k`, then the literal
/// separator `://`.
pub open spec fn scheme_end_at(uri: Seq<char>, k: int) -> bool {
    &&& 2 <= k
    &&& k + 3 <= uri.len()
    &&& is_scheme_first_char(uri[0])
    &&& forall|j: int| 1 <= j < k ==> is_scheme_char(#[trigger] uri[j])
    &&& uri[k] == ':'
    &&& uri[k + 1] == '/'
    &&& uri[k + 2] == '/'
}

/// Whether `uri` opens with a recognizable scheme.
pub open spec fn has_scheme(uri: Seq<char>) -> bool {
    exists|k: int| scheme_end_at(uri, k)
}

/// The scheme token at the start of `uri`, separator excluded, or `None`
/// when the start of `uri` is no scheme.
pub open spec fn scheme_of(uri: Seq<char>) -> Option<Seq<char>> {
    if has_scheme(uri) {
        Some(uri.subrange(0, choose|k: int| scheme_end_at(uri, k)))
    } else {
        None
    }
}

/// A scheme ends at one position only: its separator's colon is itself no
/// scheme character, so no longer or shorter token can also end in `://`.
pub proof fn lemma_scheme_end_unique(uri: Seq<char>, k1: int, k2: int)
    requires
        scheme_end_at(uri, k1),
        scheme_end_at(uri, k2),
    ensures
        k1 == k2,
{
    if k1 < k2 {
        assert(is_scheme_char(uri[k1]));
        assert(uri[k1] == ':');
    }
    if k2 < k1 {
        assert(is_scheme_char(uri[k2]));
        assert(uri[k2] == ':');
    }
}

/// When every scheme character from position 1 up to `i` has been read and
/// no scheme ends at `i` itself, no scheme ends anywhere.
proof fn lemma_no_scheme(uri: Seq<char>, i: int)
    requires
        1 <= i <= uri.len(),
        forall|j: int| 1 <= j < i ==> is_scheme_char(#[trigger] uri[j]),
        i < uri.len() ==> !is_scheme_char(uri[i]),
        !scheme_end_at(uri, i),
    ensures
        !has_scheme(uri),
{
    assert forall|k: int| !scheme_end_at(uri, k) by {
        if scheme_end_at(uri, k) {
            if k < i {
                assert(is_scheme_char(uri[k]));
                assert(uri[k] == ':');
            } else if k > i {
                assert(is_scheme_char(uri[i]));
            }
        }
    }
}

/// Whether `c` may open a scheme, decided executably.
fn scheme_first_char(c: char) -> (r: bool)
    ensures
        r == is_scheme_first_char(c),
{
    let u = c as u32;
    97 <= u && u <= 122
}

/// Whether `c` may continue a scheme, decided executably.
fn scheme_char(c: char) -> (r: bool)
    ensures
        r == is_scheme_char(c),
{
    let u = c as u32;
    (97 <= u && u <= 122) || (65 <= u && u <= 90) || (48 <= u && u <= 57) || u == 45 || u == 95
}

/// Extracts the scheme from the given URI.
///
/// Scans the start of the URI for one lowercase ASCII letter, one or more
/// ASCII letters, digits, hyphens or underscores, and the separator `://`,
/// and returns the token before the separator. A URI that opens in any other
/// way — an uppercase first letter, an empty string, a scheme anywhere but at
/// the very start — yields `None`.
pub fn get_protocol(uri: &String) -> (r: Option<String>)
    ensures
        match r {
            Some(p) => scheme_of(uri@) == Some(p@),
            None => scheme_of(uri@) is None,
        },
        !has_scheme(uri@) ==> r is None,
{
    let s = uri.as_str();
    let n = s.unicode_len();
    if n == 0 {
        return None;
    }
    if !scheme_first_char(s.get_char(0)) {
        return None;
    }
    let mut i: usize = 1;
    while i < n
        invariant
            1 <= i <= n,
            n == uri@.len(),
            s@ == uri@,
            is_scheme_first_char(uri@[0]),
            forall|j: int| 1 <= j < i ==> is_scheme_char(#[trigger] uri@[j]),
        decreases n - i,
    {
        let c = s.get_char(i);
        if scheme_char(c) {
            i += 1;
        } else {
            if i >= 2 && n - i >= 3 && c == ':' && s.get_char(i + 1) == '/' && s.get_char(i + 2)
                == '/' {
                proof {
                    assert(scheme_end_at(uri@, i as int));
                    let k = choose|k: int| scheme_end_at(uri@, k);
                    lemma_scheme_end_unique(uri@, k, i as int);
                }
                let p = s.substring_char(0, i);
                return Some(p.to_owned());
            } else {
                proof {
                    lemma_no_scheme(uri@, i as int);
                }
                return None;
            }
        }
    }
    proof {
        lemma_no_scheme(uri@, n as int);
    }
    None
}

/// The first protocol of the list whose name is `name`, or `None` when no
/// protocol carries that name. Duplicates are not rejected; the earliest
/// entry wins.
pub open spec fn spec_find_protocol(
    protocols: Seq<ProtocolConfigView>,
    name: Seq<char>,
) -> Option<ProtocolConfigView>
    decreases protocols.len(),
{
    if protocols.len() == 0 {
        None
    } else if protocols[0].name == name {
        Some(protocols[0])
    } else {
        spec_find_protocol(protocols.drop_first(), name)
    }
}

/// The first shell of the list whose name is `name`, or `None` when no shell
/// carries that name.
pub open spec fn spec_find_shell(
    shells: Seq<ShellConfigView>,
    name: Seq<char>,
) -> Option<ShellConfigView>
    decreases shells.len(),
{
    if shells.len() == 0 {
        None
    } else if shells[0].name == name {
        Some(shells[0])
    } else {
        spec_find_shell(shells.drop_first(), name)
    }
}

proof fn lemma_find_protocol_at(protocols: Seq<ProtocolConfigView>, name: Seq<char>, i: int)
    requires
        0 <= i < protocols.len(),
        forall|j: int| 0 <= j < i ==> #[trigger] protocols[j].name != name,
        protocols[i].name == name,
    ensures
        spec_find_protocol(protocols, name) == Some(protocols[i]),
    decreases i,
{
    if i > 0 {
        lemma_find_protocol_at(protocols.drop_first(), name, i - 1);
    }
}

proof fn lemma_find_protocol_absent(protocols: Seq<ProtocolConfigView>, name: Seq<char>)
    requires
        forall|j: int| 0 <= j < protocols.len() ==> #[trigger] protocols[j].name != name,
    ensures
        spec_find_protocol(protocols, name) is None,
    decreases protocols.len(),
{
    if protocols.len() > 0 {
        lemma_find_protocol_absent(protocols.drop_first(), name);
    }
}

proof fn lemma_find_shell_at(shells: Seq<ShellConfigView>, name: Seq<char>, i: int)
    requires
        0 <= i < shells.len(),
        forall|j: int| 0 <= j < i ==> #[trigger] shells[j].name != name,
        shells[i].name == name,
    ensures
        spec_find_shell(shells, name) == Some(shells[i]),
    decreases i,
{
    if i > 0 {
        lemma_find_shell_at(shells.drop_first(), name, i - 1);
    }
}

proof fn lemma_find_shell_absent(shells: Seq<ShellConfigView>, name: Seq<char>)
    requires
        forall|j: int| 0 <= j < shells.len() ==> #[trigger] shells[j].name != name,
    ensures
        spec_find_shell(shells, name) is None,
    decreases shells.len(),
{
    if shells.len() > 0 {
        lemma_find_shell_absent(shells.drop_first(), name);
    }
}

/// Looks up the protocol configuration of the given name.
///
/// Returns a copy of the first entry of `config.protocols` named `proto`,
/// or `None` when no entry carries that name.
pub fn lookup_protocol(proto: &String, config: &Config) -> (r: Option<ProtocolConfig>)
    ensures
        match r {
            Some(p) => spec_find_protocol(config@.protocols, proto@) == Some(p@),
            None => spec_find_protocol(config@.protocols, proto@) is None,
        },
{
    let n = config.protocols.len();
    let mut i: usize = 0;
    while i < n
        invariant
            i <= n,
            n == config.protocols.len(),
            forall|j: int| 0 <= j < i ==> #[trigger] config@.protocols[j].name != proto@,
        decreases n - i,
    {
        if config.protocols[i].name == *proto {
            proof {
                lemma_find_protocol_at(config@.protocols, proto@, i as int);
            }
            return Some(config.protocols[i].clone());
        }
        i += 1;
    }
    proof {
        lemma_find_protocol_absent(config@.protocols, proto@);
    }
    None
}

/// Looks up the shell configuration of the given name.
///
/// Returns a copy of the first entry of `config.shells` named `name`, or
/// `None` when no entry carries that name.
pub fn lookup_shell(name: &String, config: &Config) -> (r: Option<ShellConfig>)
    ensures
        match r {
            Some(s) => spec_find_shell(config@.shells, name@) == Some(s@),
            None => spec_find_shell(config@.shells, name@) is None,
        },
{
    let n = config.shells.len();
    let mut i: usize = 0;
    while i < n
        invariant
            i <= n,
            n == config.shells.len(),
            forall|j: int| 0 <= j < i ==> #[trigger] config@.shells[j].name != name@,
        decreases n - i,
    {
        if config.shells[i].name == *name {
            proof {
                lemma_find_shell_at(config@.shells, name@, i as int);
            }
            return Some(config.shells[i].clone());
        }
        i += 1;
    }
    proof {
        lemma_find_shell_absent(config@.shells, name@);
    }
    None
}

/// A ready-to-execute command: a program and its ordered argument list.
/// Built fresh per resolution and never persisted.
#[derive(Debug)]
pub struct CommandDescriptor {
    /// The executable to spawn.
    pub program: String,
    /// The arguments, in the order they are passed.
    pub args: Vec<String>,
}

/// The mathematical value of a [`CommandDescriptor`].
#[verifier::ext_equal]
pub struct CommandDescriptorView {
    pub program: Seq<char>,
    pub args: Seq<Seq<char>>,
}

impl View for CommandDescriptor {
    type V = CommandDescriptorView;

    open spec fn view(&self) -> CommandDescriptorView {
        CommandDescriptorView { program: self.program@, args: str_views(self.args@) }
    }
}

/// `s` wrapped in one literal double quote on each side.
pub open spec fn quoted(s: Seq<char>) -> Seq<char> {
    seq!['"'] + s + seq!['"']
}

/// The command a shell and a protocol entry resolve to: the shell's command
/// as the program, then the shell's own arguments, the protocol's extra
/// shell arguments, the script name, the script's arguments, and finally the
/// URI wrapped in double quotes.
pub open spec fn spec_command(
    shell: ShellConfigView,
    protocol: ProtocolConfigView,
    uri: Seq<char>,
) -> CommandDescriptorView {
    CommandDescriptorView {
        program: shell.cmd,
        args: shell.args + protocol.shell.args + seq![protocol.script.name] + protocol.script.args
            + seq![quoted(uri)],
    }
}

/// What resolving `uri` against `config` yields: the fully formed command,
/// or the first failure — no scheme, an unconfigured protocol, or an
/// unconfigured shell — in that order.
pub open spec fn spec_resolve(uri: Seq<char>, config: ConfigView) -> Result<
    CommandDescriptorView,
    ProtoHandlerErrorView,
> {
    match scheme_of(uri) {
        Option::None => Err(ProtoHandlerErrorView::UriParseError { uri }),
        Option::Some(proto) => match spec_find_protocol(config.protocols, proto) {
            Option::None => Err(ProtoHandlerErrorView::ProtocolNotConfigured { proto }),
            Option::Some(protocol) => match spec_find_shell(config.shells, protocol.shell.name) {
                Option::None => Err(
                    ProtoHandlerErrorView::ShellNotConfigured { sh: protocol.shell.name },
                ),
                Option::Some(shell) => Ok(spec_command(shell, protocol, uri)),
            },
        },
    }
}

/// The views of a resolution result, outcome by outcome.
pub open spec fn resolution_view(r: Result<CommandDescriptor, ProtoHandlerError>) -> Result<
    CommandDescriptorView,
    ProtoHandlerErrorView,
> {
    match r {
        Ok(d) => Ok(d@),
        Err(e) => Err(e@),
    }
}

/// Builds a command from the given URI and configuration.
///
/// Extracts the scheme, looks up the protocol of that name, looks up the
/// shell that protocol asks for, and assembles the program and argument
/// list, with the URI — wrapped in double quotes — as the final argument.
/// Fails with `UriParseError` when the URI opens with no scheme, with
/// `ProtocolNotConfigured` when no protocol matches the scheme, and with
/// `ShellNotConfigured` when the protocol names an absent shell.
pub fn build_command(uri: String, config: Config) -> (r: Result<
    CommandDescriptor,
    ProtoHandlerError,
>)
    ensures
        resolution_view(r) == spec_resolve(uri@, config@),
{
    let proto = match get_protocol(&uri) {
        Some(p) => p,
        None => {
            return Err(ProtoHandlerError::UriParseError { uri });
        },
    };
    let protocol_config = match lookup_protocol(&proto, &config) {
        Some(p) => p,
        None => {
            return Err(ProtoHandlerError::ProtocolNotConfigured { proto });
        },
    };
    let ghost protocol_v = protocol_config@;
    let shell_config = match lookup_shell(&protocol_config.shell.name, &config) {
        Some(s) => s,
        None => {
            return Err(ProtoHandlerError::ShellNotConfigured { sh: protocol_config.shell.name });
        },
    };
    let ghost shell_v = shell_config@;

    let program = shell_config.cmd;
    let mut commandline: Vec<String> = Vec::new();
    let mut shell_args = shell_config.args;
    commandline.append(&mut shell_args);
    proof {
        assert(str_views(commandline@) =~= shell_v.args);
    }
    let mut extra_args = protocol_config.shell.args;
    commandline.append(&mut extra_args);
    proof {
        assert(str_views(commandline@) =~= shell_v.args + protocol_v.shell.args);
    }
    commandline.push(protocol_config.script.name);
    proof {
        assert(str_views(commandline@) =~= shell_v.args + protocol_v.shell.args + seq![
            protocol_v.script.name,
        ]);
    }
    let mut script_args = protocol_config.script.args;
    commandline.append(&mut script_args);
    proof {
        assert(str_views(commandline@) =~= shell_v.args + protocol_v.shell.args + seq![
            protocol_v.script.name,
        ] + protocol_v.script.args);
    }

    let mut quoted_uri = String::from_str("\"");
    quoted_uri.append(uri.as_str());
    quoted_uri.append("\"");
    proof {
        reveal_strlit("\"");
        assert(quoted_uri@ =~= quoted(uri@));
    }
    commandline.push(quoted_uri);

    let descriptor = CommandDescriptor { program, args: commandline };
    proof {
        assert(descriptor@ =~~= spec_command(shell_v, protocol_v, uri@));
    }
    Ok(descriptor)
}

/// Law: a URI whose scheme matches no configured protocol name resolves to
/// `ProtocolNotConfigured`, whatever else the configuration holds.
pub proof fn lemma_unknown_protocol_rejected(uri: Seq<char>, config: ConfigView, name: Seq<char>)
    requires
        scheme_of(uri) == Some(name),
        forall|j: int|
            0 <= j < config.protocols.len() ==> #[trigger] config.protocols[j].name != name,
    ensures
        spec_resolve(uri, config) == Err::<CommandDescriptorView, _>(
            ProtoHandlerErrorView::ProtocolNotConfigured { proto: name },
        ),
{
    lemma_find_protocol_absent(config.protocols, name);
}

/// Law: when the protocol a URI resolves to names a shell that is absent
/// from the shell list, resolution yields `ShellNotConfigured` with that
/// shell's name.
pub proof fn lemma_unknown_shell_rejected(
    uri: Seq<char>,
    config: ConfigView,
    name: Seq<char>,
    protocol: ProtocolConfigView,
)
    requires
        scheme_of(uri) == Some(name),
        spec_find_protocol(config.protocols, name) == Some(protocol),
        forall|j: int|
            0 <= j < config.shells.len() ==> #[trigger] config.shells[j].name
                != protocol.shell.name,
    ensures
        spec_resolve(uri, config) == Err::<CommandDescriptorView, _>(
            ProtoHandlerErrorView::ShellNotConfigured { sh: protocol.shell.name },
        ),
{
    lemma_find_shell_absent(config.shells, protocol.shell.name);
}

/// Law: resolution is a function of the URI and configuration values alone.
/// Any two outcomes that [`build_command`] may return for one URI and one
/// configuration are identical — there is no hidden state.
pub proof fn lemma_resolution_idempotent(
    r1: Result<CommandDescriptor, ProtoHandlerError>,
    r2: Result<CommandDescriptor, ProtoHandlerError>,
    uri: Seq<char>,
    config: ConfigView,
)
    requires
        resolution_view(r1) == spec_resolve(uri, config),
        resolution_view(r2) == spec_resolve(uri, config),
    ensures
        resolution_view(r1) == resolution_view(r2),
{
}

/// Law: the built-in configuration holds no protocols, so any URI with a
/// recognizable scheme resolves against it to `ProtocolNotConfigured`.
pub proof fn lemma_default_config_rejects_all(uri: Seq<char>, name: Seq<char>)
    requires
        scheme_of(uri) == Some(name),
    ensures
        spec_resolve(uri, spec_default_config()) == Err::<CommandDescriptorView, _>(
            ProtoHandlerErrorView::ProtocolNotConfigured { proto: name },
        ),
{
}

/// The reported end of a launched child process: clean success, a nonzero
/// exit code, or termination without a code (by a signal, on platforms that
/// deliver them).
#[derive(Clone, Copy, Debug, PartialEq, Eq, Structural)]
pub enum ExitOutcome {
    Success,
    Code { code: i32 },
    Signal,
}

/// The outcome a wait's report classifies to: `Success` for a zero exit
/// code, `Code` for any other, `Signal` when the process ended without one.
pub open spec fn spec_exit_outcome(code: Option<i32>) -> ExitOutcome {
    match code {
        Option::Some(c) => if c == 0 {
            ExitOutcome::Success
        } else {
            ExitOutcome::Code { code: c }
        },
        Option::None => ExitOutcome::Signal,
    }
}

/// Classifies what a wait on a child process reported. `code` is the exit
/// code the operating system handed back, or `None` when the process ended
/// without one.
pub fn classify_exit(code: Option<i32>) -> (r: ExitOutcome)
    ensures
        r == spec_exit_outcome(code),
{
    match code {
        Some(c) => {
            if c == 0 {
                ExitOutcome::Success
            } else {
                ExitOutcome::Code { code: c }
            }
        },
        None => ExitOutcome::Signal,
    }
}

} // verus!

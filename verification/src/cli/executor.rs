//! The installation steps. Each is a command, or a few, laid out for a
//! privilege context; none of them is launched here.

use crate::cli::orchestrator::Orchestrator;
use crate::cli::orchestrator::Run;
use crate::cli::orchestrator::RunState;
use crate::cli::orchestrator::fresh;
use crate::cli::orchestrator::given_up;
use crate::cli::orchestrator::os_checked;
use crate::cli::orchestrator::prepared;
use crate::cli::privilege::Context;
use crate::cli::privilege::PrivilegeContext;
use crate::cli::privilege::is_username_char;
use crate::cli::privilege::resolved;
use crate::cli::privilege::signal_text;
use crate::cli::privilege::valid_username;
use crate::error::Failure;
use crate::error::ProcessError;
use crate::utils::cmd_builder::CommandBuilder;
use crate::utils::cmd_builder::CommandSpec;
use crate::utils::cmd_builder::LaunchReport;
use crate::utils::cmd_builder::Observation;
use crate::utils::cmd_builder::succeeded;
use crate::utils::cmd_builder::texts;
use crate::utils::json::json_document;
use crate::utils::json::manifest_of;
use crate::utils::json::parse_extensions;
use crate::utils::text::law_single_quoted_reads_back;
use crate::utils::text::lemma_octal_round_trip;
use crate::utils::text::octal_bytes;
use crate::utils::text::octal_encode;
use crate::utils::text::octal_text;
use crate::utils::text::shell_reads;
use crate::utils::text::single_quote;
use crate::utils::text::single_quoted;
use vstd::prelude::*;
use vstd::string::*;

verus! {

/// Fetches the pinned installer of the Node version manager and runs it.
pub const NVM_INSTALL: &'static str =
    "curl -o- https://raw.githubusercontent.com/nvm-sh/nvm/v0.40.3/install.sh | bash";

/// Loads the version manager and lets it install Node.js.
pub const NODE_INSTALL: &'static str = ". \"$HOME/.nvm/nvm.sh\" && nvm install 24";

/// Fetches the installer of the Rust toolchain and runs it without questions.
pub const RUST_INSTALL: &'static str =
    "curl --proto '=https' --tlsv1.2 -sSf https://sh.rustup.rs | sh -s -- -y";

/// Asks the version manager for its version and discards the answer.
pub const NVM_PROBE: &'static str = ". ~/.nvm/nvm.sh && nvm --version > /dev/null 2>&1";

/// Asks cargo for its version and discards the answer.
pub const RUST_PROBE: &'static str = "cargo --version > /dev/null 2>&1";

/// Stores the signing key of the editor's package repository.
pub const EDITOR_KEY: &'static str =
    "wget -qO- https://packages.microsoft.com/keys/microsoft.asc | gpg --dearmor > /usr/share/keyrings/packages.microsoft.gpg";

/// Adds the editor's package repository as a source and reads its index.
pub const EDITOR_SOURCE: &'static str =
    "echo 'deb [arch=amd64,arm64,armhf signed-by=/usr/share/keyrings/packages.microsoft.gpg] https://packages.microsoft.com/repos/code stable main' > /etc/apt/sources.list.d/vscode.list && apt update";

/// The command with nothing set but its program and arguments.
pub open spec fn plain(program: Seq<char>, args: Seq<Seq<char>>) -> CommandSpec {
    CommandSpec { program, args, env: None, working_dir: None, timeout: None }
}

/// `bash -c <script>`: the script is one argument, read by that shell alone.
pub open spec fn shell(script: Seq<char>) -> CommandSpec {
    plain("bash"@, seq!["-c"@, script])
}

/// `bash -l -c <script>`: as [`shell`], in a login shell, so that what the
/// user's profile sets up is there.
pub open spec fn login_shell(script: Seq<char>) -> CommandSpec {
    plain("bash"@, seq!["-l"@, "-c"@, script])
}

/// The shell line that runs `script` in a login shell of `user`: the name as
/// it is, the script as one single-quoted word.
pub open spec fn elevated_line(user: Seq<char>, script: Seq<char>) -> Seq<char> {
    "sudo -u "@ + user + " -i bash -c "@ + single_quoted(script)
}

/// The command that runs `script` in the context `ctx`: as it is for the
/// invoking user, wrapped into a login session of the login user when
/// elevated.
pub open spec fn scoped(ctx: Context, script: Seq<char>) -> CommandSpec {
    match ctx {
        Context::Direct => shell(script),
        Context::Elevated(user) => shell(elevated_line(user, script)),
    }
}

/// The command that probes with `script` in the context `ctx`, through a
/// login shell either way.
pub open spec fn probing(ctx: Context, script: Seq<char>) -> CommandSpec {
    match ctx {
        Context::Direct => login_shell(script),
        Context::Elevated(user) => shell(elevated_line(user, script)),
    }
}

/// The command that installs the editor extension `id` for the user of `ctx`.
/// The identifier is an argument of its own in both cases.
pub open spec fn extension_install(ctx: Context, id: Seq<char>) -> CommandSpec {
    match ctx {
        Context::Direct => plain("code"@, seq!["--install-extension"@, id]),
        Context::Elevated(user) => plain(
            "sudo"@,
            seq!["-u"@, user, "-i"@, "code"@, "--install-extension"@, id],
        ),
    }
}

/// What stands before the octal text in the script that writes the settings.
pub const SETTINGS_HEAD: &'static str = "mkdir -p ~/.config/Code/User && printf \"";

/// What stands after the octal text in the script that writes the settings.
pub const SETTINGS_TAIL: &'static str = "\" > ~/.config/Code/User/settings.json";

/// The script that writes `document` to the editor's settings file, byte for
/// byte: the bytes stand in it as octal escapes for `printf`.
pub open spec fn settings_script(document: Seq<u8>) -> Seq<char> {
    SETTINGS_HEAD@ + octal_text(document) + SETTINGS_TAIL@
}

/// The commands of `v`, each by its content.
pub open spec fn commands(v: Seq<CommandBuilder>) -> Seq<CommandSpec> {
    v.map_values(|c: CommandBuilder| c@)
}

fn elevated(user: &str, script: &str) -> (line: String)
    ensures
        line@ == elevated_line(user@, script@),
{
    let quoted = single_quote(script);
    "sudo -u ".to_string().concat(user).concat(" -i bash -c ").concat(quoted.as_str())
}

fn run_shell(script: &str) -> (cmd: CommandBuilder)
    ensures
        cmd@ == shell(script@),
{
    let cmd = CommandBuilder::new("bash").arg("-c").arg(script);
    assert(cmd@.args =~= seq!["-c"@, script@]);
    cmd
}

/// The command that runs `script` in the context `ctx`. For the invoking user
/// it is `bash -c <script>`; when elevated, the same script runs in a login
/// session of the login user, whose validated name is the only thing
/// placed unquoted in the line.
pub fn in_context(ctx: &PrivilegeContext, script: &str) -> (cmd: CommandBuilder)
    ensures
        cmd@ == scoped(ctx@, script@),
{
    match ctx {
        PrivilegeContext::Direct => run_shell(script),
        PrivilegeContext::Elevated(user) => {
            let line = elevated(user.as_str(), script);
            run_shell(line.as_str())
        },
    }
}

/// Installs the Node version manager for the user of `ctx`.
pub fn install_nvm(ctx: &PrivilegeContext) -> (cmd: CommandBuilder)
    ensures
        cmd@ == scoped(ctx@, NVM_INSTALL@),
{
    in_context(ctx, NVM_INSTALL)
}

/// Installs Node.js through the version manager, for the user of `ctx`.
pub fn install_nodejs_with_nvm(ctx: &PrivilegeContext) -> (cmd: CommandBuilder)
    ensures
        cmd@ == scoped(ctx@, NODE_INSTALL@),
{
    in_context(ctx, NODE_INSTALL)
}

/// Installs the Rust toolchain for the user of `ctx`.
pub fn install_rust(ctx: &PrivilegeContext) -> (cmd: CommandBuilder)
    ensures
        cmd@ == scoped(ctx@, RUST_INSTALL@),
{
    in_context(ctx, RUST_INSTALL)
}

/// What [`install_vscode`] hands out.
pub open spec fn editor_bootstrap() -> Seq<CommandSpec> {
    seq![
        shell(EDITOR_KEY@),
        shell(EDITOR_SOURCE@),
        plain("apt"@, seq!["install"@, "-y"@, "code"@]),
    ]
}

/// Installs the editor: the signing key of its package repository, the
/// repository as a source, then the package. All three run with the
/// privilege of the process, never as the login user.
pub fn install_vscode() -> (cmds: Vec<CommandBuilder>)
    ensures
        commands(cmds@) == editor_bootstrap(),
{
    let cmds = vec![
        run_shell(EDITOR_KEY),
        run_shell(EDITOR_SOURCE),
        CommandBuilder::apt_install("code"),
    ];
    assert(commands(cmds@) =~= editor_bootstrap());
    cmds
}

/// A tool whose installation is probed after the step that installs it.
#[derive(Debug, Clone, Copy, PartialEq, Eq, Structural)]
pub enum ToolId {
    /// The Node version manager.
    Nvm,
    /// The Rust toolchain.
    Rust,
}

/// The script that probes `tool`.
pub open spec fn probe_script(tool: ToolId) -> Seq<char> {
    match tool {
        ToolId::Nvm => NVM_PROBE@,
        ToolId::Rust => RUST_PROBE@,
    }
}

/// The one message with which a failed probe of `tool` is reported.
pub open spec fn probe_failure(tool: ToolId) -> Seq<char> {
    match tool {
        ToolId::Nvm => "NVM installation validation failed"@,
        ToolId::Rust => "Rust installation validation failed"@,
    }
}

/// What a probe of `tool` comes to, given what the launcher saw of it: it
/// passes where the process exited with 0, and fails with the one message of
/// the tool in every other case.
pub open spec fn probe_verdict(tool: ToolId, report: Observation) -> Result<(), Failure> {
    if succeeded(report) {
        Ok(())
    } else {
        Err(Failure::Validation { message: probe_failure(tool) })
    }
}

fn run_login_shell(script: &str) -> (cmd: CommandBuilder)
    ensures
        cmd@ == login_shell(script@),
{
    let cmd = CommandBuilder::new("bash").arg("-l").arg("-c").arg(script);
    assert(cmd@.args =~= seq!["-l"@, "-c"@, script@]);
    cmd
}

/// The command that probes `tool` for the user of `ctx`. It runs through a
/// login shell, changes nothing and discards what the tool prints.
pub fn validation_probe(tool: ToolId, ctx: &PrivilegeContext) -> (cmd: CommandBuilder)
    ensures
        cmd@ == probing(ctx@, probe_script(tool)),
{
    let script = match tool {
        ToolId::Nvm => NVM_PROBE,
        ToolId::Rust => RUST_PROBE,
    };
    match ctx {
        PrivilegeContext::Direct => run_login_shell(script),
        PrivilegeContext::Elevated(user) => {
            let line = elevated(user.as_str(), script);
            run_shell(line.as_str())
        },
    }
}

/// The probe of the Rust toolchain for the user of `ctx`.
pub fn validate_rust_installation(ctx: &PrivilegeContext) -> (cmd: CommandBuilder)
    ensures
        cmd@ == probing(ctx@, RUST_PROBE@),
{
    validation_probe(ToolId::Rust, ctx)
}

/// The probe of the Node version manager for the user of `ctx`.
pub fn validate_nvm_installation(ctx: &PrivilegeContext) -> (cmd: CommandBuilder)
    ensures
        cmd@ == probing(ctx@, NVM_PROBE@),
{
    validation_probe(ToolId::Nvm, ctx)
}

/// Settles a probe of `tool` from what the launcher saw of it. The answer is
/// pass or fail: whatever went wrong, the error is the one fixed message of
/// the tool, and the cause is dropped.
pub fn validate(tool: ToolId, report: &LaunchReport) -> (r: Result<(), ProcessError>)
    ensures
        match r {
            Ok(_) => probe_verdict(tool, report@) == Ok::<(), Failure>(()),
            Err(e) => probe_verdict(tool, report@) == Err::<(), Failure>(e@),
        },
{
    let passed = match report {
        LaunchReport::Exited(out) => match out.status {
            Some(0) => true,
            _ => false,
        },
        _ => false,
    };
    if passed {
        Ok(())
    } else {
        let message = match tool {
            ToolId::Nvm => "NVM installation validation failed".to_string(),
            ToolId::Rust => "Rust installation validation failed".to_string(),
        };
        Err(ProcessError::Validation { message })
    }
}

/// The system packages that the run installs first, in this order.
pub open spec fn system_packages() -> Seq<Seq<char>> {
    seq!["curl"@, "git"@, "npm"@, "wget"@, "gpg"@, "apt-transport-https"@]
}

/// `apt install -y <package>`.
pub open spec fn apt_install(package: Seq<char>) -> CommandSpec {
    plain("apt"@, seq!["install"@, "-y"@, package])
}

/// Installs the system packages, one command each, with the privilege of the
/// process.
pub fn install_system_packages() -> (cmds: Vec<CommandBuilder>)
    ensures
        commands(cmds@) == system_packages().map_values(|p: Seq<char>| apt_install(p)),
{
    let cmds = vec![
        CommandBuilder::apt_install("curl"),
        CommandBuilder::apt_install("git"),
        CommandBuilder::apt_install("npm"),
        CommandBuilder::apt_install("wget"),
        CommandBuilder::apt_install("gpg"),
        CommandBuilder::apt_install("apt-transport-https"),
    ];
    assert(commands(cmds@) =~= system_packages().map_values(|p: Seq<char>| apt_install(p)));
    cmds
}

/// What configuring the editor takes: one installation per extension, in the
/// order of the list, then the writing of the settings.
pub open spec fn editor_configuration(
    ctx: Context,
    ids: Seq<Seq<char>>,
    document: Seq<u8>,
) -> Seq<CommandSpec> {
    ids.map_values(|id: Seq<char>| extension_install(ctx, id)).push(
        scoped(ctx, settings_script(document)),
    )
}

fn install_extension(ctx: &PrivilegeContext, id: &str) -> (cmd: CommandBuilder)
    ensures
        cmd@ == extension_install(ctx@, id@),
{
    match ctx {
        PrivilegeContext::Direct => {
            let cmd = CommandBuilder::new("code").arg("--install-extension").arg(id);
            assert(cmd@.args =~= seq!["--install-extension"@, id@]);
            cmd
        },
        PrivilegeContext::Elevated(user) => {
            let cmd = CommandBuilder::new("sudo").arg("-u").arg(user.as_str()).arg("-i").arg(
                "code",
            ).arg("--install-extension").arg(id);
            assert(cmd@.args =~= seq![
                "-u"@,
                user@,
                "-i"@,
                "code"@,
                "--install-extension"@,
                id@,
            ]);
            cmd
        },
    }
}

/// The commands that configure the editor for the user of `ctx`: each of
/// `extensions` is installed by a command of its own, in order, and then
/// `settings` is written to the settings file, byte for byte.
pub fn editor_commands(ctx: &PrivilegeContext, extensions: &Vec<String>, settings: &str) -> (cmds:
    Vec<CommandBuilder>)
    ensures
        commands(cmds@) == editor_configuration(ctx@, texts(extensions@), settings.spec_bytes()),
{
    let mut cmds: Vec<CommandBuilder> = Vec::new();
    let mut at: usize = 0;
    let ghost ids = texts(extensions@);
    assert(commands(cmds@) =~= ids.take(0).map_values(|id: Seq<char>| extension_install(ctx@, id)));
    while at < extensions.len()
        invariant
            at <= extensions.len(),
            ids == texts(extensions@),
            commands(cmds@) == ids.take(at as int).map_values(
                |id: Seq<char>| extension_install(ctx@, id),
            ),
        decreases extensions.len() - at,
    {
        let ghost before = cmds@;
        let cmd = install_extension(ctx, extensions[at].as_str());
        cmds.push(cmd);
        assert(commands(cmds@) =~= ids.take(at + 1).map_values(
            |id: Seq<char>| extension_install(ctx@, id),
        )) by {
            assert(commands(cmds@) =~= commands(before).push(cmd@));
            assert(ids[at as int] == extensions@[at as int]@);
        }
        at += 1;
    }
    assert(ids.take(ids.len() as int) == ids);
    let ghost installs = cmds@;
    let escaped = octal_encode(settings.as_bytes());
    let script = SETTINGS_HEAD.to_string().concat(escaped.as_str()).concat(SETTINGS_TAIL);
    let write = in_context(ctx, script.as_str());
    cmds.push(write);
    assert(commands(cmds@) =~= commands(installs).push(write@));
    cmds
}

/// What [`configure_vscode`] comes to for a manifest that parsed to `tree`.
pub open spec fn configured(ctx: Context, tree: crate::utils::json::JsonTree, document: Seq<u8>)
    -> Result<Seq<CommandSpec>, Failure> {
    match manifest_of(tree) {
        Ok(ids) => Ok(editor_configuration(ctx, ids, document)),
        Err(e) => Err(e),
    }
}

/// Reads the extension manifest `extensions_json` and hands out the commands
/// that configure the editor for the user of `ctx`: see [`editor_commands`].
/// A manifest that is no JSON document, or lacks the list, is an error, and
/// no command is handed out.
pub fn configure_vscode(ctx: &PrivilegeContext, extensions_json: &str, settings_json: &str) -> (r:
    Result<Vec<CommandBuilder>, ProcessError>)
    ensures
        match json_document(extensions_json@) {
            Some(tree) => match r {
                Ok(cmds) => configured(ctx@, tree, settings_json.spec_bytes()) == Ok::<
                    Seq<CommandSpec>,
                    Failure,
                >(commands(cmds@)),
                Err(e) => configured(ctx@, tree, settings_json.spec_bytes()) == Err::<
                    Seq<CommandSpec>,
                    Failure,
                >(e@),
            },
            None => r matches Err(e) && e@ is Json,
        },
{
    match parse_extensions(extensions_json) {
        Ok(ids) => Ok(editor_commands(ctx, &ids, settings_json)),
        Err(e) => Err(e),
    }
}

/// The run as it stands once the system was detected as `os` and the inputs
/// were read, for a manifest that parsed to `tree`.
pub open spec fn started(
    os: Seq<char>,
    signal: Option<Seq<char>>,
    tree: crate::utils::json::JsonTree,
    document: Seq<u8>,
) -> Run {
    prepared(os_checked(fresh(), os), signal, tree, document)
}

/// Starts a run from what was read at startup: the detected operating
/// system, the elevation signal, the extension manifest and the settings
/// document. The run is given up at once, with no command due, where the
/// system is not the supported one, the signal names no valid user, or the
/// manifest is refused; else its first command is due.
pub fn execute_ubuntu(
    os: &str,
    sudo_user: Option<&str>,
    extensions_json: &str,
    settings_json: &str,
) -> (run: Orchestrator)
    ensures
        match json_document(extensions_json@) {
            Some(tree) => run@ == started(
                os@,
                signal_text(sudo_user),
                tree,
                settings_json.spec_bytes(),
            ),
            None => {
                let checked = os_checked(fresh(), os@);
                if checked.state != RunState::OsChecked {
                    run@ == checked
                } else {
                    match resolved(signal_text(sudo_user)) {
                        Err(e) => run@ == given_up(checked, e),
                        Ok(_) => exists|e: serde_json::Error|
                            run@ == given_up(checked, Failure::Json(e)),
                    }
                }
            },
        },
{
    Orchestrator::new().check_os(os).prepare(sudo_user, extensions_json, settings_json)
}

/// The settings are written last and byte for byte: the last command of the
/// editor's configuration runs the script that holds the document as octal
/// text, and that text reads back as the very bytes of the document.
pub proof fn law_settings_written_verbatim(ctx: Context, ids: Seq<Seq<char>>, document: Seq<u8>)
    ensures
        editor_configuration(ctx, ids, document).last() == scoped(
            ctx,
            SETTINGS_HEAD@ + octal_text(document) + SETTINGS_TAIL@,
        ),
        octal_bytes(octal_text(document)) == Some(document),
{
    lemma_octal_round_trip(document);
}

/// The extensions are installed in the order of the list, each by a command
/// of its own that holds its identifier as one argument, unchanged.
pub proof fn law_extensions_in_order(ctx: Context, ids: Seq<Seq<char>>, document: Seq<u8>)
    ensures
        editor_configuration(ctx, ids, document).len() == ids.len() + 1,
        forall|i: int|
            0 <= i < ids.len() ==> {
                let cmd = #[trigger] editor_configuration(ctx, ids, document)[i];
                &&& cmd == extension_install(ctx, ids[i])
                &&& cmd.args.last() == ids[i]
            },
{
}

/// The line that runs a script for another user cannot be bent by what it
/// holds: the name is made of letters, digits, `_` and `-` alone, and the
/// script stands as one word that a shell reads back as the script itself.
pub proof fn law_elevated_line_is_safe(user: Seq<char>, script: Seq<char>)
    requires
        valid_username(user),
    ensures
        elevated_line(user, script) == "sudo -u "@ + user + " -i bash -c "@ + single_quoted(script),
        forall|i: int| 0 <= i < user.len() ==> is_username_char(#[trigger] user[i]),
        shell_reads(single_quoted(script), false) == Some(script),
{
    law_single_quoted_reads_back(script);
}

} // verus!

use rust_sys_installer::cli::executor::{
    configure_vscode, editor_commands, in_context, install_nodejs_with_nvm, install_nvm,
    install_rust, install_system_packages, install_vscode, validate, validate_nvm_installation,
    validate_rust_installation, validation_probe, ToolId,
};
use rust_sys_installer::cli::privilege::{resolve, PrivilegeContext};
use rust_sys_installer::error::ProcessError;
use rust_sys_installer::utils::cmd_builder::{CommandBuilder, ExecutionResult, LaunchReport};

fn elevated(name: &str) -> PrivilegeContext {
    resolve(Some(name)).unwrap()
}

fn argv(cmd: &CommandBuilder) -> Vec<String> {
    let mut all = vec![cmd.program().to_string()];
    all.extend(cmd.arguments().iter().cloned());
    all
}

fn exited(status: Option<i32>) -> LaunchReport {
    LaunchReport::Exited(ExecutionResult { stdout: vec![], stderr: b"details".to_vec(), status })
}

#[test]
fn direct_command_runs_the_script_in_bash() {
    let cmd = in_context(&PrivilegeContext::Direct, "echo hi | cat");
    assert_eq!(argv(&cmd), vec!["bash", "-c", "echo hi | cat"]);
    assert!(cmd.env_vars().is_none());
    assert!(cmd.working_dir().is_none());
    assert!(cmd.time_limit().is_none());
}

#[test]
fn elevated_command_wraps_the_script_for_the_user() {
    let cmd = in_context(&elevated("alice"), "echo hi | cat");
    assert_eq!(argv(&cmd), vec!["bash", "-c", "sudo -u alice -i bash -c 'echo hi | cat'"]);
}

#[test]
fn elevated_command_quotes_a_script_with_single_quotes() {
    let cmd = in_context(&elevated("dev-1"), "echo 'a b'");
    assert_eq!(argv(&cmd), vec!["bash", "-c", "sudo -u dev-1 -i bash -c 'echo '\\''a b'\\'''"]);
}

#[test]
fn nvm_is_installed_by_its_pinned_installer() {
    let script = "curl -o- https://raw.githubusercontent.com/nvm-sh/nvm/v0.40.3/install.sh | bash";
    assert_eq!(argv(&install_nvm(&PrivilegeContext::Direct)), vec!["bash", "-c", script]);
    assert_eq!(
        argv(&install_nvm(&elevated("alice"))),
        vec!["bash".to_string(), "-c".to_string(), format!("sudo -u alice -i bash -c '{}'", script)]
    );
}

#[test]
fn node_is_installed_through_nvm() {
    let script = ". \"$HOME/.nvm/nvm.sh\" && nvm install 24";
    assert_eq!(argv(&install_nodejs_with_nvm(&PrivilegeContext::Direct)), vec!["bash", "-c", script]);
    assert_eq!(
        argv(&install_nodejs_with_nvm(&elevated("alice"))),
        vec!["bash".to_string(), "-c".to_string(), format!("sudo -u alice -i bash -c '{}'", script)]
    );
}

#[test]
fn rust_is_installed_by_rustup_without_questions() {
    assert_eq!(
        argv(&install_rust(&PrivilegeContext::Direct)),
        vec!["bash", "-c", "curl --proto '=https' --tlsv1.2 -sSf https://sh.rustup.rs | sh -s -- -y"]
    );
    assert_eq!(
        argv(&install_rust(&elevated("alice"))),
        vec![
            "bash",
            "-c",
            "sudo -u alice -i bash -c 'curl --proto '\\''=https'\\'' --tlsv1.2 -sSf https://sh.rustup.rs | sh -s -- -y'"
        ]
    );
}

#[test]
fn system_packages_are_installed_one_by_one() {
    let cmds = install_system_packages();
    let names: Vec<String> = cmds.iter().map(|c| c.arguments()[2].clone()).collect();
    assert_eq!(names, vec!["curl", "git", "npm", "wget", "gpg", "apt-transport-https"]);
    for cmd in &cmds {
        assert_eq!(cmd.program(), "apt");
        assert_eq!(cmd.arguments()[..2], ["install".to_string(), "-y".to_string()]);
        assert_eq!(cmd.arguments().len(), 3);
    }
}

#[test]
fn editor_is_installed_from_its_repository() {
    let cmds = install_vscode();
    assert_eq!(cmds.len(), 3);
    assert_eq!(
        argv(&cmds[0]),
        vec![
            "bash",
            "-c",
            "wget -qO- https://packages.microsoft.com/keys/microsoft.asc | gpg --dearmor > /usr/share/keyrings/packages.microsoft.gpg"
        ]
    );
    assert_eq!(
        argv(&cmds[1]),
        vec![
            "bash",
            "-c",
            "echo 'deb [arch=amd64,arm64,armhf signed-by=/usr/share/keyrings/packages.microsoft.gpg] https://packages.microsoft.com/repos/code stable main' > /etc/apt/sources.list.d/vscode.list && apt update"
        ]
    );
    assert_eq!(argv(&cmds[2]), vec!["apt", "install", "-y", "code"]);
}

#[test]
fn probes_run_through_a_login_shell() {
    assert_eq!(
        argv(&validate_rust_installation(&PrivilegeContext::Direct)),
        vec!["bash", "-l", "-c", "cargo --version > /dev/null 2>&1"]
    );
    assert_eq!(
        argv(&validate_nvm_installation(&PrivilegeContext::Direct)),
        vec!["bash", "-l", "-c", ". ~/.nvm/nvm.sh && nvm --version > /dev/null 2>&1"]
    );
    assert_eq!(
        argv(&validate_rust_installation(&elevated("alice"))),
        vec!["bash", "-c", "sudo -u alice -i bash -c 'cargo --version > /dev/null 2>&1'"]
    );
    assert_eq!(
        argv(&validate_nvm_installation(&elevated("alice"))),
        vec!["bash", "-c", "sudo -u alice -i bash -c '. ~/.nvm/nvm.sh && nvm --version > /dev/null 2>&1'"]
    );
    assert_eq!(
        argv(&validation_probe(ToolId::Rust, &PrivilegeContext::Direct)),
        argv(&validate_rust_installation(&PrivilegeContext::Direct))
    );
    assert_eq!(
        argv(&validation_probe(ToolId::Nvm, &elevated("bob"))),
        argv(&validate_nvm_installation(&elevated("bob")))
    );
}

#[test]
fn probe_passes_on_exit_status_zero() {
    assert!(validate(ToolId::Rust, &exited(Some(0))).is_ok());
    assert!(validate(ToolId::Nvm, &exited(Some(0))).is_ok());
}

#[test]
fn failed_probe_has_one_fixed_message() {
    let spawn = LaunchReport::SpawnFailed(std::io::Error::new(std::io::ErrorKind::NotFound, "x"));
    for report in [exited(Some(1)), exited(Some(127)), exited(None), spawn, LaunchReport::TimedOut] {
        match validate(ToolId::Rust, &report) {
            Err(ProcessError::Validation { message }) => {
                assert_eq!(message, "Rust installation validation failed")
            }
            other => panic!("expected a validation error, got {:?}", other),
        }
        match validate(ToolId::Nvm, &report) {
            Err(ProcessError::Validation { message }) => {
                assert_eq!(message, "NVM installation validation failed")
            }
            other => panic!("expected a validation error, got {:?}", other),
        }
    }
}

#[test]
fn extensions_are_installed_in_order_and_settings_written_last() {
    let ids = vec!["b.second".to_string(), "a.first".to_string()];
    let cmds = editor_commands(&PrivilegeContext::Direct, &ids, "{}\n");
    assert_eq!(cmds.len(), 3);
    assert_eq!(argv(&cmds[0]), vec!["code", "--install-extension", "b.second"]);
    assert_eq!(argv(&cmds[1]), vec!["code", "--install-extension", "a.first"]);
    assert_eq!(
        argv(&cmds[2]),
        vec![
            "bash",
            "-c",
            "mkdir -p ~/.config/Code/User && printf \"\\173\\175\\012\" > ~/.config/Code/User/settings.json"
        ]
    );
}

#[test]
fn extensions_are_installed_as_the_user_when_elevated() {
    let ids = vec!["a.b".to_string()];
    let cmds = editor_commands(&elevated("alice"), &ids, "x");
    assert_eq!(cmds.len(), 2);
    assert_eq!(argv(&cmds[0]), vec!["sudo", "-u", "alice", "-i", "code", "--install-extension", "a.b"]);
    assert_eq!(
        argv(&cmds[1]),
        vec![
            "bash",
            "-c",
            "sudo -u alice -i bash -c 'mkdir -p ~/.config/Code/User && printf \"\\170\" > ~/.config/Code/User/settings.json'"
        ]
    );
}

#[test]
fn extension_identifier_with_shell_syntax_stays_one_argument() {
    let ids = vec!["a.b; rm -rf /".to_string()];
    let direct = editor_commands(&PrivilegeContext::Direct, &ids, "");
    assert_eq!(direct[0].arguments().len(), 2);
    assert_eq!(direct[0].arguments()[1], "a.b; rm -rf /");
    let as_user = editor_commands(&elevated("alice"), &ids, "");
    assert_eq!(as_user[0].arguments().len(), 6);
    assert_eq!(as_user[0].arguments()[5], "a.b; rm -rf /");
}

#[test]
fn settings_script_holds_the_document_byte_for_byte() {
    let document = "{\n  \"editor.fontSize\": 14, // 'quoted' $HOME `x` \\ é\n}\n";
    let cmds = editor_commands(&PrivilegeContext::Direct, &vec![], document);
    let script = &cmds[0].arguments()[1];
    let head = "mkdir -p ~/.config/Code/User && printf \"";
    let tail = "\" > ~/.config/Code/User/settings.json";
    assert!(script.starts_with(head) && script.ends_with(tail));
    let payload: Vec<char> = script[head.len()..script.len() - tail.len()].chars().collect();
    assert_eq!(payload.len(), 4 * document.len());
    let mut written = Vec::new();
    for group in payload.chunks(4) {
        assert_eq!(group[0], '\\');
        let digits: String = group[1..].iter().collect();
        written.push(u8::from_str_radix(&digits, 8).unwrap());
    }
    assert_eq!(written, document.as_bytes());
}

#[test]
fn configure_vscode_reads_the_manifest_and_lays_out_the_commands() {
    let cmds = configure_vscode(
        &PrivilegeContext::Direct,
        r#"{"recommendations": ["a.b", 7, "c.d"]}"#,
        "{}",
    )
    .unwrap();
    assert_eq!(cmds.len(), 3);
    assert_eq!(argv(&cmds[0]), vec!["code", "--install-extension", "a.b"]);
    assert_eq!(argv(&cmds[1]), vec!["code", "--install-extension", "c.d"]);
    assert_eq!(cmds[2].program(), "bash");
}

#[test]
fn configure_vscode_refuses_a_malformed_manifest() {
    match configure_vscode(&PrivilegeContext::Direct, r#"{"recommendations": 1}"#, "{}") {
        Err(ProcessError::Configuration { message }) => {
            assert_eq!(message, "Invalid extensions.json format")
        }
        other => panic!("expected a configuration error, got {:?}", other),
    }
    assert!(matches!(
        configure_vscode(&PrivilegeContext::Direct, "{", "{}"),
        Err(ProcessError::Json(_))
    ));
}

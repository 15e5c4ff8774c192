use rust_sys_installer::utils::cmd_builder::CommandBuilder;

#[test]
fn test_command_builder_new() {
    let cmd = CommandBuilder::new("ls");
    assert_eq!(cmd.program(), "ls");
    assert!(cmd.arguments().is_empty());
    assert!(cmd.env_vars().is_none());
    assert!(cmd.working_dir().is_none());
    assert!(cmd.time_limit().is_none());
}

#[test]
fn test_command_builder_with_args() {
    let cmd = CommandBuilder::new("ls")
        .arg("-la")
        .args(vec!["/tmp".to_string(), "/var".to_string()]);

    assert_eq!(cmd.program(), "ls");
    assert_eq!(*cmd.arguments(), vec!["-la", "/tmp", "/var"]);
}

#[test]
fn test_command_builder_with_env() {
    let cmd = CommandBuilder::new("echo")
        .env("HOME", "/tmp")
        .env("USER", "test");

    assert_eq!(cmd.env_value("HOME"), Some(&"/tmp".to_string()));
    assert_eq!(cmd.env_value("USER"), Some(&"test".to_string()));
}

#[test]
fn test_ubuntu_apt_install() {
    let cmd = CommandBuilder::apt_install("curl");
    assert_eq!(cmd.program(), "apt");
    assert_eq!(*cmd.arguments(), vec!["install", "-y", "curl"]);
}

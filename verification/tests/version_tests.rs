use which_shell::{parse_version, version_command, Shell, ShellVersion};

#[test]
fn bash_version_from_banner() {
    let raw = "GNU bash, version 5.2.26(1)-release (aarch64-unknown-linux-android)";
    assert_eq!(parse_version(Shell::Bash, raw), Some("5.2.26".to_string()));
}

#[test]
fn bash_version_absent_without_triple() {
    assert_eq!(parse_version(Shell::Bash, "no digits here"), None);
    assert_eq!(parse_version(Shell::Bash, "only 5.2"), None);
    assert_eq!(parse_version(Shell::Bash, ""), None);
}

#[test]
fn fish_version_after_prefix() {
    assert_eq!(
        parse_version(Shell::Fish, "fish, version 3.6.1"),
        Some("3.6.1".to_string())
    );
}

#[test]
fn fish_version_absent_when_too_short() {
    assert_eq!(parse_version(Shell::Fish, "fish"), None);
    assert_eq!(parse_version(Shell::Fish, ""), None);
}

#[test]
fn pwsh_version_after_prefix() {
    assert_eq!(
        parse_version(Shell::Pwsh, "PowerShell 7.4.1"),
        Some("7.4.1".to_string())
    );
}

#[test]
fn powershell_version_passes_through() {
    assert_eq!(
        parse_version(Shell::PowerShell, "5.1.26100.2161"),
        Some("5.1.26100.2161".to_string())
    );
}

#[test]
fn nu_version_passes_through() {
    assert_eq!(parse_version(Shell::Nu, "0.99.0"), Some("0.99.0".to_string()));
}

#[test]
fn cmd_version_from_banner() {
    let raw = "Microsoft Windows [Version 10.0.22635.2700]";
    assert_eq!(parse_version(Shell::Cmd, raw), Some("10.0.22635.2700".to_string()));
}

#[test]
fn cmd_version_from_localized_multiline_banner() {
    let raw = "Microsoft Windows [版本 10.0.22635.2700]\n(c) Microsoft Corporation。保留所有权利。";
    assert_eq!(parse_version(Shell::Cmd, raw), Some("10.0.22635.2700".to_string()));
}

#[test]
fn cmd_version_absent_for_empty_output() {
    assert_eq!(parse_version(Shell::Cmd, ""), None);
}

#[test]
fn zsh_version_is_second_token() {
    let raw = "zsh 5.9 (x86_64-ubuntu-linux-gnu)";
    assert_eq!(parse_version(Shell::Zsh, raw), Some("5.9".to_string()));
    assert_eq!(parse_version(Shell::Zsh, "zsh"), None);
}

#[test]
fn tcsh_version_is_second_token() {
    let raw = "tcsh 6.24.13 (Astron) 2024-06-12 (x86_64-unknown-linux) options wide,nls";
    assert_eq!(parse_version(Shell::Tcsh, raw), Some("6.24.13".to_string()));
}

#[test]
fn ksh_version_after_slash() {
    let raw = "Version AJM 93u+m/1.0.8 2024-01-01";
    assert_eq!(parse_version(Shell::Ksh, raw), Some("1.0.8".to_string()));
    assert_eq!(parse_version(Shell::Ksh, "Version AJM 93u+m"), None);
}

#[test]
fn kinds_without_rule_have_no_version() {
    assert_eq!(parse_version(Shell::Dash, "dash 0.5.12"), None);
    assert_eq!(parse_version(Shell::Csh, "anything"), None);
    assert_eq!(parse_version(Shell::Sh, "anything"), None);
    assert_eq!(parse_version(Shell::Unknown, "anything"), None);
}

#[test]
fn version_parsers_are_idempotent() {
    let raw = "GNU bash, version 5.2.26(1)-release";
    assert_eq!(parse_version(Shell::Bash, raw), parse_version(Shell::Bash, raw));
    let raw = "zsh 5.9";
    assert_eq!(parse_version(Shell::Zsh, raw), parse_version(Shell::Zsh, raw));
}

#[test]
fn version_command_table() {
    let (cmd, args) = version_command(Shell::PowerShell);
    assert_eq!(cmd, "powershell");
    assert_eq!(
        args,
        vec![
            "-c".to_string(),
            "$PSVersionTable.PSVersion -replace '\\D', '.'".to_string()
        ]
    );
    let (cmd, args) = version_command(Shell::Ksh);
    assert_eq!(cmd, "ksh");
    assert_eq!(args, vec!["-c".to_string(), "echo $KSH_VERSION".to_string()]);
    let (cmd, args) = version_command(Shell::Bash);
    assert_eq!(cmd, "bash");
    assert_eq!(args, vec!["--version".to_string()]);
}

#[test]
fn from_output_parses_when_output_present() {
    let sv = ShellVersion::from_output(
        Shell::Fish,
        Some("fish, version 3.6.1".to_string()),
    );
    assert_eq!(sv.shell, Shell::Fish);
    assert_eq!(sv.version, Some("3.6.1".to_string()));
}

#[test]
fn from_output_keeps_kind_when_invocation_failed() {
    let sv = ShellVersion::from_output(Shell::Bash, None);
    assert_eq!(sv.shell, Shell::Bash);
    assert_eq!(sv.version, None);
}

#[test]
fn from_output_keeps_kind_when_output_unparseable() {
    let sv = ShellVersion::from_output(Shell::Bash, Some("garbage".to_string()));
    assert_eq!(sv.shell, Shell::Bash);
    assert_eq!(sv.version, None);
}

#[test]
fn display_with_and_without_version() {
    let with = ShellVersion {
        shell: Shell::Zsh,
        version: Some("5.9".to_string()),
    };
    assert_eq!(with.display_string(), "zsh 5.9");
    let without = ShellVersion {
        shell: Shell::Zsh,
        version: None,
    };
    assert_eq!(without.display_string(), "zsh");
}

use which_shell::{get_ppid, Shell, ShellVersion, WalkStep, Walker};

#[test]
fn walk_skips_unknown_intermediates() {
    // chain: self -> Unknown("node") -> Unknown("tmux") -> Bash
    let mut w = Walker::new(100);
    assert_eq!(w.step(Some((90, "node".to_string()))), WalkStep::Next);
    assert_eq!(w.pid, 90);
    assert_eq!(w.step(Some((80, "tmux".to_string()))), WalkStep::Next);
    assert_eq!(w.pid, 80);
    let step = w.step(Some((70, "/bin/bash".to_string())));
    assert_eq!(step, WalkStep::Found(Shell::Bash));
    let identity = ShellVersion::from_output(
        Shell::Bash,
        Some("GNU bash, version 5.2.26(1)-release".to_string()),
    );
    assert_eq!(identity.shell, Shell::Bash);
    assert_eq!(identity.version, Some("5.2.26".to_string()));
}

#[test]
fn walk_halts_at_root_without_result() {
    // chain: self -> Unknown("init") -> (no parent)
    let mut w = Walker::new(100);
    assert_eq!(w.step(Some((1, "init".to_string()))), WalkStep::Next);
    assert_eq!(w.step(None), WalkStep::Halt);
}

#[test]
fn walk_halts_on_a_cyclic_process_table() {
    let mut w = Walker::new(100);
    let mut steps = 0u32;
    loop {
        match w.step(Some((100, "loop".to_string()))) {
            WalkStep::Next => steps += 1,
            WalkStep::Halt => break,
            WalkStep::Found(_) => panic!("nothing to find in this chain"),
        }
        assert!(steps <= 1_000_000, "walk did not halt");
    }
    assert_eq!(steps, 4096);
}

#[test]
fn walk_finds_shell_in_path_form() {
    let mut w = Walker::new(42);
    let step = w.step(Some((7, "C:\\Program Files\\PowerShell\\pwsh.exe".to_string())));
    assert_eq!(step, WalkStep::Found(Shell::Pwsh));
}

#[test]
fn ppid_from_status_text() {
    let status = "Name:\tbash\nUmask:\t0022\nState:\tS (sleeping)\nTgid:\t1234\nPid:\t1234\nPPid:\t77\nTracerPid:\t0\n";
    assert_eq!(get_ppid(status), Some(77));
}

#[test]
fn ppid_absent_without_header() {
    assert_eq!(get_ppid("Name:\tbash\nPid:\t1234\n"), None);
    assert_eq!(get_ppid(""), None);
}

#[test]
fn ppid_skips_malformed_line() {
    assert_eq!(get_ppid("PPid:\tabc\nPPid:\t9\n"), Some(9));
}

#[test]
fn ppid_requires_fitting_number() {
    assert_eq!(get_ppid("PPid:\t99999999999999\n"), None);
    assert_eq!(get_ppid("PPid:\t4294967295\n"), Some(4294967295));
    assert_eq!(get_ppid("PPid: 1\n"), Some(1));
    assert_eq!(get_ppid("PPid:\n"), None);
}

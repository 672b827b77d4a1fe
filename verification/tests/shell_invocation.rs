use tui::shell_invocation::{
    invocation_from_shell_env, non_blank_setting, shell_invocation_for_platform, shell_program_stem,
    ShellInvocation, ShellPlatform, ShellProbe,
};

fn probe() -> ShellProbe {
    ShellProbe::default()
}

#[test]
fn unix_shell_stays_sh_c() {
    let invocation = shell_invocation_for_platform("printf ok", ShellPlatform::Unix, &probe());
    assert_eq!(invocation.program, "sh");
    assert_eq!(invocation.args, ["-c", "printf ok"]);
    assert!(!invocation.raw_payload_on_windows);
    assert_eq!(invocation.display_command().as_deref(), Some("printf ok"));
}

#[test]
fn windows_prefers_shell_env_powershell() {
    let invocation = shell_invocation_for_platform(
        r#"Remove-Item -Path "target file.txt" -Force"#,
        ShellPlatform::Windows,
        &ShellProbe {
            shell: Some(r"C:\Program Files\PowerShell\7\pwsh.exe".to_string()),
            ..probe()
        },
    );

    assert_eq!(invocation.program, r"C:\Program Files\PowerShell\7\pwsh.exe");
    assert_eq!(
        invocation.args,
        ["-NoProfile", "-Command", r#"Remove-Item -Path "target file.txt" -Force"#]
    );
    assert!(!invocation.raw_payload_on_windows);
    assert_eq!(
        invocation.display_command().as_deref(),
        Some(r#"Remove-Item -Path "target file.txt" -Force"#)
    );
}

#[test]
fn windows_uses_pwsh_before_cmd_when_available() {
    let invocation = shell_invocation_for_platform(
        "Get-ChildItem",
        ShellPlatform::Windows,
        &ShellProbe {
            comspec: Some(r"C:\Windows\System32\cmd.exe".to_string()),
            pwsh_on_path: true,
            ..probe()
        },
    );

    assert_eq!(invocation.program, "pwsh.exe");
    assert_eq!(invocation.args, ["-NoProfile", "-Command", "Get-ChildItem"]);
    assert!(!invocation.raw_payload_on_windows);
}

#[test]
fn windows_falls_back_to_comspec_cmd_with_utf8_prefix() {
    let invocation = shell_invocation_for_platform(
        r#"git commit -m "hello world""#,
        ShellPlatform::Windows,
        &ShellProbe {
            comspec: Some(r"C:\Windows\System32\cmd.exe".to_string()),
            ..probe()
        },
    );

    assert_eq!(invocation.program, r"C:\Windows\System32\cmd.exe");
    assert_eq!(
        invocation.args,
        ["/C", r#"chcp 65001 >NUL & git commit -m "hello world""#]
    );
    assert!(invocation.raw_payload_on_windows);
    assert_eq!(
        invocation.display_command().as_deref(),
        Some(r#"git commit -m "hello world""#)
    );
}

#[test]
fn windows_honors_posix_like_shell_env() {
    let invocation = shell_invocation_for_platform(
        "printf ok",
        ShellPlatform::Windows,
        &ShellProbe {
            shell: Some(r"C:\Program Files\Git\usr\bin\bash.exe".to_string()),
            pwsh_on_path: true,
            ..probe()
        },
    );

    assert_eq!(invocation.program, r"C:\Program Files\Git\usr\bin\bash.exe");
    assert_eq!(invocation.args, ["-c", "printf ok"]);
    assert!(!invocation.raw_payload_on_windows);
}

#[test]
fn windows_posix_shell_env_with_unix_path_uses_stem() {
    let invocation = shell_invocation_for_platform(
        "printf ok",
        ShellPlatform::Windows,
        &ShellProbe {
            shell: Some("/usr/bin/bash".to_string()),
            ..probe()
        },
    );

    assert_eq!(invocation.program, "bash");
    assert_eq!(invocation.args, ["-c", "printf ok"]);
}

// ---------------------------------------------------------------------------
// Further cases
// ---------------------------------------------------------------------------

fn windows_with(probe: ShellProbe, command: &str) -> ShellInvocation {
    shell_invocation_for_platform(command, ShellPlatform::Windows, &probe)
}

#[test]
fn unix_ignores_the_probe() {
    let invocation = shell_invocation_for_platform(
        "ls",
        ShellPlatform::Unix,
        &ShellProbe {
            shell: Some("pwsh".to_string()),
            comspec: Some("cmd.exe".to_string()),
            pwsh_on_path: true,
            powershell_on_path: true,
        },
    );
    assert_eq!(invocation.program, "sh");
    assert_eq!(invocation.args, ["-c", "ls"]);
}

#[test]
fn windows_without_anything_uses_plain_cmd() {
    let invocation = windows_with(probe(), "dir");
    assert_eq!(invocation.program, "cmd");
    assert_eq!(invocation.args, ["/C", "chcp 65001 >NUL & dir"]);
    assert!(invocation.raw_payload_on_windows);
    assert_eq!(invocation.display_command().as_deref(), Some("dir"));
}

#[test]
fn windows_uses_windows_powershell_when_only_it_is_on_path() {
    let invocation = windows_with(
        ShellProbe {
            powershell_on_path: true,
            ..probe()
        },
        "Get-Date",
    );
    assert_eq!(invocation.program, "powershell.exe");
    assert_eq!(invocation.args, ["-NoProfile", "-Command", "Get-Date"]);
    assert_eq!(invocation.display_command().as_deref(), Some("Get-Date"));
}

#[test]
fn windows_ignores_comspec_that_is_not_cmd() {
    let invocation = windows_with(
        ShellProbe {
            comspec: Some(r"C:\tools\tcc.exe".to_string()),
            ..probe()
        },
        "dir",
    );
    assert_eq!(invocation.program, "cmd");
}

#[test]
fn windows_ignores_unknown_shell_env() {
    let invocation = windows_with(
        ShellProbe {
            shell: Some(r"C:\tools\nu.exe".to_string()),
            pwsh_on_path: true,
            ..probe()
        },
        "ls",
    );
    assert_eq!(invocation.program, "pwsh.exe");
}

#[test]
fn windows_shell_env_cmd_in_upper_case() {
    let invocation = windows_with(
        ShellProbe {
            shell: Some(r"  C:\WINDOWS\SYSTEM32\CMD.EXE  ".to_string()),
            ..probe()
        },
        "echo hi",
    );
    assert_eq!(invocation.program, r"  C:\WINDOWS\SYSTEM32\CMD.EXE  ");
    assert_eq!(invocation.args, ["/C", "chcp 65001 >NUL & echo hi"]);
    assert!(invocation.raw_payload_on_windows);
    assert_eq!(invocation.display_command().as_deref(), Some("echo hi"));
}

#[test]
fn windows_shell_env_unix_path_with_leading_space_uses_stem() {
    let invocation = windows_with(
        ShellProbe {
            shell: Some("  /bin/zsh".to_string()),
            ..probe()
        },
        "echo hi",
    );
    assert_eq!(invocation.program, "zsh");
    assert_eq!(invocation.display_command().as_deref(), Some("echo hi"));
}

#[test]
fn empty_shell_env_has_no_stem() {
    let invocation = windows_with(
        ShellProbe {
            shell: Some("C:/tools/".to_string()),
            ..probe()
        },
        "x",
    );
    assert_eq!(invocation.program, "cmd");
}

#[test]
fn display_command_finds_command_flag_in_any_case() {
    let invocation = ShellInvocation {
        program: "PowerShell".to_string(),
        args: vec!["-nologo".to_string(), "-COMMAND".to_string(), "Get-Item x".to_string()],
        raw_payload_on_windows: false,
    };
    assert_eq!(invocation.display_command().as_deref(), Some("Get-Item x"));
}

#[test]
fn display_command_without_value_after_flag_is_none() {
    let invocation = ShellInvocation {
        program: "pwsh".to_string(),
        args: vec!["-Command".to_string()],
        raw_payload_on_windows: false,
    };
    assert_eq!(invocation.display_command(), None);
}

#[test]
fn display_command_cmd_without_prefix_keeps_payload() {
    let invocation = ShellInvocation {
        program: "cmd.exe".to_string(),
        args: vec!["/c".to_string(), "dir /b".to_string()],
        raw_payload_on_windows: true,
    };
    assert_eq!(invocation.display_command().as_deref(), Some("dir /b"));
}

#[test]
fn display_command_of_unknown_program_is_none() {
    let invocation = ShellInvocation {
        program: "python".to_string(),
        args: vec!["-c".to_string(), "print(1)".to_string()],
        raw_payload_on_windows: false,
    };
    assert_eq!(invocation.display_command(), None);
}

#[test]
fn display_command_round_trip_on_every_shape() {
    let command = "echo \"a b\" & exit 1";
    let probes = [
        probe(),
        ShellProbe { pwsh_on_path: true, ..probe() },
        ShellProbe { powershell_on_path: true, ..probe() },
        ShellProbe { comspec: Some(r"C:\Windows\cmd.exe".to_string()), ..probe() },
        ShellProbe { shell: Some("/usr/local/bin/fish".to_string()), ..probe() },
        ShellProbe { shell: Some(r"D:\msys\bin\SH.EXE".to_string()), ..probe() },
        ShellProbe { shell: Some("powershell".to_string()), ..probe() },
    ];
    for p in probes.iter() {
        for platform in [ShellPlatform::Unix, ShellPlatform::Windows] {
            let invocation = shell_invocation_for_platform(command, platform, p);
            assert_eq!(invocation.display_command().as_deref(), Some(command));
        }
    }
}

#[test]
fn stems_are_lower_case_file_names() {
    assert_eq!(shell_program_stem(r" C:\Tools\Bash.EXE ").as_deref(), Some("bash"));
    assert_eq!(shell_program_stem("/usr/bin/zsh").as_deref(), Some("zsh"));
    assert_eq!(shell_program_stem("pwsh.exe").as_deref(), Some("pwsh"));
    assert_eq!(shell_program_stem(".exe"), None);
    assert_eq!(shell_program_stem("   "), None);
    assert_eq!(shell_program_stem("dir/"), None);
}

#[test]
fn stems_ignore_directories_and_backslash_form() {
    assert_eq!(shell_program_stem(r"a b\c/fish"), shell_program_stem("fish"));
    assert_eq!(shell_program_stem(r"x\y\Cmd.exe"), shell_program_stem("x/y/Cmd.exe"));
}

#[test]
fn unknown_shell_env_selects_nothing() {
    assert_eq!(invocation_from_shell_env("/bin/nu", "ls"), None);
    assert_eq!(
        invocation_from_shell_env("/bin/sh", "ls"),
        Some(ShellInvocation {
            program: "sh".to_string(),
            args: vec!["-c".to_string(), "ls".to_string()],
            raw_payload_on_windows: false,
        })
    );
}

#[test]
fn blank_settings_count_as_unset() {
    assert_eq!(non_blank_setting(Some(" \t ".to_string())), None);
    assert_eq!(non_blank_setting(Some(String::new())), None);
    assert_eq!(non_blank_setting(None), None);
    assert_eq!(non_blank_setting(Some(" cmd ".to_string())), Some(" cmd ".to_string()));
}

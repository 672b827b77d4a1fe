use std::path::PathBuf;

use tui::verify::{
    is_side_effect_tool, post_hoc_check, post_hoc_check_for, read_back_verdict, run_verification,
    verdict_annotation, PostHocCheck, VerifyConfig, VerifyVerdict,
};

fn empty_input() -> serde_json::Value {
    serde_json::Value::Object(serde_json::Map::new())
}

fn path_input(path: &str) -> serde_json::Value {
    let mut map = serde_json::Map::new();
    map.insert("path".to_string(), serde_json::Value::String(path.to_string()));
    serde_json::Value::Object(map)
}

fn write_input(path: &str, content: &str) -> serde_json::Value {
    let mut map = serde_json::Map::new();
    map.insert("path".to_string(), serde_json::Value::String(path.to_string()));
    map.insert("content".to_string(), serde_json::Value::String(content.to_string()));
    serde_json::Value::Object(map)
}

#[test]
fn read_only_tools_are_skipped() {
    for tool in &[
        "read_file",
        "grep_files",
        "file_search",
        "list_dir",
        "git_status",
        "git_diff",
        "web_search",
    ] {
        let (verdict, _) = run_verification(tool, &empty_input(), &PathBuf::from("/tmp"));
        assert!(
            matches!(verdict, VerifyVerdict::Skipped),
            "expected a skip for {}, found {:?}", tool, verdict
        );
    }
}

#[test]
fn side_effect_tools_pass_when_successful() {
    for tool in &["write_file", "edit_file", "apply_patch", "exec_shell"] {
        let (verdict, _) =
            run_verification(tool, &path_input("/tmp/test.rs"), &PathBuf::from("/tmp"));
        assert!(
            matches!(verdict, VerifyVerdict::Pass),
            "expected a pass for {}, found {:?}", tool, verdict
        );
    }
}

#[test]
fn unknown_tools_are_unverifiable() {
    let (verdict, _) =
        run_verification("nonexistent_tool", &empty_input(), &PathBuf::from("/tmp"));
    assert!(matches!(verdict, VerifyVerdict::Unverifiable { .. }));
}

#[test]
fn is_side_effect_tool_identifies_mutating_tools() {
    assert!(is_side_effect_tool("write_file"));
    assert!(is_side_effect_tool("edit_file"));
    assert!(is_side_effect_tool("exec_shell"));
    assert!(is_side_effect_tool("apply_patch"));
    assert!(!is_side_effect_tool("read_file"));
    assert!(!is_side_effect_tool("grep_files"));
    assert!(!is_side_effect_tool("git_status"));
}

#[test]
fn post_hoc_verify_returns_none_for_unsupported_tools() {
    assert!(post_hoc_check("read_file", &empty_input()).is_none());
}

#[test]
fn verify_config_default_disabled() {
    let cfg = VerifyConfig::default();
    assert!(!cfg.enabled);
    assert!(cfg.skip_tools.is_empty());
    assert_eq!(cfg.max_retries, 1);
}

// ---------------------------------------------------------------------------
// Further cases
// ---------------------------------------------------------------------------

#[test]
fn unknown_tool_reason_and_annotation() {
    let (verdict, note) = run_verification("frobnicate", &empty_input(), &PathBuf::from("/w"));
    assert_eq!(
        verdict,
        VerifyVerdict::Unverifiable {
            reason: "no verification rule for tool `frobnicate`".to_string()
        }
    );
    assert_eq!(
        note,
        "\n\n[VERIFY] Unverifiable: no verification rule for tool `frobnicate`"
    );
}

#[test]
fn pass_and_skip_have_no_annotation() {
    let (verdict, note) = run_verification("write_file", &empty_input(), &PathBuf::from("/w"));
    assert_eq!(verdict, VerifyVerdict::Pass);
    assert_eq!(note, "");
    let (verdict, note) = run_verification("review", &empty_input(), &PathBuf::from("/w"));
    assert_eq!(verdict, VerifyVerdict::Skipped);
    assert_eq!(note, "");
}

#[test]
fn fail_annotation_names_claim_and_observation() {
    let note = verdict_annotation(&VerifyVerdict::Fail {
        expected: "non-empty file".to_string(),
        observed: "file is empty".to_string(),
    });
    assert_eq!(
        note,
        "\n\n[VERIFY FAIL] Claimed: non-empty file\n[VERIFY FAIL] Observed: file is empty"
    );
}

#[test]
fn side_effect_tools_are_exactly_the_trusted_ones() {
    for tool in &["write_file", "todo_add", "automation_run", "web_run", "update_goal"] {
        assert!(is_side_effect_tool(tool));
        let (verdict, _) = run_verification(tool, &empty_input(), &PathBuf::from("/w"));
        assert_eq!(verdict, VerifyVerdict::Pass);
    }
    for tool in &["read_file", "note", "run_tests", "rlm_close", "whatever"] {
        assert!(!is_side_effect_tool(tool));
        let (verdict, _) = run_verification(tool, &empty_input(), &PathBuf::from("/w"));
        assert_ne!(verdict, VerifyVerdict::Pass);
    }
}

#[test]
fn the_two_lists_differ_on_checklist_list_and_get_goal() {
    assert!(is_side_effect_tool("checklist_list"));
    let (verdict, _) = run_verification("checklist_list", &empty_input(), &PathBuf::from("/w"));
    assert!(matches!(verdict, VerifyVerdict::Unverifiable { .. }));
    assert!(!is_side_effect_tool("get_goal"));
    let (verdict, _) = run_verification("get_goal", &empty_input(), &PathBuf::from("/w"));
    assert_eq!(verdict, VerifyVerdict::Pass);
}

#[test]
fn tool_names_are_case_sensitive() {
    assert!(!is_side_effect_tool("Write_File"));
    let (verdict, _) = run_verification("READ_FILE", &empty_input(), &PathBuf::from("/w"));
    assert!(matches!(verdict, VerifyVerdict::Unverifiable { .. }));
}

#[test]
fn post_hoc_reads_back_the_named_path() {
    assert_eq!(
        post_hoc_check("write_file", &path_input("src/main.rs")),
        Some(PostHocCheck::ReadBack { path: "src/main.rs".to_string(), expected: None })
    );
    assert_eq!(
        post_hoc_check("write_file", &write_input("a.txt", "hello")),
        Some(PostHocCheck::ReadBack {
            path: "a.txt".to_string(),
            expected: Some("hello".to_string())
        })
    );
    assert_eq!(
        post_hoc_check("edit_file", &write_input("/abs/file.txt", "x")),
        Some(PostHocCheck::ReadBack { path: "/abs/file.txt".to_string(), expected: None })
    );
}

#[test]
fn post_hoc_without_path_string_is_none() {
    assert_eq!(post_hoc_check("write_file", &empty_input()), None);
    let mut map = serde_json::Map::new();
    map.insert("path".to_string(), serde_json::Value::Bool(true));
    assert_eq!(post_hoc_check("edit_file", &serde_json::Value::Object(map)), None);
    assert_eq!(
        post_hoc_check("write_file", &serde_json::Value::String("path".to_string())),
        None
    );
}

#[test]
fn post_hoc_exec_shell_passes() {
    assert_eq!(
        post_hoc_check("exec_shell", &empty_input()),
        Some(PostHocCheck::Settled(VerifyVerdict::Pass))
    );
    assert_eq!(
        post_hoc_check_for("exec_shell", Some("x"), None),
        Some(PostHocCheck::Settled(VerifyVerdict::Pass))
    );
    assert_eq!(post_hoc_check_for("apply_patch", Some("x"), Some("y")), None);
    assert_eq!(post_hoc_check_for("write_file", None, Some("y")), None);
}

#[test]
fn read_back_of_missing_file_is_unverifiable() {
    let verdict = read_back_verdict(
        "/tmp/x/nonexistent.txt",
        None,
        Err("No such file or directory (os error 2)".to_string()),
    );
    assert_eq!(
        verdict,
        VerifyVerdict::Unverifiable {
            reason: "cannot read /tmp/x/nonexistent.txt for verification: No such file or directory (os error 2)"
                .to_string()
        }
    );
}

#[test]
fn read_back_of_existing_file_passes() {
    let verdict = read_back_verdict("/tmp/x/real.txt", None, Ok("hello world".to_string()));
    assert_eq!(verdict, VerifyVerdict::Pass);
}

#[test]
fn read_back_of_empty_file_fails() {
    let verdict = read_back_verdict("/tmp/x/empty.txt", Some(""), Ok(String::new()));
    assert_eq!(
        verdict,
        VerifyVerdict::Fail {
            expected: "non-empty file at /tmp/x/empty.txt".to_string(),
            observed: "file is empty".to_string(),
        }
    );
}

#[test]
fn read_back_with_the_written_content_passes() {
    let verdict =
        read_back_verdict("/w/a.txt", Some("lo wo"), Ok("hello world".to_string()));
    assert_eq!(verdict, VerifyVerdict::Pass);
}

#[test]
fn read_back_without_the_written_content_fails() {
    let verdict = read_back_verdict("/w/a.txt", Some("bye"), Ok("hello world".to_string()));
    assert_eq!(
        verdict,
        VerifyVerdict::Fail {
            expected: "written content in /w/a.txt".to_string(),
            observed: "file does not contain the written content".to_string(),
        }
    );
}

#[test]
fn read_back_of_longer_content_than_file_fails() {
    let verdict = read_back_verdict("/w/a.txt", Some("hello world!"), Ok("hello world".to_string()));
    assert!(matches!(verdict, VerifyVerdict::Fail { .. }));
}

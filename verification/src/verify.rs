//! Closed-loop verification gate: the verdict a tool's claimed side effects
//! get, the note that is appended to the tool's output, and the decision
//! that follows a post-hoc read-back of a written file.

use vstd::prelude::*;

use crate::text::{contains_text, opt_view, str_contains, str_eq, string_from};

verus! {

// ---------------------------------------------------------------------------
// Outside types carried through
// ---------------------------------------------------------------------------

/// The JSON input of a tool call, carried through opaquely.
#[verifier::external_type_specification]
#[verifier::external_body]
pub struct ExJsonValue(serde_json::Value);

/// A filesystem path, carried through opaquely.
#[verifier::external_type_specification]
#[verifier::external_body]
pub struct ExPathBuf(std::path::PathBuf);

// ---------------------------------------------------------------------------
// Verdict types
// ---------------------------------------------------------------------------

/// What the verifier found when it re-checked a tool's claimed result.
#[derive(Debug, Clone, PartialEq)]
pub enum VerifyVerdict {
    /// Re-check confirmed the claim.
    Pass,
    /// Re-check contradicted the claim with evidence.
    Fail { expected: String, observed: String },
    /// Could not re-check (no read-only path available, or re-check tool failed).
    Unverifiable { reason: String },
    /// Explicitly skipped (read-only tool, or tool returned `verification: "skip"` metadata).
    Skipped,
}

/// A single verification record for the session ledger.
#[derive(Debug, Clone)]
pub struct VerifyRecord {
    pub tool_id: String,
    pub tool_name: String,
    pub verdict: VerifyVerdict,
    pub elapsed_ms: u64,
    pub ts: i64,
}

/// Configuration for the verification gate.
#[derive(Debug, Clone)]
pub struct VerifyConfig {
    /// Enable the verification gate.
    pub enabled: bool,
    /// Tools to skip verification for.
    pub skip_tools: Vec<String>,
    /// Max verification retries. Default: 1.
    pub max_retries: u8,
}

impl Default for VerifyConfig {
    /// Verification off, no tool skipped, one retry.
    fn default() -> (cfg: Self)
        ensures
            !cfg.enabled,
            cfg.skip_tools@.len() == 0,
            cfg.max_retries == 1,
    {
        VerifyConfig { enabled: false, skip_tools: Vec::new(), max_retries: 1 }
    }
}

// ---------------------------------------------------------------------------
// Specification
// ---------------------------------------------------------------------------

/// Tools that only read.
pub open spec fn is_read_only_tool(name: Seq<char>) -> bool {
    ||| name == "read_file"@
    ||| name == "grep_files"@
    ||| name == "file_search"@
    ||| name == "list_dir"@
    ||| name == "web_search"@
    ||| name == "fetch_url"@
    ||| name == "git_status"@
    ||| name == "git_diff"@
    ||| name == "git_log"@
    ||| name == "git_show"@
    ||| name == "git_blame"@
    ||| name == "diagnostics"@
    ||| name == "handle_read"@
    ||| name == "task_list"@
    ||| name == "task_read"@
    ||| name == "pr_attempt_list"@
    ||| name == "pr_attempt_read"@
    ||| name == "automation_list"@
    ||| name == "automation_read"@
    ||| name == "github_issue_context"@
    ||| name == "github_pr_context"@
    ||| name == "code_execution"@
    ||| name == "validate_data"@
    ||| name == "note"@
    ||| name == "request_user_input"@
    ||| name == "recall_archive"@
    ||| name == "tool_search_tool_regex"@
    ||| name == "tool_search_tool_bm25"@
}

/// Tools that verify themselves or only review.
pub open spec fn is_self_verifying_tool(name: Seq<char>) -> bool {
    ||| name == "review"@
    ||| name == "agent_open"@
    ||| name == "agent_eval"@
    ||| name == "agent_close"@
    ||| name == "tool_agent"@
    ||| name == "rlm_open"@
    ||| name == "rlm_eval"@
    ||| name == "rlm_configure"@
    ||| name == "rlm_close"@
    ||| name == "rlm_session_objects"@
    ||| name == "run_tests"@
}

/// Tools whose claimed success the verifier accepts and leaves to the post-hoc
/// check.
pub open spec fn is_claim_trusted_tool(name: Seq<char>) -> bool {
    ||| name == "write_file"@
    ||| name == "edit_file"@
    ||| name == "apply_patch"@
    ||| name == "exec_shell"@
    ||| name == "exec_shell_wait"@
    ||| name == "exec_shell_interact"@
    ||| name == "shell_cancel"@
    ||| name == "exec_wait"@
    ||| name == "exec_interact"@
    ||| name == "task_shell_start"@
    ||| name == "task_shell_wait"@
    ||| name == "task_create"@
    ||| name == "task_gate_run"@
    ||| name == "github_comment"@
    ||| name == "github_close_issue"@
    ||| name == "github_close_pr"@
    ||| name == "pr_attempt_record"@
    ||| name == "pr_attempt_preflight"@
    ||| name == "automation_create"@
    ||| name == "automation_update"@
    ||| name == "automation_pause"@
    ||| name == "automation_resume"@
    ||| name == "automation_delete"@
    ||| name == "automation_run"@
    ||| name == "task_cancel"@
    ||| name == "remember"@
    ||| name == "notify"@
    ||| name == "revert_turn"@
    ||| name == "fim_edit"@
    ||| name == "pandoc_convert"@
    ||| name == "image_analyze"@
    ||| name == "image_ocr"@
    ||| name == "web_run"@
    ||| name == "finance"@
    ||| name == "skill_install"@
    ||| name == "checklist_write"@
    ||| name == "checklist_add"@
    ||| name == "checklist_update"@
    ||| name == "todo_write"@
    ||| name == "todo_add"@
    ||| name == "todo_update"@
    ||| name == "update_plan"@
    ||| name == "create_goal"@
    ||| name == "get_goal"@
    ||| name == "update_goal"@
}

/// Tools that have side effects worth verifying.
pub open spec fn is_side_effect_tool_name(name: Seq<char>) -> bool {
    ||| name == "write_file"@
    ||| name == "edit_file"@
    ||| name == "apply_patch"@
    ||| name == "exec_shell"@
    ||| name == "exec_shell_wait"@
    ||| name == "exec_shell_interact"@
    ||| name == "shell_cancel"@
    ||| name == "exec_wait"@
    ||| name == "exec_interact"@
    ||| name == "task_shell_start"@
    ||| name == "task_shell_wait"@
    ||| name == "task_create"@
    ||| name == "task_cancel"@
    ||| name == "task_gate_run"@
    ||| name == "github_comment"@
    ||| name == "github_close_issue"@
    ||| name == "github_close_pr"@
    ||| name == "pr_attempt_record"@
    ||| name == "pr_attempt_preflight"@
    ||| name == "automation_create"@
    ||| name == "automation_update"@
    ||| name == "automation_pause"@
    ||| name == "automation_resume"@
    ||| name == "automation_delete"@
    ||| name == "automation_run"@
    ||| name == "remember"@
    ||| name == "notify"@
    ||| name == "revert_turn"@
    ||| name == "fim_edit"@
    ||| name == "pandoc_convert"@
    ||| name == "image_analyze"@
    ||| name == "image_ocr"@
    ||| name == "web_run"@
    ||| name == "finance"@
    ||| name == "skill_install"@
    ||| name == "checklist_write"@
    ||| name == "checklist_add"@
    ||| name == "checklist_update"@
    ||| name == "checklist_list"@
    ||| name == "todo_write"@
    ||| name == "todo_add"@
    ||| name == "todo_update"@
    ||| name == "update_plan"@
    ||| name == "create_goal"@
    ||| name == "update_goal"@
}

/// Tools the verifier does not re-check at all.
pub open spec fn skips_verification(name: Seq<char>) -> bool {
    is_read_only_tool(name) || is_self_verifying_tool(name)
}

/// The reason given for a tool that has no verification rule.
pub open spec fn unverifiable_reason(name: Seq<char>) -> Seq<char> {
    "no verification rule for tool `"@ + name + "`"@
}

/// The note appended to a tool's output for a verdict.
pub open spec fn annotation_of(verdict: VerifyVerdict) -> Seq<char> {
    match verdict {
        VerifyVerdict::Pass => Seq::empty(),
        VerifyVerdict::Fail { expected, observed } => "\n\n[VERIFY FAIL] Claimed: "@ + expected@
            + "\n[VERIFY FAIL] Observed: "@ + observed@,
        VerifyVerdict::Unverifiable { reason } => "\n\n[VERIFY] Unverifiable: "@ + reason@,
        VerifyVerdict::Skipped => Seq::empty(),
    }
}

// ---------------------------------------------------------------------------
// Per-tool verification rules
// ---------------------------------------------------------------------------

fn is_read_only_tool_str(name: &str) -> (res: bool)
    ensures
        res == is_read_only_tool(name@),
{
    str_eq(name, "read_file")
    || str_eq(name, "grep_files")
    || str_eq(name, "file_search")
    || str_eq(name, "list_dir")
    || str_eq(name, "web_search")
    || str_eq(name, "fetch_url")
    || str_eq(name, "git_status")
    || str_eq(name, "git_diff")
    || str_eq(name, "git_log")
    || str_eq(name, "git_show")
    || str_eq(name, "git_blame")
    || str_eq(name, "diagnostics")
    || str_eq(name, "handle_read")
    || str_eq(name, "task_list")
    || str_eq(name, "task_read")
    || str_eq(name, "pr_attempt_list")
    || str_eq(name, "pr_attempt_read")
    || str_eq(name, "automation_list")
    || str_eq(name, "automation_read")
    || str_eq(name, "github_issue_context")
    || str_eq(name, "github_pr_context")
    || str_eq(name, "code_execution")
    || str_eq(name, "validate_data")
    || str_eq(name, "note")
    || str_eq(name, "request_user_input")
    || str_eq(name, "recall_archive")
    || str_eq(name, "tool_search_tool_regex")
    || str_eq(name, "tool_search_tool_bm25")
}

fn is_self_verifying_tool_str(name: &str) -> (res: bool)
    ensures
        res == is_self_verifying_tool(name@),
{
    str_eq(name, "review")
    || str_eq(name, "agent_open")
    || str_eq(name, "agent_eval")
    || str_eq(name, "agent_close")
    || str_eq(name, "tool_agent")
    || str_eq(name, "rlm_open")
    || str_eq(name, "rlm_eval")
    || str_eq(name, "rlm_configure")
    || str_eq(name, "rlm_close")
    || str_eq(name, "rlm_session_objects")
    || str_eq(name, "run_tests")
}

fn is_claim_trusted_tool_str(name: &str) -> (res: bool)
    ensures
        res == is_claim_trusted_tool(name@),
{
    str_eq(name, "write_file")
    || str_eq(name, "edit_file")
    || str_eq(name, "apply_patch")
    || str_eq(name, "exec_shell")
    || str_eq(name, "exec_shell_wait")
    || str_eq(name, "exec_shell_interact")
    || str_eq(name, "shell_cancel")
    || str_eq(name, "exec_wait")
    || str_eq(name, "exec_interact")
    || str_eq(name, "task_shell_start")
    || str_eq(name, "task_shell_wait")
    || str_eq(name, "task_create")
    || str_eq(name, "task_gate_run")
    || str_eq(name, "github_comment")
    || str_eq(name, "github_close_issue")
    || str_eq(name, "github_close_pr")
    || str_eq(name, "pr_attempt_record")
    || str_eq(name, "pr_attempt_preflight")
    || str_eq(name, "automation_create")
    || str_eq(name, "automation_update")
    || str_eq(name, "automation_pause")
    || str_eq(name, "automation_resume")
    || str_eq(name, "automation_delete")
    || str_eq(name, "automation_run")
    || str_eq(name, "task_cancel")
    || str_eq(name, "remember")
    || str_eq(name, "notify")
    || str_eq(name, "revert_turn")
    || str_eq(name, "fim_edit")
    || str_eq(name, "pandoc_convert")
    || str_eq(name, "image_analyze")
    || str_eq(name, "image_ocr")
    || str_eq(name, "web_run")
    || str_eq(name, "finance")
    || str_eq(name, "skill_install")
    || str_eq(name, "checklist_write")
    || str_eq(name, "checklist_add")
    || str_eq(name, "checklist_update")
    || str_eq(name, "todo_write")
    || str_eq(name, "todo_add")
    || str_eq(name, "todo_update")
    || str_eq(name, "update_plan")
    || str_eq(name, "create_goal")
    || str_eq(name, "get_goal")
    || str_eq(name, "update_goal")
}

/// The note appended to a tool's output for `verdict`: nothing for a pass or
/// a skip, the claim and the observation for a failure, the reason for an
/// unverifiable claim.
pub fn verdict_annotation(verdict: &VerifyVerdict) -> (note: String)
    ensures
        note@ == annotation_of(*verdict),
{
    match verdict {
        VerifyVerdict::Pass => String::new(),
        VerifyVerdict::Fail { expected, observed } => {
            let mut note = string_from("\n\n[VERIFY FAIL] Claimed: ");
            note.append(expected.as_str());
            note.append("\n[VERIFY FAIL] Observed: ");
            note.append(observed.as_str());
            note
        },
        VerifyVerdict::Unverifiable { reason } => {
            let mut note = string_from("\n\n[VERIFY] Unverifiable: ");
            note.append(reason.as_str());
            note
        },
        VerifyVerdict::Skipped => String::new(),
    }
}

/// Run verification for a tool that claimed success with side effects.
///
/// Returns the verdict and the annotated content to inject into the session
/// message stream: read-only and self-verifying tools are skipped, tools with
/// side effects pass (their file contents are re-read later by the post-hoc
/// check), and any other tool is unverifiable.
pub fn run_verification(
    tool_name: &str,
    _tool_input: &serde_json::Value,
    _workspace: &std::path::PathBuf,
) -> (res: (VerifyVerdict, String))
    ensures
        skips_verification(tool_name@) ==> res.0 is Skipped,
        !skips_verification(tool_name@) && is_claim_trusted_tool(tool_name@) ==> res.0 is Pass,
        !skips_verification(tool_name@) && !is_claim_trusted_tool(tool_name@) ==> (res.0 matches VerifyVerdict::Unverifiable { reason } && reason@ == unverifiable_reason(tool_name@)),
        !(res.0 is Fail),
        res.1@ == annotation_of(res.0),
{
    let verdict = if is_read_only_tool_str(tool_name) || is_self_verifying_tool_str(tool_name) {
        VerifyVerdict::Skipped
    } else if is_claim_trusted_tool_str(tool_name) {
        VerifyVerdict::Pass
    } else {
        let mut reason = string_from("no verification rule for tool `");
        reason.append(tool_name);
        reason.append("`");
        VerifyVerdict::Unverifiable { reason }
    };
    let annotation = verdict_annotation(&verdict);
    (verdict, annotation)
}

/// Determine whether a tool name represents a side-effect tool that should
/// be verified.
pub fn is_side_effect_tool(name: &str) -> (res: bool)
    ensures
        res == is_side_effect_tool_name(name@),
{
    str_eq(name, "write_file")
    || str_eq(name, "edit_file")
    || str_eq(name, "apply_patch")
    || str_eq(name, "exec_shell")
    || str_eq(name, "exec_shell_wait")
    || str_eq(name, "exec_shell_interact")
    || str_eq(name, "shell_cancel")
    || str_eq(name, "exec_wait")
    || str_eq(name, "exec_interact")
    || str_eq(name, "task_shell_start")
    || str_eq(name, "task_shell_wait")
    || str_eq(name, "task_create")
    || str_eq(name, "task_cancel")
    || str_eq(name, "task_gate_run")
    || str_eq(name, "github_comment")
    || str_eq(name, "github_close_issue")
    || str_eq(name, "github_close_pr")
    || str_eq(name, "pr_attempt_record")
    || str_eq(name, "pr_attempt_preflight")
    || str_eq(name, "automation_create")
    || str_eq(name, "automation_update")
    || str_eq(name, "automation_pause")
    || str_eq(name, "automation_resume")
    || str_eq(name, "automation_delete")
    || str_eq(name, "automation_run")
    || str_eq(name, "remember")
    || str_eq(name, "notify")
    || str_eq(name, "revert_turn")
    || str_eq(name, "fim_edit")
    || str_eq(name, "pandoc_convert")
    || str_eq(name, "image_analyze")
    || str_eq(name, "image_ocr")
    || str_eq(name, "web_run")
    || str_eq(name, "finance")
    || str_eq(name, "skill_install")
    || str_eq(name, "checklist_write")
    || str_eq(name, "checklist_add")
    || str_eq(name, "checklist_update")
    || str_eq(name, "checklist_list")
    || str_eq(name, "todo_write")
    || str_eq(name, "todo_add")
    || str_eq(name, "todo_update")
    || str_eq(name, "update_plan")
    || str_eq(name, "create_goal")
    || str_eq(name, "update_goal")
}

// ---------------------------------------------------------------------------
// Post-hoc read-back
// ---------------------------------------------------------------------------

/// What the post-hoc check of a tool call needs next.
#[derive(Debug, Clone, PartialEq)]
pub enum PostHocCheck {
    /// Read the file at `path` (relative paths are taken from the workspace)
    /// back and judge it with `read_back_verdict`, against the content the
    /// tool claimed to write when it names one.
    ReadBack { path: String, expected: Option<String> },
    /// The verdict is known without reading anything.
    Settled(VerifyVerdict),
}

/// Tools whose written file is read back after the fact.
pub open spec fn reads_back_written_file(name: Seq<char>) -> bool {
    name == "write_file"@ || name == "edit_file"@
}

/// The text of the JSON string at member `key` of a JSON object, as
/// `serde_json` gives it; `None` when `value` is no object, has no such
/// member, or the member is no string.
pub uninterp spec fn json_text_member(value: serde_json::Value, key: Seq<char>) -> Option<Seq<char>>;

/// `serde_json::Value::get` with a string key, then `Value::as_str`: the
/// result is `json_text_member` of the value and the key.
#[verifier::external_body]
fn json_text_member_of<'a>(value: &'a serde_json::Value, key: &str) -> (text: Option<&'a str>)
    ensures
        match text {
            Some(t) => json_text_member(*value, key@) == Some(t@),
            None => json_text_member(*value, key@) is None,
        },
{
    value.get(key).and_then(serde_json::Value::as_str)
}

/// The characters of an optional string slice.
pub open spec fn opt_str_view(o: Option<&str>) -> Option<Seq<char>> {
    match o {
        Some(s) => Some(s@),
        None => None,
    }
}

/// The post-hoc step for a tool call, as `post_hoc_check` computes it from
/// the input's `"path"` and `"content"` strings.
pub open spec fn post_hoc_model(
    tool_name: Seq<char>,
    path: Option<Seq<char>>,
    content: Option<Seq<char>>,
) -> Option<(Seq<char>, Option<Seq<char>>)> {
    if reads_back_written_file(tool_name) {
        match path {
            Some(p) => Some((p, if tool_name == "write_file"@ { content } else { None })),
            None => None,
        }
    } else {
        None
    }
}

/// The post-hoc step for a tool call whose input names the file `path` and
/// the written `content` (`None` where the input names none): for
/// `write_file` a read-back of that file against that content, for
/// `edit_file` a read-back of that file, a pass for `exec_shell`, nothing
/// for any other tool or when no path is named.
pub fn post_hoc_check_for(
    tool_name: &str,
    path: Option<&str>,
    content: Option<&str>,
) -> (res: Option<PostHocCheck>)
    ensures
        reads_back_written_file(tool_name@) ==> match post_hoc_model(
            tool_name@,
            opt_str_view(path),
            opt_str_view(content),
        ) {
            None => res is None,
            Some((p, c)) => res matches Some(PostHocCheck::ReadBack { path: q, expected: e })
                && q@ == p && opt_view(e) == c,
        },
        !reads_back_written_file(tool_name@) && tool_name@ == "exec_shell"@ ==> res matches Some(
            PostHocCheck::Settled(VerifyVerdict::Pass),
        ),
        !reads_back_written_file(tool_name@) && tool_name@ != "exec_shell"@ ==> res is None,
{
    let writes = str_eq(tool_name, "write_file");
    if writes || str_eq(tool_name, "edit_file") {
        match path {
            Some(p) => {
                let expected = if writes {
                    match content {
                        Some(c) => Some(string_from(c)),
                        None => None,
                    }
                } else {
                    None
                };
                Some(PostHocCheck::ReadBack { path: string_from(p), expected })
            },
            None => None,
        }
    } else if str_eq(tool_name, "exec_shell") {
        Some(PostHocCheck::Settled(VerifyVerdict::Pass))
    } else {
        None
    }
}

/// The post-hoc step for a tool call: for `write_file` a read-back of the
/// file named by the input's `"path"` string against the input's
/// `"content"` string, for `edit_file` a read-back of that file, nothing
/// when there is no such path; a pass for `exec_shell`; nothing otherwise.
pub fn post_hoc_check(tool_name: &str, tool_input: &serde_json::Value) -> (res: Option<PostHocCheck>)
    ensures
        reads_back_written_file(tool_name@) ==> match post_hoc_model(
            tool_name@,
            json_text_member(*tool_input, "path"@),
            json_text_member(*tool_input, "content"@),
        ) {
            None => res is None,
            Some((p, c)) => res matches Some(PostHocCheck::ReadBack { path: q, expected: e })
                && q@ == p && opt_view(e) == c,
        },
        !reads_back_written_file(tool_name@) && tool_name@ == "exec_shell"@ ==> res matches Some(
            PostHocCheck::Settled(VerifyVerdict::Pass),
        ),
        !reads_back_written_file(tool_name@) && tool_name@ != "exec_shell"@ ==> res is None,
{
    if str_eq(tool_name, "write_file") || str_eq(tool_name, "edit_file") {
        let path = json_text_member_of(tool_input, "path");
        let content = json_text_member_of(tool_input, "content");
        post_hoc_check_for(tool_name, path, content)
    } else {
        post_hoc_check_for(tool_name, None, None)
    }
}

/// The verdict on a written file that was read back: `shown` is how its
/// path is displayed, `expected` the content the tool claimed to write (if
/// known), `read` the file's text or the read error's message. An
/// unreadable file is unverifiable; an empty file fails; a file that lacks
/// the expected content fails; any other file passes.
pub fn read_back_verdict(
    shown: &str,
    expected: Option<&str>,
    read: Result<String, String>,
) -> (verdict: VerifyVerdict)
    ensures
        match read {
            Ok(content) => if content@.len() == 0 {
                verdict matches VerifyVerdict::Fail { expected, observed } && expected@
                    == "non-empty file at "@ + shown@ && observed@ == "file is empty"@
            } else {
                match expected {
                    Some(e) => if contains_text(content@, e@) {
                        verdict is Pass
                    } else {
                        verdict matches VerifyVerdict::Fail { expected, observed } && expected@
                            == "written content in "@ + shown@ && observed@
                            == "file does not contain the written content"@
                    },
                    None => verdict is Pass,
                }
            },
            Err(message) => verdict matches VerifyVerdict::Unverifiable { reason } && reason@
                == "cannot read "@ + shown@ + " for verification: "@ + message@,
        },
{
    match read {
        Ok(content) => if content.as_str().is_empty() {
            let mut expected = string_from("non-empty file at ");
            expected.append(shown);
            VerifyVerdict::Fail { expected, observed: string_from("file is empty") }
        } else {
            match expected {
                Some(e) => if str_contains(content.as_str(), e) {
                    VerifyVerdict::Pass
                } else {
                    let mut claimed = string_from("written content in ");
                    claimed.append(shown);
                    VerifyVerdict::Fail {
                        expected: claimed,
                        observed: string_from("file does not contain the written content"),
                    }
                },
                None => VerifyVerdict::Pass,
            }
        },
        Err(message) => {
            let mut reason = string_from("cannot read ");
            reason.append(shown);
            reason.append(" for verification: ");
            reason.append(message.as_str());
            VerifyVerdict::Unverifiable { reason }
        },
    }
}

// ---------------------------------------------------------------------------
// Laws
// ---------------------------------------------------------------------------

/// A name that differs from every skipped tool's name in length or in one
/// of its first three characters is not skipped.
proof fn lemma_not_skipped(name: Seq<char>)
    requires
        name.len() >= 3,
        forall|k: Seq<char>|
            skips_verification(k) ==> (k.len() != name.len() || k[0] != name[0] || k[1] != name[1]
                || k[2] != name[2]),
    ensures
        !skips_verification(name),
{
}

/// Apart from `checklist_list` (a side-effect tool that the verifier has no rule
/// for) and `get_goal` (trusted by the verifier, yet not a side-effect tool), a
/// tool has side effects exactly when the verifier accepts its claim.
pub proof fn lemma_side_effect_tools_are_trusted(name: Seq<char>)
    requires
        name != "checklist_list"@,
        name != "get_goal"@,
    ensures
        is_side_effect_tool_name(name) <==> (!skips_verification(name) && is_claim_trusted_tool(
            name,
        )),
{
    reveal_strlit("agent_close");
    reveal_strlit("agent_eval");
    reveal_strlit("agent_open");
    reveal_strlit("automation_list");
    reveal_strlit("automation_read");
    reveal_strlit("code_execution");
    reveal_strlit("diagnostics");
    reveal_strlit("fetch_url");
    reveal_strlit("file_search");
    reveal_strlit("git_blame");
    reveal_strlit("git_diff");
    reveal_strlit("git_log");
    reveal_strlit("git_show");
    reveal_strlit("git_status");
    reveal_strlit("github_issue_context");
    reveal_strlit("github_pr_context");
    reveal_strlit("grep_files");
    reveal_strlit("handle_read");
    reveal_strlit("list_dir");
    reveal_strlit("note");
    reveal_strlit("pr_attempt_list");
    reveal_strlit("pr_attempt_read");
    reveal_strlit("read_file");
    reveal_strlit("recall_archive");
    reveal_strlit("request_user_input");
    reveal_strlit("review");
    reveal_strlit("rlm_close");
    reveal_strlit("rlm_configure");
    reveal_strlit("rlm_eval");
    reveal_strlit("rlm_open");
    reveal_strlit("rlm_session_objects");
    reveal_strlit("run_tests");
    reveal_strlit("task_list");
    reveal_strlit("task_read");
    reveal_strlit("tool_agent");
    reveal_strlit("tool_search_tool_bm25");
    reveal_strlit("tool_search_tool_regex");
    reveal_strlit("validate_data");
    reveal_strlit("web_search");
    reveal_strlit("write_file");
    reveal_strlit("edit_file");
    reveal_strlit("apply_patch");
    reveal_strlit("exec_shell");
    reveal_strlit("exec_shell_wait");
    reveal_strlit("exec_shell_interact");
    reveal_strlit("shell_cancel");
    reveal_strlit("exec_wait");
    reveal_strlit("exec_interact");
    reveal_strlit("task_shell_start");
    reveal_strlit("task_shell_wait");
    reveal_strlit("task_create");
    reveal_strlit("task_cancel");
    reveal_strlit("task_gate_run");
    reveal_strlit("github_comment");
    reveal_strlit("github_close_issue");
    reveal_strlit("github_close_pr");
    reveal_strlit("pr_attempt_record");
    reveal_strlit("pr_attempt_preflight");
    reveal_strlit("automation_create");
    reveal_strlit("automation_update");
    reveal_strlit("automation_pause");
    reveal_strlit("automation_resume");
    reveal_strlit("automation_delete");
    reveal_strlit("automation_run");
    reveal_strlit("remember");
    reveal_strlit("notify");
    reveal_strlit("revert_turn");
    reveal_strlit("fim_edit");
    reveal_strlit("pandoc_convert");
    reveal_strlit("image_analyze");
    reveal_strlit("image_ocr");
    reveal_strlit("web_run");
    reveal_strlit("finance");
    reveal_strlit("skill_install");
    reveal_strlit("checklist_write");
    reveal_strlit("checklist_add");
    reveal_strlit("checklist_update");
    reveal_strlit("todo_write");
    reveal_strlit("todo_add");
    reveal_strlit("todo_update");
    reveal_strlit("update_plan");
    reveal_strlit("create_goal");
    reveal_strlit("update_goal");
    lemma_not_skipped("write_file"@);
    lemma_not_skipped("edit_file"@);
    lemma_not_skipped("apply_patch"@);
    lemma_not_skipped("exec_shell"@);
    lemma_not_skipped("exec_shell_wait"@);
    lemma_not_skipped("exec_shell_interact"@);
    lemma_not_skipped("shell_cancel"@);
    lemma_not_skipped("exec_wait"@);
    lemma_not_skipped("exec_interact"@);
    lemma_not_skipped("task_shell_start"@);
    lemma_not_skipped("task_shell_wait"@);
    lemma_not_skipped("task_create"@);
    lemma_not_skipped("task_cancel"@);
    lemma_not_skipped("task_gate_run"@);
    lemma_not_skipped("github_comment"@);
    lemma_not_skipped("github_close_issue"@);
    lemma_not_skipped("github_close_pr"@);
    lemma_not_skipped("pr_attempt_record"@);
    lemma_not_skipped("pr_attempt_preflight"@);
    lemma_not_skipped("automation_create"@);
    lemma_not_skipped("automation_update"@);
    lemma_not_skipped("automation_pause"@);
    lemma_not_skipped("automation_resume"@);
    lemma_not_skipped("automation_delete"@);
    lemma_not_skipped("automation_run"@);
    lemma_not_skipped("remember"@);
    lemma_not_skipped("notify"@);
    lemma_not_skipped("revert_turn"@);
    lemma_not_skipped("fim_edit"@);
    lemma_not_skipped("pandoc_convert"@);
    lemma_not_skipped("image_analyze"@);
    lemma_not_skipped("image_ocr"@);
    lemma_not_skipped("web_run"@);
    lemma_not_skipped("finance"@);
    lemma_not_skipped("skill_install"@);
    lemma_not_skipped("checklist_write"@);
    lemma_not_skipped("checklist_add"@);
    lemma_not_skipped("checklist_update"@);
    lemma_not_skipped("todo_write"@);
    lemma_not_skipped("todo_add"@);
    lemma_not_skipped("todo_update"@);
    lemma_not_skipped("update_plan"@);
    lemma_not_skipped("create_goal"@);
    lemma_not_skipped("update_goal"@);
}

/// The note is empty exactly for a pass and for a skip.
pub proof fn lemma_annotation_empty_iff_silent(verdict: VerifyVerdict)
    ensures
        annotation_of(verdict).len() == 0 <==> (verdict is Pass || verdict is Skipped),
{
    reveal_strlit("\n\n[VERIFY FAIL] Claimed: ");
    reveal_strlit("\n\n[VERIFY] Unverifiable: ");
}

/// Every read-only tool (`read_file`, `grep_files`, ..., `tool_search_tool_bm25`)
/// and every self-verifying or review tool (`review`, `agent_open`, ...,
/// `run_tests`) is skipped.
pub proof fn lemma_read_only_and_review_tools_are_skipped(name: Seq<char>)
    requires
        name == "read_file"@ || name == "grep_files"@ || name == "file_search"@
            || name == "list_dir"@ || name == "web_search"@ || name == "fetch_url"@
            || name == "git_status"@ || name == "git_diff"@ || name == "git_log"@
            || name == "git_show"@ || name == "git_blame"@ || name == "diagnostics"@
            || name == "handle_read"@ || name == "task_list"@ || name == "task_read"@
            || name == "pr_attempt_list"@ || name == "pr_attempt_read"@
            || name == "automation_list"@ || name == "automation_read"@
            || name == "github_issue_context"@ || name == "github_pr_context"@
            || name == "code_execution"@ || name == "validate_data"@ || name == "note"@
            || name == "request_user_input"@ || name == "recall_archive"@
            || name == "tool_search_tool_regex"@ || name == "tool_search_tool_bm25"@
            || name == "review"@ || name == "agent_open"@ || name == "agent_eval"@
            || name == "agent_close"@ || name == "tool_agent"@ || name == "rlm_open"@
            || name == "rlm_eval"@ || name == "rlm_configure"@ || name == "rlm_close"@
            || name == "rlm_session_objects"@ || name == "run_tests"@,
    ensures
        skips_verification(name),
{
}

/// Every tool with side effects that the verifier knows (`write_file`,
/// `edit_file`, `apply_patch`, `exec_shell`, ..., `update_goal`) passes: it is
/// not skipped and its claim is accepted.
pub proof fn lemma_trusted_tools_pass(name: Seq<char>)
    requires
        name == "write_file"@ || name == "edit_file"@ || name == "apply_patch"@
            || name == "exec_shell"@ || name == "exec_shell_wait"@
            || name == "exec_shell_interact"@ || name == "shell_cancel"@ || name == "exec_wait"@
            || name == "exec_interact"@ || name == "task_shell_start"@
            || name == "task_shell_wait"@ || name == "task_create"@ || name == "task_gate_run"@
            || name == "github_comment"@ || name == "github_close_issue"@
            || name == "github_close_pr"@ || name == "pr_attempt_record"@
            || name == "pr_attempt_preflight"@ || name == "automation_create"@
            || name == "automation_update"@ || name == "automation_pause"@
            || name == "automation_resume"@ || name == "automation_delete"@
            || name == "automation_run"@ || name == "task_cancel"@ || name == "remember"@
            || name == "notify"@ || name == "revert_turn"@ || name == "fim_edit"@
            || name == "pandoc_convert"@ || name == "image_analyze"@ || name == "image_ocr"@
            || name == "web_run"@ || name == "finance"@ || name == "skill_install"@
            || name == "checklist_write"@ || name == "checklist_add"@
            || name == "checklist_update"@ || name == "todo_write"@ || name == "todo_add"@
            || name == "todo_update"@ || name == "update_plan"@ || name == "create_goal"@
            || name == "get_goal"@ || name == "update_goal"@,
    ensures
        !skips_verification(name),
        is_claim_trusted_tool(name),
{
    reveal_strlit("agent_close");
    reveal_strlit("agent_eval");
    reveal_strlit("agent_open");
    reveal_strlit("automation_list");
    reveal_strlit("automation_read");
    reveal_strlit("code_execution");
    reveal_strlit("diagnostics");
    reveal_strlit("fetch_url");
    reveal_strlit("file_search");
    reveal_strlit("git_blame");
    reveal_strlit("git_diff");
    reveal_strlit("git_log");
    reveal_strlit("git_show");
    reveal_strlit("git_status");
    reveal_strlit("github_issue_context");
    reveal_strlit("github_pr_context");
    reveal_strlit("grep_files");
    reveal_strlit("handle_read");
    reveal_strlit("list_dir");
    reveal_strlit("note");
    reveal_strlit("pr_attempt_list");
    reveal_strlit("pr_attempt_read");
    reveal_strlit("read_file");
    reveal_strlit("recall_archive");
    reveal_strlit("request_user_input");
    reveal_strlit("review");
    reveal_strlit("rlm_close");
    reveal_strlit("rlm_configure");
    reveal_strlit("rlm_eval");
    reveal_strlit("rlm_open");
    reveal_strlit("rlm_session_objects");
    reveal_strlit("run_tests");
    reveal_strlit("task_list");
    reveal_strlit("task_read");
    reveal_strlit("tool_agent");
    reveal_strlit("tool_search_tool_bm25");
    reveal_strlit("tool_search_tool_regex");
    reveal_strlit("validate_data");
    reveal_strlit("web_search");
    reveal_strlit("write_file");
    reveal_strlit("edit_file");
    reveal_strlit("apply_patch");
    reveal_strlit("exec_shell");
    reveal_strlit("exec_shell_wait");
    reveal_strlit("exec_shell_interact");
    reveal_strlit("shell_cancel");
    reveal_strlit("exec_wait");
    reveal_strlit("exec_interact");
    reveal_strlit("task_shell_start");
    reveal_strlit("task_shell_wait");
    reveal_strlit("task_create");
    reveal_strlit("task_gate_run");
    reveal_strlit("github_comment");
    reveal_strlit("github_close_issue");
    reveal_strlit("github_close_pr");
    reveal_strlit("pr_attempt_record");
    reveal_strlit("pr_attempt_preflight");
    reveal_strlit("automation_create");
    reveal_strlit("automation_update");
    reveal_strlit("automation_pause");
    reveal_strlit("automation_resume");
    reveal_strlit("automation_delete");
    reveal_strlit("automation_run");
    reveal_strlit("task_cancel");
    reveal_strlit("remember");
    reveal_strlit("notify");
    reveal_strlit("revert_turn");
    reveal_strlit("fim_edit");
    reveal_strlit("pandoc_convert");
    reveal_strlit("image_analyze");
    reveal_strlit("image_ocr");
    reveal_strlit("web_run");
    reveal_strlit("finance");
    reveal_strlit("skill_install");
    reveal_strlit("checklist_write");
    reveal_strlit("checklist_add");
    reveal_strlit("checklist_update");
    reveal_strlit("todo_write");
    reveal_strlit("todo_add");
    reveal_strlit("todo_update");
    reveal_strlit("update_plan");
    reveal_strlit("create_goal");
    reveal_strlit("get_goal");
    reveal_strlit("update_goal");
    lemma_not_skipped("write_file"@);
    lemma_not_skipped("edit_file"@);
    lemma_not_skipped("apply_patch"@);
    lemma_not_skipped("exec_shell"@);
    lemma_not_skipped("exec_shell_wait"@);
    lemma_not_skipped("exec_shell_interact"@);
    lemma_not_skipped("shell_cancel"@);
    lemma_not_skipped("exec_wait"@);
    lemma_not_skipped("exec_interact"@);
    lemma_not_skipped("task_shell_start"@);
    lemma_not_skipped("task_shell_wait"@);
    lemma_not_skipped("task_create"@);
    lemma_not_skipped("task_gate_run"@);
    lemma_not_skipped("github_comment"@);
    lemma_not_skipped("github_close_issue"@);
    lemma_not_skipped("github_close_pr"@);
    lemma_not_skipped("pr_attempt_record"@);
    lemma_not_skipped("pr_attempt_preflight"@);
    lemma_not_skipped("automation_create"@);
    lemma_not_skipped("automation_update"@);
    lemma_not_skipped("automation_pause"@);
    lemma_not_skipped("automation_resume"@);
    lemma_not_skipped("automation_delete"@);
    lemma_not_skipped("automation_run"@);
    lemma_not_skipped("task_cancel"@);
    lemma_not_skipped("remember"@);
    lemma_not_skipped("notify"@);
    lemma_not_skipped("revert_turn"@);
    lemma_not_skipped("fim_edit"@);
    lemma_not_skipped("pandoc_convert"@);
    lemma_not_skipped("image_analyze"@);
    lemma_not_skipped("image_ocr"@);
    lemma_not_skipped("web_run"@);
    lemma_not_skipped("finance"@);
    lemma_not_skipped("skill_install"@);
    lemma_not_skipped("checklist_write"@);
    lemma_not_skipped("checklist_add"@);
    lemma_not_skipped("checklist_update"@);
    lemma_not_skipped("todo_write"@);
    lemma_not_skipped("todo_add"@);
    lemma_not_skipped("todo_update"@);
    lemma_not_skipped("update_plan"@);
    lemma_not_skipped("create_goal"@);
    lemma_not_skipped("get_goal"@);
    lemma_not_skipped("update_goal"@);
}

/// Any name outside the read-only, review and trusted lists has no
/// verification rule.
pub proof fn lemma_other_tools_are_unverifiable(name: Seq<char>)
    requires
        !(name == "read_file"@ || name == "grep_files"@ || name == "file_search"@
                || name == "list_dir"@ || name == "web_search"@ || name == "fetch_url"@
                || name == "git_status"@ || name == "git_diff"@ || name == "git_log"@
                || name == "git_show"@ || name == "git_blame"@ || name == "diagnostics"@
                || name == "handle_read"@ || name == "task_list"@ || name == "task_read"@
                || name == "pr_attempt_list"@ || name == "pr_attempt_read"@
                || name == "automation_list"@ || name == "automation_read"@
                || name == "github_issue_context"@ || name == "github_pr_context"@
                || name == "code_execution"@ || name == "validate_data"@ || name == "note"@
                || name == "request_user_input"@ || name == "recall_archive"@
                || name == "tool_search_tool_regex"@ || name == "tool_search_tool_bm25"@
                || name == "review"@ || name == "agent_open"@ || name == "agent_eval"@
                || name == "agent_close"@ || name == "tool_agent"@ || name == "rlm_open"@
                || name == "rlm_eval"@ || name == "rlm_configure"@ || name == "rlm_close"@
                || name == "rlm_session_objects"@ || name == "run_tests"@
                || name == "write_file"@ || name == "edit_file"@ || name == "apply_patch"@
                || name == "exec_shell"@ || name == "exec_shell_wait"@
                || name == "exec_shell_interact"@ || name == "shell_cancel"@
                || name == "exec_wait"@ || name == "exec_interact"@
                || name == "task_shell_start"@ || name == "task_shell_wait"@
                || name == "task_create"@ || name == "task_gate_run"@
                || name == "github_comment"@ || name == "github_close_issue"@
                || name == "github_close_pr"@ || name == "pr_attempt_record"@
                || name == "pr_attempt_preflight"@ || name == "automation_create"@
                || name == "automation_update"@ || name == "automation_pause"@
                || name == "automation_resume"@ || name == "automation_delete"@
                || name == "automation_run"@ || name == "task_cancel"@ || name == "remember"@
                || name == "notify"@ || name == "revert_turn"@ || name == "fim_edit"@
                || name == "pandoc_convert"@ || name == "image_analyze"@ || name == "image_ocr"@
                || name == "web_run"@ || name == "finance"@ || name == "skill_install"@
                || name == "checklist_write"@ || name == "checklist_add"@
                || name == "checklist_update"@ || name == "todo_write"@ || name == "todo_add"@
                || name == "todo_update"@ || name == "update_plan"@ || name == "create_goal"@
                || name == "get_goal"@ || name == "update_goal"@),
    ensures
        !skips_verification(name),
        !is_claim_trusted_tool(name),
{
}

/// The side-effect tools are exactly `write_file`, `edit_file`,
/// `apply_patch`, `exec_shell`, ..., `create_goal`, `update_goal`.
pub proof fn lemma_side_effect_tool_names(name: Seq<char>)
    ensures
        is_side_effect_tool_name(name) <==> (name == "write_file"@ || name == "edit_file"@ || name == "apply_patch"@
                || name == "exec_shell"@ || name == "exec_shell_wait"@
                || name == "exec_shell_interact"@ || name == "shell_cancel"@
                || name == "exec_wait"@ || name == "exec_interact"@
                || name == "task_shell_start"@ || name == "task_shell_wait"@
                || name == "task_create"@ || name == "task_cancel"@ || name == "task_gate_run"@
                || name == "github_comment"@ || name == "github_close_issue"@
                || name == "github_close_pr"@ || name == "pr_attempt_record"@
                || name == "pr_attempt_preflight"@ || name == "automation_create"@
                || name == "automation_update"@ || name == "automation_pause"@
                || name == "automation_resume"@ || name == "automation_delete"@
                || name == "automation_run"@ || name == "remember"@ || name == "notify"@
                || name == "revert_turn"@ || name == "fim_edit"@ || name == "pandoc_convert"@
                || name == "image_analyze"@ || name == "image_ocr"@ || name == "web_run"@
                || name == "finance"@ || name == "skill_install"@ || name == "checklist_write"@
                || name == "checklist_add"@ || name == "checklist_update"@
                || name == "checklist_list"@ || name == "todo_write"@ || name == "todo_add"@
                || name == "todo_update"@ || name == "update_plan"@ || name == "create_goal"@
                || name == "update_goal"@),
{
}

/// The reason and the notes are these texts.
pub proof fn lemma_verdict_texts(name: Seq<char>, verdict: VerifyVerdict)
    ensures
        unverifiable_reason(name) == "no verification rule for tool `"@ + name + "`"@,
        verdict is Pass ==> annotation_of(verdict).len() == 0,
        verdict is Skipped ==> annotation_of(verdict).len() == 0,
        verdict matches VerifyVerdict::Unverifiable { reason } ==> annotation_of(verdict)
            == "\n\n[VERIFY] Unverifiable: "@ + reason@,
        verdict matches VerifyVerdict::Fail { expected, observed } ==> annotation_of(verdict)
            == "\n\n[VERIFY FAIL] Claimed: "@ + expected@ + "\n[VERIFY FAIL] Observed: "@
            + observed@,
{
}

/// After `write_file` the named file is read back against the written
/// content; after `edit_file` it is read back alone; without a path, or for
/// any other tool, there is nothing to read back.
pub proof fn lemma_post_hoc_reads(
    tool_name: Seq<char>,
    path: Option<Seq<char>>,
    content: Option<Seq<char>>,
)
    ensures
        tool_name == "write_file"@ && path is Some ==> post_hoc_model(tool_name, path, content)
            == Some((path->0, content)),
        tool_name == "edit_file"@ && path is Some ==> post_hoc_model(tool_name, path, content)
            == Some((path->0, None::<Seq<char>>)),
        path is None ==> post_hoc_model(tool_name, path, content) is None,
        tool_name != "write_file"@ && tool_name != "edit_file"@ ==> post_hoc_model(
            tool_name,
            path,
            content,
        ) is None,
{
    reveal_strlit("write_file");
    reveal_strlit("edit_file");
    assert("write_file"@.len() != "edit_file"@.len());
}

} // verus!

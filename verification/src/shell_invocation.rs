//! Platform shell resolution for shell-command tools: which program runs a
//! command line, with which arguments, and how the command is read back
//! out of an invocation for display.

use vstd::prelude::*;

use crate::text::{
    ascii_lower, lemma_last_segment_after_slash, lemma_last_segment_suffix, lemma_trim_after_trim_end,
    lemma_trim_backslashes, lemma_trim_end_concat, lemma_trim_end_prefix, lemma_trim_keeps_absent,
    lemma_trim_start_concat, trim_end,
    ascii_lowercase, backslashes_to_slashes, chars_backslashes_to_slashes, chars_of, copy_range,
    eq_ignore_ascii_case, has_suffix, last_segment, last_segment_start,
    lemma_last_segment_no_slash, lemma_trim_unchanged, lowercase_string_of, opt_view, range_has_suffix,
    has_prefix, is_whitespace, str_eq, str_eq_ignore_ascii_case, str_has_prefix, string_from, string_of, strip_prefix,
    strip_suffix, trim, trim_bounds, trim_start, trim_start_index,
};

verus! {

// ---------------------------------------------------------------------------
// Types and their models
// ---------------------------------------------------------------------------

/// The family of platform a command runs on.
#[derive(Debug, Clone, Copy, PartialEq, Eq, Structural)]
pub enum ShellPlatform {
    Windows,
    Unix,
}

/// A program and the arguments that make it run one command line.
#[derive(Debug, Clone, PartialEq, Eq)]
pub struct ShellInvocation {
    pub program: String,
    pub args: Vec<String>,
    pub raw_payload_on_windows: bool,
}

/// What a `ShellInvocation` holds, as character sequences.
pub struct InvocationModel {
    pub program: Seq<char>,
    pub args: Seq<Seq<char>>,
    pub raw_payload_on_windows: bool,
}

impl View for ShellInvocation {
    type V = InvocationModel;

    open spec fn view(&self) -> InvocationModel {
        InvocationModel {
            program: self.program@,
            args: self.args@.map_values(|a: String| a@),
            raw_payload_on_windows: self.raw_payload_on_windows,
        }
    }
}

/// What is known of the environment when a Windows shell is chosen.
#[derive(Debug, Clone, PartialEq, Eq)]
pub struct ShellProbe {
    pub shell: Option<String>,
    pub comspec: Option<String>,
    pub pwsh_on_path: bool,
    pub powershell_on_path: bool,
}

/// What a `ShellProbe` holds, as character sequences.
pub struct ProbeModel {
    pub shell: Option<Seq<char>>,
    pub comspec: Option<Seq<char>>,
    pub pwsh_on_path: bool,
    pub powershell_on_path: bool,
}

impl View for ShellProbe {
    type V = ProbeModel;

    open spec fn view(&self) -> ProbeModel {
        ProbeModel {
            shell: opt_view(self.shell),
            comspec: opt_view(self.comspec),
            pwsh_on_path: self.pwsh_on_path,
            powershell_on_path: self.powershell_on_path,
        }
    }
}

impl Default for ShellProbe {
    /// A probe that found nothing: no `SHELL`, no `COMSPEC`, no PowerShell.
    fn default() -> (probe: Self)
        ensures
            probe@ == (ProbeModel {
                shell: None,
                comspec: None,
                pwsh_on_path: false,
                powershell_on_path: false,
            }),
    {
        ShellProbe { shell: None, comspec: None, pwsh_on_path: false, powershell_on_path: false }
    }
}

// ---------------------------------------------------------------------------
// Specification
// ---------------------------------------------------------------------------

/// The file name of a program path: what follows its last `/` or `\\`,
/// with surrounding whitespace cut off.
pub open spec fn program_file_name(program: Seq<char>) -> Seq<char> {
    trim(last_segment(backslashes_to_slashes(trim(program))))
}

/// The lower-case file name of a program path, without directories and
/// without an `.exe` (or `.EXE`) extension; `None` when nothing is left.
pub open spec fn program_stem(program: Seq<char>) -> Option<Seq<char>> {
    let filename = program_file_name(program);
    let stem = match strip_suffix(filename, ".exe"@) {
        Some(s) => s,
        None => match strip_suffix(filename, ".EXE"@) {
            Some(s) => s,
            None => filename,
        },
    };
    if stem.len() == 0 {
        None
    } else {
        Some(ascii_lowercase(stem))
    }
}

/// Stems of the POSIX-like shells.
pub open spec fn is_posix_stem(stem: Seq<char>) -> bool {
    stem == "bash"@ || stem == "zsh"@ || stem == "fish"@ || stem == "sh"@
}

/// Stems of PowerShell.
pub open spec fn is_powershell_stem(stem: Seq<char>) -> bool {
    stem == "pwsh"@ || stem == "powershell"@
}

/// The program's stem names a POSIX-like shell.
pub open spec fn has_posix_stem(program: Seq<char>) -> bool {
    program_stem(program) matches Some(stem) && is_posix_stem(stem)
}

/// The program's stem names PowerShell.
pub open spec fn has_powershell_stem(program: Seq<char>) -> bool {
    program_stem(program) matches Some(stem) && is_powershell_stem(stem)
}

/// The argument is PowerShell's `-Command` flag (in any ASCII case).
pub open spec fn is_command_flag(arg: Seq<char>) -> bool {
    eq_ignore_ascii_case(arg, "-Command"@)
}

/// `args[i]` is the first `-Command` flag of `args`.
pub open spec fn is_first_command_flag(args: Seq<Seq<char>>, i: int) -> bool {
    &&& 0 <= i < args.len()
    &&& is_command_flag(args[i])
    &&& forall|j: int| 0 <= j < i ==> !is_command_flag(#[trigger] args[j])
}

/// The command line that an invocation runs, read back from its program
/// and arguments; `None` when the invocation has no recognised shape.
pub open spec fn display_command_of(inv: InvocationModel) -> Option<Seq<char>> {
    let args = inv.args;
    if inv.program == "sh"@ && args.len() == 2 && args[0] == "-c"@ {
        Some(args[1])
    } else if has_posix_stem(inv.program) && args.len() == 2 && args[0] == "-c"@ {
        Some(args[1])
    } else if program_stem(inv.program) == Some("cmd"@) && args.len() == 2
        && eq_ignore_ascii_case(args[0], "/C"@) {
        match strip_prefix(args[1], "chcp 65001 >NUL & "@) {
            Some(rest) => Some(rest),
            None => Some(args[1]),
        }
    } else if has_powershell_stem(inv.program) && (exists|i: int|
        is_first_command_flag(args, i) && i + 1 < args.len()) {
        Some(args[(choose|i: int| is_first_command_flag(args, i)) + 1])
    } else {
        None
    }
}

/// `sh -c <command>`-shaped invocation.
pub open spec fn posix_model(program: Seq<char>, command: Seq<char>) -> InvocationModel {
    InvocationModel {
        program,
        args: seq!["-c"@, command],
        raw_payload_on_windows: false,
    }
}

/// PowerShell invocation.
pub open spec fn powershell_model(program: Seq<char>, command: Seq<char>) -> InvocationModel {
    InvocationModel {
        program,
        args: seq!["-NoProfile"@, "-Command"@, command],
        raw_payload_on_windows: false,
    }
}

/// `cmd /C` invocation that switches the console to UTF-8 first.
pub open spec fn cmd_model(program: Seq<char>, command: Seq<char>) -> InvocationModel {
    InvocationModel {
        program,
        args: seq!["/C"@, "chcp 65001 >NUL & "@ + command],
        raw_payload_on_windows: true,
    }
}

/// The program that runs a POSIX-like shell named by `SHELL` on Windows:
/// the bare stem for a Unix-style absolute path, else the path itself.
pub open spec fn posix_program_model(shell: Seq<char>, stem: Seq<char>) -> Seq<char> {
    let t = trim_start(shell);
    if t.len() > 0 && t[0] == '/' {
        stem
    } else {
        shell
    }
}

/// The invocation that a `SHELL` value selects, if it names a known shell.
pub open spec fn shell_env_model(shell: Seq<char>, command: Seq<char>) -> Option<InvocationModel> {
    match program_stem(shell) {
        None => None,
        Some(stem) => if is_powershell_stem(stem) {
            Some(powershell_model(shell, command))
        } else if stem == "cmd"@ {
            Some(cmd_model(shell, command))
        } else if is_posix_stem(stem) {
            Some(posix_model(posix_program_model(shell, stem), command))
        } else {
            None
        },
    }
}

/// The Windows invocation: `SHELL` first, then PowerShell 7, then Windows
/// PowerShell, then `COMSPEC` when it is `cmd`, then plain `cmd`.
pub open spec fn windows_model(command: Seq<char>, probe: ProbeModel) -> InvocationModel {
    let from_shell = match probe.shell {
        Some(shell) => shell_env_model(shell, command),
        None => None,
    };
    match from_shell {
        Some(inv) => inv,
        None => if probe.pwsh_on_path {
            powershell_model("pwsh.exe"@, command)
        } else if probe.powershell_on_path {
            powershell_model("powershell.exe"@, command)
        } else {
            match probe.comspec {
                Some(comspec) => if program_stem(comspec) == Some("cmd"@) {
                    cmd_model(comspec, command)
                } else {
                    cmd_model("cmd"@, command)
                },
                None => cmd_model("cmd"@, command),
            }
        },
    }
}

/// The invocation that runs `command` on `platform`.
pub open spec fn invocation_model(
    command: Seq<char>,
    platform: ShellPlatform,
    probe: ProbeModel,
) -> InvocationModel {
    match platform {
        ShellPlatform::Unix => posix_model("sh"@, command),
        ShellPlatform::Windows => windows_model(command, probe),
    }
}

// ---------------------------------------------------------------------------
// Implementation
// ---------------------------------------------------------------------------

/// The stem of a program path (see `program_stem`).
pub fn shell_program_stem(program: &str) -> (res: Option<String>)
    ensures
        opt_view(res) == program_stem(program@),
{
    let v = chars_of(program);
    let (a, b) = trim_bounds(&v);
    let normalized = chars_backslashes_to_slashes(&copy_range(&v, a, b));
    let k = last_segment_start(&normalized);
    let seg = copy_range(&normalized, k, normalized.len());
    let (c, d) = trim_bounds(&seg);
    let ghost filename = seg@.subrange(c as int, d as int);
    assert(filename == trim(last_segment(backslashes_to_slashes(trim(program@)))));
    let end: usize = if range_has_suffix(&seg, c, d, ".exe") {
        let m = ".exe".unicode_len();
        assert(filename.take(filename.len() - m) =~= seg@.subrange(c as int, d - m));
        d - m
    } else if range_has_suffix(&seg, c, d, ".EXE") {
        let m = ".EXE".unicode_len();
        assert(filename.take(filename.len() - m) =~= seg@.subrange(c as int, d - m));
        d - m
    } else {
        d
    };
    if end == c {
        None
    } else {
        Some(lowercase_string_of(&seg, c, end))
    }
}

/// `sh -c <command>`.
pub fn unix_shell_invocation(command: &str) -> (inv: ShellInvocation)
    ensures
        inv@ == posix_model("sh"@, command@),
{
    posix_like_invocation("sh", command)
}

/// `<program> -c <command>`.
pub fn posix_like_invocation(program: &str, command: &str) -> (inv: ShellInvocation)
    ensures
        inv@ == posix_model(program@, command@),
{
    let args = vec![string_from("-c"), string_from(command)];
    let inv = ShellInvocation {
        program: string_from(program),
        args,
        raw_payload_on_windows: false,
    };
    assert(inv@.args =~= seq!["-c"@, command@]);
    inv
}

/// `<program> -NoProfile -Command <command>`.
pub fn powershell_invocation(program: &str, command: &str) -> (inv: ShellInvocation)
    ensures
        inv@ == powershell_model(program@, command@),
{
    let args = vec![string_from("-NoProfile"), string_from("-Command"), string_from(command)];
    let inv = ShellInvocation {
        program: string_from(program),
        args,
        raw_payload_on_windows: false,
    };
    assert(inv@.args =~= seq!["-NoProfile"@, "-Command"@, command@]);
    inv
}

/// `<program> /C "chcp 65001 >NUL & <command>"`.
pub fn cmd_invocation(program: &str, command: &str) -> (inv: ShellInvocation)
    ensures
        inv@ == cmd_model(program@, command@),
{
    let mut payload = string_from("chcp 65001 >NUL & ");
    payload.append(command);
    let args = vec![string_from("/C"), payload];
    let inv = ShellInvocation {
        program: string_from(program),
        args,
        raw_payload_on_windows: true,
    };
    assert(inv@.args =~= seq!["/C"@, "chcp 65001 >NUL & "@ + command@]);
    inv
}

/// The program for a POSIX-like `SHELL` on Windows: its stem when the path
/// is Unix-style absolute (starts with `/` after leading whitespace), else
/// the path as given.
pub fn windows_posix_shell_program<'a>(shell: &'a str, stem: &'a str) -> (program: &'a str)
    ensures
        program@ == posix_program_model(shell@, stem@),
{
    let v = chars_of(shell);
    let i = trim_start_index(&v);
    if i < v.len() && v[i] == '/' {
        stem
    } else {
        shell
    }
}

/// `true` when `stem` is the stem of a POSIX-like shell.
fn is_posix_stem_str(stem: &str) -> (res: bool)
    ensures
        res == is_posix_stem(stem@),
{
    str_eq(stem, "bash") || str_eq(stem, "zsh") || str_eq(stem, "fish") || str_eq(stem, "sh")
}

/// `true` when `stem` is the stem of PowerShell.
fn is_powershell_stem_str(stem: &str) -> (res: bool)
    ensures
        res == is_powershell_stem(stem@),
{
    str_eq(stem, "pwsh") || str_eq(stem, "powershell")
}

/// The invocation that a `SHELL` value selects, if it names a known shell.
pub fn invocation_from_shell_env(shell: &str, command: &str) -> (res: Option<ShellInvocation>)
    ensures
        match res {
            Some(inv) => shell_env_model(shell@, command@) == Some(inv@),
            None => shell_env_model(shell@, command@) is None,
        },
{
    let stem = match shell_program_stem(shell) {
        Some(stem) => stem,
        None => return None,
    };
    if is_powershell_stem_str(stem.as_str()) {
        Some(powershell_invocation(shell, command))
    } else if str_eq(stem.as_str(), "cmd") {
        Some(cmd_invocation(shell, command))
    } else if is_posix_stem_str(stem.as_str()) {
        Some(posix_like_invocation(windows_posix_shell_program(shell, stem.as_str()), command))
    } else {
        None
    }
}

/// `true` when `program` has the stem `cmd`.
fn has_cmd_stem(program: &str) -> (res: bool)
    ensures
        res == (program_stem(program@) == Some("cmd"@)),
{
    match shell_program_stem(program) {
        Some(stem) => str_eq(stem.as_str(), "cmd"),
        None => false,
    }
}

/// The Windows invocation (see `windows_model`).
pub fn windows_shell_invocation(command: &str, probe: &ShellProbe) -> (inv: ShellInvocation)
    ensures
        inv@ == windows_model(command@, probe@),
{
    match &probe.shell {
        Some(shell) => match invocation_from_shell_env(shell.as_str(), command) {
            Some(inv) => return inv,
            None => {},
        },
        None => {},
    }
    if probe.pwsh_on_path {
        return powershell_invocation("pwsh.exe", command);
    }
    if probe.powershell_on_path {
        return powershell_invocation("powershell.exe", command);
    }
    match &probe.comspec {
        Some(comspec) => if has_cmd_stem(comspec.as_str()) {
            return cmd_invocation(comspec.as_str(), command);
        },
        None => {},
    }
    cmd_invocation("cmd", command)
}

/// The invocation that runs `command` on `platform`: `sh -c` on Unix; on
/// Windows the shell that `probe` selects (see `windows_model`).
pub fn shell_invocation_for_platform(
    command: &str,
    platform: ShellPlatform,
    probe: &ShellProbe,
) -> (inv: ShellInvocation)
    ensures
        inv@ == invocation_model(command@, platform, probe@),
        display_command_of(inv@) == Some(command@),
{
    proof {
        lemma_display_command_round_trip(command@, platform, probe@);
    }
    match platform {
        ShellPlatform::Unix => unix_shell_invocation(command),
        ShellPlatform::Windows => windows_shell_invocation(command, probe),
    }
}

impl ShellInvocation {
    /// The command line this invocation runs, as a user would type it.
    #[verifier::loop_isolation(false)]
    pub fn display_command(&self) -> (res: Option<String>)
        ensures
            opt_view(res) == display_command_of(self@),
    {
        let ghost args = self@.args;
        let n = self.args.len();
        if str_eq(self.program.as_str(), "sh") && n == 2 && str_eq(self.args[0].as_str(), "-c") {
            return Some(self.args[1].clone());
        }
        let stem = shell_program_stem(self.program.as_str());
        let (posix, cmd, pwsh) = match &stem {
            Some(st) => (
                is_posix_stem_str(st.as_str()),
                str_eq(st.as_str(), "cmd"),
                is_powershell_stem_str(st.as_str()),
            ),
            None => (false, false, false),
        };
        if posix && n == 2 && str_eq(self.args[0].as_str(), "-c") {
            return Some(self.args[1].clone());
        }
        if cmd && n == 2 && str_eq_ignore_ascii_case(self.args[0].as_str(), "/C") {
            let raw = chars_of(self.args[1].as_str());
            if str_has_prefix(&raw, "chcp 65001 >NUL & ") {
                let m = "chcp 65001 >NUL & ".unicode_len();
                return Some(string_of(&raw, m, raw.len()));
            }
            return Some(self.args[1].clone());
        }
        if pwsh {
            let mut i: usize = 0;
            while i < n
                invariant
                    n == args.len(),
                    args == self@.args,
                    i <= n,
                    forall|j: int| 0 <= j < i ==> !is_command_flag(#[trigger] args[j]),
                decreases n - i,
            {
                if str_eq_ignore_ascii_case(self.args[i].as_str(), "-Command") {
                    assert(is_first_command_flag(args, i as int));
                    assert forall|k: int| is_first_command_flag(args, k) implies k == i by {
                        if k < i {
                            assert(!is_command_flag(args[k]));
                        } else if k > i {
                            assert(!is_command_flag(args[i as int]));
                        }
                    }
                    if i + 1 < n {
                        return Some(self.args[i + 1].clone());
                    }
                    return None;
                }
                i = i + 1;
            }
        }
        None
    }
}

// ---------------------------------------------------------------------------
// Laws
// ---------------------------------------------------------------------------

/// Every stem is non-empty, has no `/` or `\\` and no ASCII upper-case
/// letter.
pub proof fn lemma_stem_shape(program: Seq<char>)
    ensures
        program_stem(program) matches Some(stem) ==> {
            &&& stem.len() > 0
            &&& !stem.contains('/')
            &&& !stem.contains('\\')
            &&& forall|i: int| 0 <= i < stem.len() ==> !('A' <= #[trigger] stem[i] && stem[i] <= 'Z')
        },
{
    let x = backslashes_to_slashes(trim(program));
    let ls = last_segment(x);
    lemma_last_segment_suffix(x);
    if ls.contains('\\') {
        let i = choose|i: int| 0 <= i < ls.len() && ls[i] == '\\';
        assert(ls[i] == x[i + x.len() - ls.len()]);
    }
    let filename = trim(ls);
    lemma_trim_keeps_absent(ls, '/');
    lemma_trim_keeps_absent(ls, '\\');
    let base = match strip_suffix(filename, ".exe"@) {
        Some(s) => s,
        None => match strip_suffix(filename, ".EXE"@) {
            Some(s) => s,
            None => filename,
        },
    };
    assert(base == filename.take(base.len() as int));
    if base.contains('/') {
        let i = choose|i: int| 0 <= i < base.len() && base[i] == '/';
        assert(filename[i] == '/');
    }
    if base.contains('\\') {
        let i = choose|i: int| 0 <= i < base.len() && base[i] == '\\';
        assert(filename[i] == '\\');
    }
    let stem = ascii_lowercase(base);
    if stem.contains('/') {
        let i = choose|i: int| 0 <= i < stem.len() && stem[i] == '/';
        assert(stem[i] == ascii_lower(base[i]));
    }
    if stem.contains('\\') {
        let i = choose|i: int| 0 <= i < stem.len() && stem[i] == '\\';
        assert(stem[i] == ascii_lower(base[i]));
    }
    assert forall|i: int| 0 <= i < stem.len() implies !('A' <= #[trigger] stem[i] && stem[i]
        <= 'Z') by {
        assert(stem[i] == ascii_lower(base[i]));
    }
}

/// The file name that follows a separator and whatever precedes it.
proof fn lemma_file_name_after_separator(d: Seq<char>, f: Seq<char>, sep: char)
    requires
        sep == '/' || sep == '\\',
        !f.contains('/'),
        !f.contains('\\'),
    ensures
        program_file_name(d + seq![sep] + f) == trim(f),
{
    let p = d + seq![sep] + f;
    let tail = seq![sep] + f;
    assert(p =~= d + tail);
    assert(tail[0] == sep);
    lemma_trim_start_concat(d, tail);
    let a = trim_start(d);
    let head = a + seq![sep];
    assert(a + tail =~= head + f);
    assert(head.last() == sep);
    lemma_trim_end_concat(head, f);
    let te = trim_end(f);
    lemma_trim_end_prefix(f);
    if te.contains('/') {
        let i = choose|i: int| 0 <= i < te.len() && te[i] == '/';
        assert(f[i] == '/');
    }
    if te.contains('\\') {
        let i = choose|i: int| 0 <= i < te.len() && te[i] == '\\';
        assert(f[i] == '\\');
    }
    let ba = backslashes_to_slashes(a);
    assert(backslashes_to_slashes(head + te) =~= ba + seq!['/'] + te);
    lemma_last_segment_after_slash(ba, te);
    lemma_trim_after_trim_end(f);
}

/// The file name of a name without separators is that name, trimmed.
proof fn lemma_file_name_of_plain(f: Seq<char>)
    requires
        !f.contains('/'),
        !f.contains('\\'),
    ensures
        program_file_name(f) == trim(f),
{
    let t = trim(f);
    lemma_trim_keeps_absent(f, '/');
    lemma_trim_keeps_absent(f, '\\');
    assert(backslashes_to_slashes(t) =~= t);
    lemma_last_segment_no_slash(t);
    lemma_trim_after_trim_end(f);
}

/// Directories in front of a program name, written with `/` or `\\`, do not
/// change its stem.
pub proof fn lemma_stem_ignores_directories(dir: Seq<char>, name: Seq<char>)
    requires
        !name.contains('/'),
        !name.contains('\\'),
    ensures
        program_stem(dir + seq!['/'] + name) == program_stem(name),
        program_stem(dir + seq!['\\'] + name) == program_stem(name),
{
    lemma_file_name_after_separator(dir, name, '/');
    lemma_file_name_after_separator(dir, name, '\\');
    lemma_file_name_of_plain(name);
}

/// Writing backslashes as slashes does not change a stem.
pub proof fn lemma_stem_ignores_backslash_form(program: Seq<char>)
    ensures
        program_stem(backslashes_to_slashes(program)) == program_stem(program),
{
    lemma_trim_backslashes(program);
    let t = trim(program);
    assert(backslashes_to_slashes(backslashes_to_slashes(t)) =~= backslashes_to_slashes(t));
}

/// A lower-case ASCII name without dots, slashes or whitespace is its own
/// stem.
proof fn lemma_stem_of_plain_name(s: Seq<char>)
    requires
        s.len() > 0,
        forall|i: int| 0 <= i < s.len() ==> 'a' <= #[trigger] s[i] && s[i] <= 'z',
    ensures
        program_stem(s) == Some(s),
{
    lemma_trim_unchanged(s);
    assert(backslashes_to_slashes(s) =~= s);
    lemma_last_segment_no_slash(s);
    reveal_strlit(".exe");
    reveal_strlit(".EXE");
    if has_suffix(s, ".exe"@) {
        assert(s.skip(s.len() - 4)[0] == s[s.len() - 4]);
    }
    if has_suffix(s, ".EXE"@) {
        assert(s.skip(s.len() - 4)[0] == s[s.len() - 4]);
    }
    assert(ascii_lowercase(s) =~= s);
}

/// A lower-case ASCII name followed by `.exe` has that name as its stem.
proof fn lemma_stem_of_exe_name(base: Seq<char>)
    requires
        base.len() > 0,
        forall|i: int| 0 <= i < base.len() ==> 'a' <= #[trigger] base[i] && base[i] <= 'z',
    ensures
        program_stem(base + ".exe"@) == Some(base),
{
    reveal_strlit(".exe");
    let s = base + ".exe"@;
    assert(".exe"@ =~= seq!['.', 'e', 'x', 'e']);
    assert(s[0] == base[0]);
    assert(s.last() == 'e');
    lemma_trim_unchanged(s);
    assert(backslashes_to_slashes(s) =~= s) by {
        assert forall|i: int| 0 <= i < s.len() implies s[i] != '\\' by {
            if i < base.len() {
                assert(s[i] == base[i]);
            }
        }
    }
    assert forall|i: int| 0 <= i < s.len() implies #[trigger] s[i] != '/' by {
        if i < base.len() {
            assert(s[i] == base[i]);
        }
    }
    lemma_last_segment_no_slash(s);
    assert(s.skip(s.len() - 4) =~= ".exe"@);
    assert(s.take(s.len() - 4) =~= base);
    assert(ascii_lowercase(base) =~= base);
}

/// The stems of the shell names and programs that invocations use.
proof fn lemma_known_stems()
    ensures
        program_stem("sh"@) == Some("sh"@),
        program_stem("bash"@) == Some("bash"@),
        program_stem("zsh"@) == Some("zsh"@),
        program_stem("fish"@) == Some("fish"@),
        program_stem("cmd"@) == Some("cmd"@),
        program_stem("pwsh.exe"@) == Some("pwsh"@),
        program_stem("powershell.exe"@) == Some("powershell"@),
        "sh"@ != "cmd"@,
        !is_posix_stem("cmd"@),
        !is_powershell_stem("cmd"@),
        "cmd"@ != "pwsh"@ && "cmd"@ != "powershell"@,
        "cmd"@ != "bash"@ && "cmd"@ != "zsh"@ && "cmd"@ != "fish"@,
        "sh"@.len() == 2 && "sh"@[0] == 's',
        "bash"@.len() == 4 && "bash"@[0] == 'b',
        "zsh"@.len() == 3 && "zsh"@[0] == 'z',
        "fish"@.len() == 4 && "fish"@[0] == 'f',
        "cmd"@.len() == 3 && "cmd"@[0] == 'c',
        "pwsh"@.len() == 4 && "pwsh"@[0] == 'p',
        "powershell"@.len() == 10 && "powershell"@[0] == 'p',
{
    reveal_strlit("sh");
    reveal_strlit("bash");
    reveal_strlit("zsh");
    reveal_strlit("fish");
    reveal_strlit("cmd");
    reveal_strlit("pwsh");
    reveal_strlit("powershell");
    reveal_strlit("pwsh.exe");
    reveal_strlit("powershell.exe");
    reveal_strlit(".exe");
    assert("sh"@ =~= seq!['s', 'h']);
    assert("bash"@ =~= seq!['b', 'a', 's', 'h']);
    assert("zsh"@ =~= seq!['z', 's', 'h']);
    assert("fish"@ =~= seq!['f', 'i', 's', 'h']);
    assert("cmd"@ =~= seq!['c', 'm', 'd']);
    assert("pwsh"@ =~= seq!['p', 'w', 's', 'h']);
    assert("powershell"@ =~= seq!['p', 'o', 'w', 'e', 'r', 's', 'h', 'e', 'l', 'l']);
    lemma_stem_of_plain_name("sh"@);
    lemma_stem_of_plain_name("bash"@);
    lemma_stem_of_plain_name("zsh"@);
    lemma_stem_of_plain_name("fish"@);
    lemma_stem_of_plain_name("cmd"@);
    lemma_stem_of_exe_name("pwsh"@);
    lemma_stem_of_exe_name("powershell"@);
    assert("pwsh.exe"@ =~= "pwsh"@ + ".exe"@);
    assert("powershell.exe"@ =~= "powershell"@ + ".exe"@);
    assert("cmd"@[0] != "zsh"@[0]);
}

/// A POSIX-like invocation shows its command.
proof fn lemma_display_posix(program: Seq<char>, command: Seq<char>)
    requires
        program == "sh"@ || has_posix_stem(program),
    ensures
        display_command_of(posix_model(program, command)) == Some(command),
{
}

/// A PowerShell invocation shows its command.
proof fn lemma_display_powershell(program: Seq<char>, command: Seq<char>)
    requires
        has_powershell_stem(program),
    ensures
        display_command_of(powershell_model(program, command)) == Some(command),
{
    reveal_strlit("-NoProfile");
    reveal_strlit("-Command");
    let args = powershell_model(program, command).args;
    assert(!is_command_flag(args[0])) by {
        assert(ascii_lowercase(args[0]).len() != ascii_lowercase("-Command"@).len());
    }
    assert(is_first_command_flag(args, 1));
    assert forall|k: int| is_first_command_flag(args, k) implies k == 1 by {
        if k > 1 {
            assert(!is_command_flag(args[1]));
        }
    }
}

/// A `cmd` invocation shows its command without the code-page prefix.
proof fn lemma_display_cmd(program: Seq<char>, command: Seq<char>)
    requires
        program_stem(program) == Some("cmd"@),
    ensures
        display_command_of(cmd_model(program, command)) == Some(command),
{
    lemma_known_stems();
    let p = "chcp 65001 >NUL & "@;
    assert((p + command).take(p.len() as int) =~= p);
    assert((p + command).skip(p.len() as int) =~= command);
}

/// Whatever `SHELL` selects shows the command it was given.
proof fn lemma_display_shell_env(shell: Seq<char>, command: Seq<char>)
    requires
        shell_env_model(shell, command) is Some,
    ensures
        display_command_of(shell_env_model(shell, command)->0) == Some(command),
{
    lemma_known_stems();
    let stem = program_stem(shell)->0;
    if is_powershell_stem(stem) {
        lemma_display_powershell(shell, command);
    } else if stem == "cmd"@ {
        lemma_display_cmd(shell, command);
    } else {
        lemma_display_posix(posix_program_model(shell, stem), command);
    }
}

/// Reading the command back out of the invocation built for it gives the
/// command itself, on every platform and for every probe.
pub proof fn lemma_display_command_round_trip(
    command: Seq<char>,
    platform: ShellPlatform,
    probe: ProbeModel,
)
    ensures
        display_command_of(invocation_model(command, platform, probe)) == Some(command),
{
    lemma_known_stems();
    match platform {
        ShellPlatform::Unix => lemma_display_posix("sh"@, command),
        ShellPlatform::Windows => {
            let from_shell = match probe.shell {
                Some(shell) => shell_env_model(shell, command),
                None => None,
            };
            if from_shell is Some {
                lemma_display_shell_env(probe.shell->0, command);
            } else if probe.pwsh_on_path {
                lemma_display_powershell("pwsh.exe"@, command);
            } else if probe.powershell_on_path {
                lemma_display_powershell("powershell.exe"@, command);
            } else if probe.comspec is Some && program_stem(probe.comspec->0) == Some("cmd"@) {
                lemma_display_cmd(probe.comspec->0, command);
            } else {
                lemma_display_cmd("cmd"@, command);
            }
        },
    }
}

/// The raw-payload flag is set exactly on the invocations whose program is
/// `cmd`, and only on Windows.
pub proof fn lemma_raw_payload_exactly_for_cmd(
    command: Seq<char>,
    platform: ShellPlatform,
    probe: ProbeModel,
)
    ensures
        invocation_model(command, platform, probe).raw_payload_on_windows <==> program_stem(
            invocation_model(command, platform, probe).program,
        ) == Some("cmd"@),
        invocation_model(command, platform, probe).raw_payload_on_windows ==> platform
            == ShellPlatform::Windows,
{
    lemma_known_stems();
}

/// An environment setting with nothing but whitespace in it counts as unset.
pub fn non_blank_setting(value: Option<String>) -> (res: Option<String>)
    ensures
        match value {
            Some(v) => if trim(v@).len() == 0 {
                res is None
            } else {
                res == Some(v)
            },
            None => res is None,
        },
{
    match value {
        Some(v) => {
            let chars = chars_of(v.as_str());
            let (a, b) = trim_bounds(&chars);
            if a == b {
                None
            } else {
                Some(v)
            }
        },
        None => None,
    }
}

/// `SHELL` is unset, or names none of the shells the selection knows:
/// PowerShell (`pwsh`, `powershell`), `cmd`, or a POSIX-like shell (`bash`,
/// `zsh`, `fish`, `sh`).
pub open spec fn names_no_known_shell(shell: Option<Seq<char>>) -> bool {
    match shell {
        None => true,
        Some(sh) => match program_stem(sh) {
            None => true,
            Some(stem) => !(stem == "pwsh"@ || stem == "powershell"@ || stem == "cmd"@ || stem
                == "bash"@ || stem == "zsh"@ || stem == "fish"@ || stem == "sh"@),
        },
    }
}

/// On Unix every command runs as `sh -c <command>`, whatever the probe says.
pub proof fn lemma_unix_runs_sh_c(command: Seq<char>, probe: ProbeModel)
    ensures
        invocation_model(command, ShellPlatform::Unix, probe) == (InvocationModel {
            program: "sh"@,
            args: seq!["-c"@, command],
            raw_payload_on_windows: false,
        }),
{
}

/// What a `SHELL` value selects, by the stem of its program: PowerShell runs
/// `<shell> -NoProfile -Command <command>`; `cmd` runs `<shell> /C` with the
/// UTF-8 code-page prefix; a POSIX-like shell runs `-c <command>` with the
/// bare stem as program when the value is a `/`-rooted path and the value
/// itself otherwise; any other value selects nothing.
pub proof fn lemma_shell_env_selection(shell: Seq<char>, command: Seq<char>)
    ensures
        program_stem(shell) == Some("pwsh"@) || program_stem(shell) == Some("powershell"@)
            ==> shell_env_model(shell, command) == Some(
            InvocationModel {
                program: shell,
                args: seq!["-NoProfile"@, "-Command"@, command],
                raw_payload_on_windows: false,
            },
        ),
        program_stem(shell) == Some("cmd"@) ==> shell_env_model(shell, command) == Some(
            InvocationModel {
                program: shell,
                args: seq!["/C"@, "chcp 65001 >NUL & "@ + command],
                raw_payload_on_windows: true,
            },
        ),
        forall|stem: Seq<char>|
            #![trigger program_stem(shell), is_posix_stem(stem)]
            program_stem(shell) == Some(stem) && (stem == "bash"@ || stem == "zsh"@ || stem
                == "fish"@ || stem == "sh"@) ==> shell_env_model(shell, command) == Some(
                InvocationModel {
                    program: if trim_start(shell).len() > 0 && trim_start(shell)[0] == '/' {
                        stem
                    } else {
                        shell
                    },
                    args: seq!["-c"@, command],
                    raw_payload_on_windows: false,
                },
            ),
        names_no_known_shell(Some(shell)) ==> shell_env_model(shell, command) is None,
{
    lemma_known_stems();
}

/// On Windows, when `SHELL` selects nothing: PowerShell 7 (`pwsh.exe`) when
/// it is on `PATH`, whatever else is; else Windows PowerShell
/// (`powershell.exe`) when it is on `PATH`; else `COMSPEC` when its stem is
/// `cmd`; else plain `cmd`. The two `cmd` forms carry the UTF-8 code-page
/// prefix and the raw-payload flag. When `SHELL` selects a shell, that shell
/// runs the command.
pub proof fn lemma_windows_selection(command: Seq<char>, probe: ProbeModel)
    ensures
        names_no_known_shell(probe.shell) && probe.pwsh_on_path ==> invocation_model(
            command,
            ShellPlatform::Windows,
            probe,
        ) == (InvocationModel {
            program: "pwsh.exe"@,
            args: seq!["-NoProfile"@, "-Command"@, command],
            raw_payload_on_windows: false,
        }),
        names_no_known_shell(probe.shell) && !probe.pwsh_on_path && probe.powershell_on_path
            ==> invocation_model(command, ShellPlatform::Windows, probe) == (InvocationModel {
            program: "powershell.exe"@,
            args: seq!["-NoProfile"@, "-Command"@, command],
            raw_payload_on_windows: false,
        }),
        names_no_known_shell(probe.shell) && !probe.pwsh_on_path && !probe.powershell_on_path
            ==> invocation_model(command, ShellPlatform::Windows, probe) == (InvocationModel {
            program: match probe.comspec {
                Some(comspec) => if program_stem(comspec) == Some("cmd"@) {
                    comspec
                } else {
                    "cmd"@
                },
                None => "cmd"@,
            },
            args: seq!["/C"@, "chcp 65001 >NUL & "@ + command],
            raw_payload_on_windows: true,
        }),
        !names_no_known_shell(probe.shell) ==> Some(
            invocation_model(command, ShellPlatform::Windows, probe),
        ) == shell_env_model(probe.shell->0, command),
        invocation_model(command, ShellPlatform::Windows, probe).program == "powershell.exe"@
            && names_no_known_shell(probe.shell) ==> !probe.pwsh_on_path,
{
    lemma_known_stems();
    reveal_strlit("pwsh.exe");
    reveal_strlit("powershell.exe");
    assert("pwsh.exe"@.len() == 8);
    assert("powershell.exe"@.len() == 14);
    lemma_stem_shape(probe.comspec->0);
}

/// `sh -c <text>` shows `<text>`.
pub proof fn lemma_display_sh(inv: InvocationModel)
    requires
        inv.program == "sh"@,
        inv.args.len() == 2,
        inv.args[0] == "-c"@,
    ensures
        display_command_of(inv) == Some(inv.args[1]),
{
}

/// A POSIX-like shell (stem `bash`, `zsh`, `fish` or `sh`) run with
/// `-c <text>` shows `<text>`.
pub proof fn lemma_display_posix_shell(inv: InvocationModel)
    requires
        program_stem(inv.program) == Some("bash"@) || program_stem(inv.program) == Some("zsh"@)
            || program_stem(inv.program) == Some("fish"@) || program_stem(inv.program) == Some(
            "sh"@,
        ),
        inv.args.len() == 2,
        inv.args[0] == "-c"@,
    ensures
        display_command_of(inv) == Some(inv.args[1]),
{
}

/// `cmd` run with `/C` (in any ASCII case) and a payload shows the payload
/// without its UTF-8 code-page prefix, when it has one.
pub proof fn lemma_display_cmd_payload(inv: InvocationModel)
    requires
        program_stem(inv.program) == Some("cmd"@),
        inv.args.len() == 2,
        eq_ignore_ascii_case(inv.args[0], "/C"@),
    ensures
        display_command_of(inv) == Some(
            if has_prefix(inv.args[1], "chcp 65001 >NUL & "@) {
                inv.args[1].skip("chcp 65001 >NUL & "@.len() as int)
            } else {
                inv.args[1]
            },
        ),
{
    lemma_known_stems();
    if inv.program == "sh"@ {
        assert(program_stem(inv.program) == Some("sh"@));
    }
}

/// PowerShell (stem `pwsh` or `powershell`) shows the argument that follows
/// its first `-Command` flag (in any ASCII case, at any position).
pub proof fn lemma_display_powershell_flag(inv: InvocationModel, i: int)
    requires
        program_stem(inv.program) == Some("pwsh"@) || program_stem(inv.program) == Some(
            "powershell"@,
        ),
        0 <= i,
        i + 1 < inv.args.len(),
        eq_ignore_ascii_case(inv.args[i], "-Command"@),
        forall|j: int| 0 <= j < i ==> !eq_ignore_ascii_case(#[trigger] inv.args[j], "-Command"@),
    ensures
        display_command_of(inv) == Some(inv.args[i + 1]),
{
    lemma_known_stems();
    if inv.program == "sh"@ {
        assert(program_stem(inv.program) == Some("sh"@));
    }
    let args = inv.args;
    assert(is_first_command_flag(args, i));
    assert forall|k: int| is_first_command_flag(args, k) implies k == i by {
        if k < i {
            assert(!is_command_flag(args[k]));
        } else if k > i {
            assert(!is_command_flag(args[i]));
        }
    }
}

/// PowerShell with no `-Command` flag followed by an argument shows nothing.
pub proof fn lemma_display_powershell_without_command(inv: InvocationModel)
    requires
        program_stem(inv.program) == Some("pwsh"@) || program_stem(inv.program) == Some(
            "powershell"@,
        ),
        forall|j: int|
            0 <= j < inv.args.len() - 1 ==> !eq_ignore_ascii_case(#[trigger] inv.args[j], "-Command"@),
    ensures
        display_command_of(inv) is None,
{
    lemma_known_stems();
    if inv.program == "sh"@ {
        assert(program_stem(inv.program) == Some("sh"@));
    }
}

/// A program that is not `sh` and has no known shell stem shows nothing.
pub proof fn lemma_display_unknown_program(inv: InvocationModel)
    requires
        inv.program != "sh"@,
        names_no_known_shell(Some(inv.program)),
    ensures
        display_command_of(inv) is None,
{
}

/// A name made of ASCII letters, alone or followed by `.exe` or `.EXE`, has
/// that name in lower case as its stem.
pub proof fn lemma_stem_of_letter_name(base: Seq<char>, ext: Seq<char>)
    requires
        base.len() > 0,
        forall|i: int|
            0 <= i < base.len() ==> ('a' <= #[trigger] base[i] && base[i] <= 'z') || ('A'
                <= base[i] && base[i] <= 'Z'),
        ext.len() == 0 || ext == ".exe"@ || ext == ".EXE"@,
    ensures
        program_stem(base + ext) == Some(ascii_lowercase(base)),
{
    reveal_strlit(".exe");
    reveal_strlit(".EXE");
    assert(".exe"@ =~= seq!['.', 'e', 'x', 'e']);
    assert(".EXE"@ =~= seq!['.', 'E', 'X', 'E']);
    let s = base + ext;
    assert(s[0] == base[0]);
    assert(!is_whitespace(s.last())) by {
        if ext.len() == 0 {
            assert(s.last() == base[base.len() - 1]);
        }
    }
    lemma_trim_unchanged(s);
    assert forall|i: int| 0 <= i < s.len() implies s[i] != '\\' && #[trigger] s[i] != '/' by {
        if i < base.len() {
            assert(s[i] == base[i]);
        } else {
            assert(s[i] == ext[i - base.len()]);
        }
    }
    assert(backslashes_to_slashes(s) =~= s);
    lemma_last_segment_no_slash(s);
    if ext.len() == 0 {
        assert(s =~= base);
        if has_suffix(s, ".exe"@) {
            assert(s.skip(s.len() - 4)[0] == s[s.len() - 4]);
        }
        if has_suffix(s, ".EXE"@) {
            assert(s.skip(s.len() - 4)[0] == s[s.len() - 4]);
        }
    } else {
        assert(s.skip(s.len() - 4) =~= ext);
        assert(s.take(s.len() - 4) =~= base);
        if ext == ".EXE"@ && has_suffix(s, ".exe"@) {
            assert(s.skip(s.len() - 4)[1] == ext[1]);
        }
    }
}

} // verus!

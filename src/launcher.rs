//! How an executable is started: directly, or through a command or script
//! interpreter chosen by its extension, with a retry on a sibling file when an
//! extension-less path cannot be started directly on Windows.
use vstd::prelude::*;
use crate::paths::{
    extension, extension_of, file_name_present, has_extension, has_file_name, with_extension,
    with_extension_spec, Platform,
};
use crate::probe::{found, probe_file, stable_probe};
use crate::text::{concat3, strs, to_strings};

verus! {

/// The ways an executable can be started.
#[derive(Clone, Copy, Debug, PartialEq, Eq, Structural)]
pub enum CommandKind {
    Direct,
    Cmd,
    PowerShell,
}

/// A process to start: the program and its arguments.
pub struct Invocation {
    pub program: String,
    pub arguments: Vec<String>,
}

/// What came of starting a process.
pub enum SpawnResult {
    /// The process ran and exited, successfully or not.
    Exited { success: bool },
    /// The process could not be started; `os_code` is the raw OS error code.
    SpawnFailed { message: String, os_code: Option<i32> },
}

/// `c` is the lower-case letter `l` or its ASCII upper-case form.
pub open spec fn same_letter(c: char, l: char) -> bool {
    c == l || ('a' <= l && l <= 'z' && (c as u32) == (l as u32) - 32)
}

/// `s` spells the lower-case word `w`, ignoring ASCII case.
pub open spec fn spells(s: Seq<char>, w: Seq<char>) -> bool {
    s.len() == w.len() && forall|i: int| 0 <= i < s.len() ==> same_letter(#[trigger] s[i], w[i])
}

/// The interpreter an extension calls for on Windows, if any.
pub open spec fn kind_of_extension(ext: Seq<char>) -> Option<CommandKind> {
    if spells(ext, seq!['c', 'm', 'd']) || spells(ext, seq!['b', 'a', 't']) {
        Some(CommandKind::Cmd)
    } else if spells(ext, seq!['p', 's', '1']) {
        Some(CommandKind::PowerShell)
    } else {
        None
    }
}

/// The interpreter `path` calls for on Windows, if any.
pub open spec fn command_kind_of(path: Seq<char>) -> Option<CommandKind> {
    match extension_of(path, Platform::Windows) {
        Some(e) => kind_of_extension(e),
        None => None,
    }
}

/// Whether `s` spells the lower-case word `w`, ignoring ASCII case.
pub fn spells_ignoring_case(s: &str, w: &str) -> (r: bool)
    ensures
        r == spells(s@, w@),
{
    let n = s.unicode_len();
    if n != w.unicode_len() {
        return false;
    }
    let mut i: usize = 0;
    while i < n
        invariant
            n == s@.len() == w@.len(),
            i <= n,
            forall|k: int| 0 <= k < i ==> same_letter(#[trigger] s@[k], w@[k]),
        decreases n - i,
    {
        let c = s.get_char(i);
        let l = w.get_char(i);
        if !(c == l || ('a' <= l && l <= 'z' && (c as u32) == (l as u32) - 32)) {
            return false;
        }
        i = i + 1;
    }
    true
}

/// The interpreter `command_path` calls for on Windows: `.cmd` and `.bat`
/// files go through the command interpreter, `.ps1` files through
/// PowerShell, whatever the case of the extension.
pub fn resolve_windows_command_kind(command_path: &str) -> (r: Option<CommandKind>)
    ensures
        r == command_kind_of(command_path@),
{
    proof {
        reveal_strlit("cmd");
        reveal_strlit("bat");
        reveal_strlit("ps1");
    }
    assert("cmd"@ =~= seq!['c', 'm', 'd']);
    assert("bat"@ =~= seq!['b', 'a', 't']);
    assert("ps1"@ =~= seq!['p', 's', '1']);
    let ext = match extension(command_path, Platform::Windows) {
        Some(e) => e,
        None => return None,
    };
    if spells_ignoring_case(ext.as_str(), "cmd") || spells_ignoring_case(ext.as_str(), "bat") {
        Some(CommandKind::Cmd)
    } else if spells_ignoring_case(ext.as_str(), "ps1") {
        Some(CommandKind::PowerShell)
    } else {
        None
    }
}

/// OS error codes after which a sibling file is tried: file or path not found,
/// not a valid application, executable format error.
pub open spec fn fallback_code(code: Option<i32>) -> bool {
    code == Some(2i32) || code == Some(3i32) || code == Some(193i32) || code == Some(216i32)
}

/// Whether a failed start with OS error `os_code` warrants trying siblings.
pub fn should_try_windows_fallback(os_code: Option<i32>) -> (r: bool)
    ensures
        r == fallback_code(os_code),
{
    match os_code {
        Some(c) => c == 2 || c == 3 || c == 193 || c == 216,
        None => false,
    }
}

/// The sibling extensions tried, in order, with the way each is started.
pub open spec fn fallback_extensions() -> Seq<(Seq<char>, CommandKind)> {
    seq![
        (seq!['c', 'm', 'd'], CommandKind::Cmd),
        (seq!['b', 'a', 't'], CommandKind::Cmd),
        (seq!['p', 's', '1'], CommandKind::PowerShell),
        (seq!['e', 'x', 'e'], CommandKind::Direct),
        (seq!['c', 'o', 'm'], CommandKind::Direct),
    ]
}

/// The first sibling of `path`, from index `i` of the extension list on, that
/// `f` reports as a file.
pub open spec fn first_sibling<F: Fn(String) -> bool>(path: Seq<char>, i: int, f: F) -> Option<
    (CommandKind, Seq<char>),
>
    decreases 5 - i,
{
    if i < 0 || i >= 5 {
        None
    } else {
        let (ext, kind) = fallback_extensions()[i];
        let cand = with_extension_spec(path, ext, Platform::Windows);
        if found(f, cand) {
            Some((kind, cand))
        } else {
            first_sibling(path, i + 1, f)
        }
    }
}

/// The sibling to start instead of `path` after a failed direct start with
/// OS error `code`: only for a path with a file name and no extension.
pub open spec fn fallback_of<F: Fn(String) -> bool>(path: Seq<char>, code: Option<i32>, f: F) -> Option<
    (CommandKind, Seq<char>),
> {
    if !has_file_name(path, Platform::Windows) || extension_of(path, Platform::Windows) is Some
        || !fallback_code(code) {
        None
    } else {
        first_sibling(path, 0, f)
    }
}

/// The view of a resolved sibling.
pub open spec fn sibling_view(r: Option<(CommandKind, String)>) -> Option<(CommandKind, Seq<char>)> {
    match r {
        Some((k, s)) => Some((k, s@)),
        None => None,
    }
}

/// The sibling of an extension-less `command_path` to start after a failed
/// direct start, and how to start it: `.cmd`, `.bat`, `.ps1`, `.exe`, `.com`
/// are tried in that order.
pub fn resolve_windows_command_fallback<F: Fn(String) -> bool>(
    command_path: &str,
    os_code: Option<i32>,
    is_file: &F,
) -> (r: Option<(CommandKind, String)>)
    requires
        stable_probe(*is_file),
    ensures
        sibling_view(r) == fallback_of(command_path@, os_code, *is_file),
{
    if !file_name_present(command_path, Platform::Windows) || has_extension(command_path, Platform::Windows)
        || !should_try_windows_fallback(os_code) {
        return None;
    }
    proof {
        reveal_strlit("cmd");
        reveal_strlit("bat");
        reveal_strlit("ps1");
        reveal_strlit("exe");
        reveal_strlit("com");
        reveal_with_fuel(first_sibling, 6);
    }
    let ghost p = command_path@;
    let ghost f = *is_file;
    assert("cmd"@ =~= fallback_extensions()[0].0);
    assert("bat"@ =~= fallback_extensions()[1].0);
    assert("ps1"@ =~= fallback_extensions()[2].0);
    assert("exe"@ =~= fallback_extensions()[3].0);
    assert("com"@ =~= fallback_extensions()[4].0);
    let c0 = with_extension(command_path, "cmd", Platform::Windows);
    if probe_file(is_file, &c0) {
        return Some((CommandKind::Cmd, c0));
    }
    let c1 = with_extension(command_path, "bat", Platform::Windows);
    if probe_file(is_file, &c1) {
        return Some((CommandKind::Cmd, c1));
    }
    let c2 = with_extension(command_path, "ps1", Platform::Windows);
    if probe_file(is_file, &c2) {
        return Some((CommandKind::PowerShell, c2));
    }
    let c3 = with_extension(command_path, "exe", Platform::Windows);
    if probe_file(is_file, &c3) {
        return Some((CommandKind::Direct, c3));
    }
    let c4 = with_extension(command_path, "com", Platform::Windows);
    if probe_file(is_file, &c4) {
        return Some((CommandKind::Direct, c4));
    }
    assert(first_sibling(p, 5, f) is None);
    None
}

/// The process that starts `executable` with `arguments` in the way `kind`
/// says.
pub open spec fn invocation_of(kind: CommandKind, executable: Seq<char>, arguments: Seq<Seq<char>>) -> (
    Seq<char>,
    Seq<Seq<char>>,
) {
    match kind {
        CommandKind::Direct => (executable, arguments),
        CommandKind::Cmd => ("cmd.exe"@, seq!["/C"@, executable] + arguments),
        CommandKind::PowerShell => (
            "powershell.exe"@,
            seq!["-NoProfile"@, "-ExecutionPolicy"@, "Bypass"@, "-File"@, executable] + arguments,
        ),
    }
}

/// The view of an invocation.
pub open spec fn inv_view(i: Invocation) -> (Seq<char>, Seq<Seq<char>>) {
    (i.program@, strs(i.arguments@))
}

/// Appends copies of `more` to `v`.
pub fn extend_strings(v: &mut Vec<String>, more: &[String])
    ensures
        strs(final(v)@) == strs(old(v)@) + strs(more@),
{
    let mut i: usize = 0;
    while i < more.len()
        invariant
            i <= more@.len(),
            strs(v@) == strs(old(v)@) + strs(more@.subrange(0, i as int)),
        decreases more@.len() - i,
    {
        let ghost before = v@;
        v.push(more[i].clone());
        assert(strs(v@) =~= strs(before).push(more@[i as int]@));
        assert(strs(more@.subrange(0, i + 1)) =~= strs(more@.subrange(0, i as int)).push(more@[i as int]@));
        assert(strs(v@) =~= strs(old(v)@) + strs(more@.subrange(0, i + 1)));
        i = i + 1;
    }
    assert(more@.subrange(0, more@.len() as int) =~= more@);
}

/// The process that starts `executable` with `arguments` in the way `kind`
/// says.
pub fn execute_windows_command(kind: CommandKind, executable: &str, arguments: &[String]) -> (r:
    Invocation)
    ensures
        inv_view(r) == invocation_of(kind, executable@, strs(arguments@)),
{
    match kind {
        CommandKind::Direct => Invocation {
            program: executable.to_string(),
            arguments: to_strings(arguments),
        },
        CommandKind::Cmd => {
            let mut args: Vec<String> = Vec::new();
            args.push("/C".to_string());
            args.push(executable.to_string());
            extend_strings(&mut args, arguments);
            assert(strs(args@) =~= seq!["/C"@, executable@] + strs(arguments@));
            Invocation { program: "cmd.exe".to_string(), arguments: args }
        },
        CommandKind::PowerShell => {
            let mut args: Vec<String> = Vec::new();
            args.push("-NoProfile".to_string());
            args.push("-ExecutionPolicy".to_string());
            args.push("Bypass".to_string());
            args.push("-File".to_string());
            args.push(executable.to_string());
            extend_strings(&mut args, arguments);
            assert(strs(args@) =~= seq!["-NoProfile"@, "-ExecutionPolicy"@, "Bypass"@, "-File"@, executable@]
                + strs(arguments@));
            Invocation { program: "powershell.exe".to_string(), arguments: args }
        },
    }
}

/// The first process started for `command_path`: on Windows through the
/// interpreter its extension calls for, elsewhere (and for other extensions)
/// directly.
pub open spec fn first_invocation(platform: Platform, path: Seq<char>, arguments: Seq<Seq<char>>) -> (
    Seq<char>,
    Seq<Seq<char>>,
) {
    if platform == Platform::Windows && command_kind_of(path) is Some {
        invocation_of(command_kind_of(path)->0, path, arguments)
    } else {
        (path, arguments)
    }
}

/// The first process to start for `command_path` with `arguments`.
pub fn plan_command(platform: Platform, command_path: &str, arguments: &[String]) -> (r: Invocation)
    ensures
        inv_view(r) == first_invocation(platform, command_path@, strs(arguments@)),
{
    if platform == Platform::Windows {
        if let Some(kind) = resolve_windows_command_kind(command_path) {
            return execute_windows_command(kind, command_path, arguments);
        }
    }
    execute_windows_command(CommandKind::Direct, command_path, arguments)
}

/// Whether a retry on a sibling may follow a failed first start: only on
/// Windows, and only when the first start was direct.
pub open spec fn retry_allowed(platform: Platform, path: Seq<char>) -> bool {
    platform == Platform::Windows && command_kind_of(path) is None
}

/// The process to start instead, after the first start of `command_path`
/// failed with OS error `os_code`; none when no retry applies.
pub open spec fn retry_invocation<F: Fn(String) -> bool>(
    platform: Platform,
    path: Seq<char>,
    arguments: Seq<Seq<char>>,
    code: Option<i32>,
    f: F,
) -> Option<(Seq<char>, Seq<Seq<char>>)> {
    if !retry_allowed(platform, path) {
        None
    } else {
        match fallback_of(path, code, f) {
            Some((kind, sibling)) => Some(invocation_of(kind, sibling, arguments)),
            None => None,
        }
    }
}

/// The view of an optional invocation.
pub open spec fn opt_inv_view(r: Option<Invocation>) -> Option<(Seq<char>, Seq<Seq<char>>)> {
    match r {
        Some(i) => Some(inv_view(i)),
        None => None,
    }
}

/// The process to start instead, after the first start of `command_path`
/// failed with OS error `os_code`.
pub fn plan_retry<F: Fn(String) -> bool>(
    platform: Platform,
    command_path: &str,
    arguments: &[String],
    os_code: Option<i32>,
    is_file: &F,
) -> (r: Option<Invocation>)
    requires
        stable_probe(*is_file),
    ensures
        opt_inv_view(r) == retry_invocation(platform, command_path@, strs(arguments@), os_code, *is_file),
{
    if platform != Platform::Windows {
        return None;
    }
    if resolve_windows_command_kind(command_path).is_some() {
        return None;
    }
    match resolve_windows_command_fallback(command_path, os_code, is_file) {
        Some((kind, sibling)) => Some(execute_windows_command(kind, sibling.as_str(), arguments)),
        None => None,
    }
}

/// What follows the first start of a user-configured command.
pub enum LaunchStep {
    /// Start this process instead.
    Retry(Invocation),
    /// The launch is over with this result.
    Done(SpawnResult),
}

/// Decides what follows the first start of `command_path`: a retry on a
/// sibling when the start failed and a retry applies, else the result as it
/// came.
pub fn after_first_start<F: Fn(String) -> bool>(
    platform: Platform,
    command_path: &str,
    arguments: &[String],
    spawned: SpawnResult,
    is_file: &F,
) -> (r: LaunchStep)
    requires
        stable_probe(*is_file),
    ensures
        match spawned {
            SpawnResult::SpawnFailed { os_code, .. } => match retry_invocation(
                platform,
                command_path@,
                strs(arguments@),
                os_code,
                *is_file,
            ) {
                Some(inv) => r is Retry && inv_view(r->Retry_0) == inv,
                None => r is Done && r->Done_0 == spawned,
            },
            SpawnResult::Exited { .. } => r is Done && r->Done_0 == spawned,
        },
{
    let code = match &spawned {
        SpawnResult::SpawnFailed { os_code, .. } => *os_code,
        SpawnResult::Exited { .. } => return LaunchStep::Done(spawned),
    };
    match plan_retry(platform, command_path, arguments, code, is_file) {
        Some(inv) => LaunchStep::Retry(inv),
        None => LaunchStep::Done(spawned),
    }
}

/// The message of a result: success, a failed start with the OS message after
/// `prefix`, or a run that ended in failure.
pub open spec fn outcome_of(
    success: Option<bool>,
    message: Seq<char>,
    prefix: Seq<char>,
    failure: Seq<char>,
) -> Result<(), Seq<char>> {
    match success {
        Some(true) => Ok(()),
        Some(false) => Err(failure),
        None => Err(prefix + seq![' '] + message),
    }
}

/// The view of a spawn result: whether it exited successfully (none when it
/// did not start) and the OS message.
pub open spec fn spawn_view(s: SpawnResult) -> (Option<bool>, Seq<char>) {
    match s {
        SpawnResult::Exited { success } => (Some(success), seq![]),
        SpawnResult::SpawnFailed { message, .. } => (None, message@),
    }
}

/// The view of a result with a string error.
pub open spec fn result_view(r: Result<(), String>) -> Result<(), Seq<char>> {
    match r {
        Ok(()) => Ok(()),
        Err(e) => Err(e@),
    }
}

/// What a spawn result means to the caller: success on exit status 0, else
/// `failure_message`; for a start that failed, the OS message after
/// `spawn_error_prefix`.
pub fn run_command_with_shell_support(
    spawned: &SpawnResult,
    spawn_error_prefix: &str,
    failure_message: &str,
) -> (r: Result<(), String>)
    ensures
        result_view(r) == outcome_of(
            spawn_view(*spawned).0,
            spawn_view(*spawned).1,
            spawn_error_prefix@,
            failure_message@,
        ),
{
    proof {
        reveal_strlit(" ");
    }
    match spawned {
        SpawnResult::Exited { success } => {
            if *success {
                Ok(())
            } else {
                Err(failure_message.to_string())
            }
        },
        SpawnResult::SpawnFailed { message, .. } => {
            let m = concat3(spawn_error_prefix, " ", message.as_str());
            assert(" "@ =~= seq![' ']);
            Err(m)
        },
    }
}

/// Fallback on Windows: when the direct start of an extension-less path
/// fails with a not-found class OS error and `path.cmd` is a file, the
/// command interpreter is started on `path.cmd` with the same arguments, and
/// the action succeeds exactly when the interpreter exits with success.
pub proof fn lemma_fallback_to_cmd_sibling<F: Fn(String) -> bool>(
    path: Seq<char>,
    arguments: Seq<Seq<char>>,
    code: Option<i32>,
    f: F,
    success: bool,
    prefix: Seq<char>,
    failure: Seq<char>,
)
    requires
        has_file_name(path, Platform::Windows),
        extension_of(path, Platform::Windows) is None,
        fallback_code(code),
        found(f, with_extension_spec(path, seq!['c', 'm', 'd'], Platform::Windows)),
    ensures
        first_invocation(Platform::Windows, path, arguments) == (path, arguments),
        retry_invocation(Platform::Windows, path, arguments, code, f) == Some(
            (
                "cmd.exe"@,
                seq!["/C"@, with_extension_spec(path, seq!['c', 'm', 'd'], Platform::Windows)]
                    + arguments,
            ),
        ),
        (outcome_of(Some(success), seq![], prefix, failure) is Ok) == success,
{
    assert(fallback_extensions()[0] == (seq!['c', 'm', 'd'], CommandKind::Cmd));
}

} // verus!

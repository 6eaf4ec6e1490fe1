//! The terminal panel: which shell runs a command line, in which
//! directory, and how its output is shown.

use vstd::prelude::*;
use std::sync::Arc;
use std::sync::Mutex;
use crate::store::paths::path_exists;
use crate::store::paths::path_from;
use crate::store::paths::path_text;
use crate::store::paths::user_home_dir;
use crate::text::chars_of;

verus! {

/// `Mutex<T>`, carried as an opaque value.
#[verifier::external_type_specification]
#[verifier::external_body]
#[verifier::reject_recursive_types(T)]
pub struct ExMutex<T: ?Sized>(Mutex<T>);

/// The state that a lock was made to guard: what `Mutex::new` was given.
/// It says nothing of what the lock holds later.
pub uninterp spec fn made_with(lock: Mutex<TerminalState>) -> TerminalState;

/// `Mutex::new`: a lock, not held by anyone, that guards `state`.
#[verifier::external_body]
fn new_mutex(state: TerminalState) -> (lock: Mutex<TerminalState>)
    ensures
        made_with(lock) == state,
{
    Mutex::new(state)
}

/// The shells a command can run in.
#[derive(Debug, Clone, Copy, PartialEq, Eq, Structural)]
pub enum ShellType {
    PowerShell,
    Cmd,
    Wsl,
    GitBash,
}

impl Default for ShellType {
    fn default() -> (shell: Self)
        ensures
            shell == ShellType::PowerShell,
    {
        ShellType::PowerShell
    }
}

/// The state of the terminal panel: the directory commands run in and the
/// shell that runs them.
pub struct TerminalState {
    working_dir: Option<String>,
    shell_type: ShellType,
}

/// The lowercase mapping of `c`, as `char::to_lowercase` gives its first
/// character.
pub uninterp spec fn lowercased(c: char) -> char;

/// The first character of `char::to_lowercase`.
#[verifier::external_body]
fn lower_first(c: char) -> (lower: char)
    ensures
        lower == lowercased(c),
{
    c.to_lowercase().next().unwrap_or(c)
}

/// `s` with every backslash turned into a slash.
pub open spec fn slashed(s: Seq<char>) -> Seq<char> {
    Seq::new(s.len(), |i: int| if s[i] == '\\' {
        '/'
    } else {
        s[i]
    })
}

/// The path under which WSL sees the Windows path `path`: a path that
/// begins with a drive letter and a colon becomes `/mnt/`, the lowercase
/// drive letter, and the rest with slashes for backslashes; any other path
/// stays as it is.
pub open spec fn wsl_path_text(path: Seq<char>) -> Seq<char> {
    if path.len() >= 2 && path[1] == ':' {
        "/mnt/"@ + seq![lowercased(path[0])] + slashed(path.skip(2))
    } else {
        path
    }
}

/// The texts of a list of strings.
pub open spec fn words(items: Seq<String>) -> Seq<Seq<char>> {
    Seq::new(items.len(), |i: int| items[i]@)
}

/// The arguments with which the shell runs `command`.
pub open spec fn shell_arguments(shell: ShellType, command: Seq<char>) -> Seq<Seq<char>> {
    match shell {
        ShellType::PowerShell => seq!["-NoProfile"@, "-NonInteractive"@, "-Command"@, command],
        ShellType::Cmd => seq!["/C"@, command],
        ShellType::Wsl => seq!["-e"@, "bash"@, "-c"@, command],
        ShellType::GitBash => seq!["-c"@, command],
    }
}

/// The command line that WSL runs for `command` in the directory
/// `wsl_path`.
pub open spec fn wsl_command_text(wsl_path: Seq<char>, command: Seq<char>) -> Seq<char> {
    "cd '"@ + wsl_path + "' && "@ + command
}

/// What is shown of a run: the error stream alone when nothing else was
/// written, both streams with a line feed between them when both were
/// written to, and the output stream otherwise.
pub open spec fn combined_output(stdout: Seq<char>, stderr: Seq<char>) -> Seq<char> {
    if stderr.len() > 0 && stdout.len() == 0 {
        stderr
    } else if stderr.len() > 0 {
        stdout + "\n"@ + stderr
    } else {
        stdout
    }
}

impl TerminalState {
    /// The directory commands run in, if one is set.
    pub closed spec fn working_dir(&self) -> Option<Seq<char>> {
        match self.working_dir {
            Some(dir) => Some(dir@),
            None => None,
        }
    }

    /// The shell that runs commands.
    pub closed spec fn shell(&self) -> ShellType {
        self.shell_type
    }

    /// A terminal without directory, running PowerShell.
    pub fn new() -> (state: Self)
        ensures
            state.working_dir() is None,
            state.shell() == ShellType::PowerShell,
    {
        TerminalState { working_dir: None, shell_type: ShellType::PowerShell }
    }

    /// Sets the directory commands run in.
    pub fn set_working_dir(&mut self, dir: String)
        ensures
            final(self).working_dir() == Some(dir@),
            final(self).shell() == old(self).shell(),
    {
        self.working_dir = Some(dir);
    }

    /// The directory commands run in, if one is set.
    pub fn get_working_dir(&self) -> (dir: Option<&String>)
        ensures
            match dir {
                Some(text) => self.working_dir() == Some(text@),
                None => self.working_dir() is None,
            },
    {
        self.working_dir.as_ref()
    }

    /// Sets the shell that runs commands.
    pub fn set_shell_type(&mut self, shell_type: ShellType)
        ensures
            final(self).shell() == shell_type,
            final(self).working_dir() == old(self).working_dir(),
    {
        self.shell_type = shell_type;
    }

    /// The shell that runs commands.
    pub fn get_shell_type(&self) -> (shell: &ShellType)
        ensures
            *shell == self.shell(),
    {
        &self.shell_type
    }

    /// The directory that is shown: the one commands run in, or `.` when
    /// none is set.
    pub fn shown_dir(&self) -> (dir: String)
        ensures
            dir@ == match self.working_dir() {
                Some(text) => text,
                None => "."@,
            },
    {
        match &self.working_dir {
            Some(dir) => dir.clone(),
            None => ".".to_owned(),
        }
    }

    /// The directory a fresh terminal starts in: the active repository's,
    /// or else the user's home directory, or else the current directory.
    /// The terminal is set to it.
    pub fn init(&mut self, repo_path: Option<String>) -> (dir: String)
        ensures
            final(self).working_dir() == Some(dir@),
            final(self).shell() == old(self).shell(),
            repo_path matches Some(path) ==> dir@ == path@,
    {
        let dir = match repo_path {
            Some(path) => path,
            None => match user_home_dir() {
                Some(home) => path_text(&home),
                None => ".".to_owned(),
            },
        };
        self.working_dir = Some(dir.clone());
        dir
    }

    /// The program and the arguments that run `command` in the current
    /// shell. The program of Git Bash is the first of its two usual
    /// installation paths at which something exists, or plain `bash`.
    pub fn get_shell_command(&self, command: &str) -> (line: (String, Vec<String>))
        ensures
            words(line.1@) == shell_arguments(self.shell(), command@),
            match self.shell() {
                ShellType::PowerShell => line.0@ == "powershell"@,
                ShellType::Cmd => line.0@ == "cmd"@,
                ShellType::Wsl => line.0@ == "wsl"@,
                ShellType::GitBash => {
                    ||| line.0@ == "C:\\Program Files\\Git\\bin\\bash.exe"@
                    ||| line.0@ == "C:\\Program Files (x86)\\Git\\bin\\bash.exe"@
                    ||| line.0@ == "bash"@
                },
            },
    {
        let mut args: Vec<String> = Vec::new();
        match self.shell_type {
            ShellType::PowerShell => {
                args.push("-NoProfile".to_owned());
                args.push("-NonInteractive".to_owned());
                args.push("-Command".to_owned());
                args.push(command.to_owned());
                assert(words(args@) =~= shell_arguments(self.shell(), command@));
                ("powershell".to_owned(), args)
            },
            ShellType::Cmd => {
                args.push("/C".to_owned());
                args.push(command.to_owned());
                assert(words(args@) =~= shell_arguments(self.shell(), command@));
                ("cmd".to_owned(), args)
            },
            ShellType::Wsl => {
                args.push("-e".to_owned());
                args.push("bash".to_owned());
                args.push("-c".to_owned());
                args.push(command.to_owned());
                assert(words(args@) =~= shell_arguments(self.shell(), command@));
                ("wsl".to_owned(), args)
            },
            ShellType::GitBash => {
                args.push("-c".to_owned());
                args.push(command.to_owned());
                assert(words(args@) =~= shell_arguments(self.shell(), command@));
                let program = if path_exists(&path_from("C:\\Program Files\\Git\\bin\\bash.exe")) {
                    "C:\\Program Files\\Git\\bin\\bash.exe".to_owned()
                } else if path_exists(&path_from("C:\\Program Files (x86)\\Git\\bin\\bash.exe")) {
                    "C:\\Program Files (x86)\\Git\\bin\\bash.exe".to_owned()
                } else {
                    "bash".to_owned()
                };
                (program, args)
            },
        }
    }

    /// The path under which WSL sees the Windows path `path`.
    pub fn convert_to_wsl_path(&self, path: &str) -> (out: String)
        ensures
            out@ == wsl_path_text(path@),
    {
        let chars = chars_of(path);
        if chars.len() >= 2 && chars[1] == ':' {
            let mut out = "/mnt/".to_owned();
            out.push(lower_first(chars[0]));
            let ghost head = out@;
            let mut i: usize = 2;
            while i < chars.len()
                invariant
                    2 <= i <= chars.len(),
                    out@ == head + slashed(chars@.skip(2)).take(i - 2),
                decreases chars.len() - i,
            {
                let c = if chars[i] == '\\' {
                    '/'
                } else {
                    chars[i]
                };
                out.push(c);
                assert(out@ =~= head + slashed(chars@.skip(2)).take(i + 1 - 2));
                i = i + 1;
            }
            assert(slashed(chars@.skip(2)).take(chars.len() - 2) =~= slashed(chars@.skip(2)));
            out
        } else {
            path.to_owned()
        }
    }
}

impl Default for TerminalState {
    fn default() -> (state: Self)
        ensures
            state.working_dir() is None,
            state.shell() == ShellType::PowerShell,
    {
        Self::new()
    }
}

/// What is said of a path that is no directory.
pub fn missing_dir(path: &str) -> (message: String)
    ensures
        message@ == "Directory not found: "@ + path@,
{
    let mut message = "Directory not found: ".to_owned();
    message.push_str(path);
    message
}

/// The command line that WSL runs for `command` in the directory
/// `wsl_path`.
pub fn wsl_command(wsl_path: &str, command: &str) -> (out: String)
    ensures
        out@ == wsl_command_text(wsl_path@, command@),
{
    let mut out = "cd '".to_owned();
    out.push_str(wsl_path);
    out.push_str("' && ");
    out.push_str(command);
    out
}

/// What is shown of a run that wrote `stdout` and `stderr`.
pub fn combine_output(stdout: String, stderr: String) -> (out: String)
    ensures
        out@ == combined_output(stdout@, stderr@),
{
    if !stderr.as_str().is_empty() && stdout.as_str().is_empty() {
        stderr
    } else if !stderr.as_str().is_empty() {
        let mut out = stdout;
        out.push_str("\n");
        out.push_str(stderr.as_str());
        out
    } else {
        stdout
    }
}

/// A fresh terminal state, ready to be shared between callers: a lock
/// made to guard a terminal without directory, running PowerShell.
pub fn create_terminal_state() -> (shared: Arc<Mutex<TerminalState>>)
    ensures
        made_with(*shared).working_dir() is None,
        made_with(*shared).shell() == ShellType::PowerShell,
{
    Arc::new(new_mutex(TerminalState::new()))
}

} // verus!

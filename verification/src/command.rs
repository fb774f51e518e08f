//! Synthesis of native command lines: for each operation and platform, the
//! interpreter to start and the arguments to hand it.

use vstd::prelude::*;
use vstd::string::*;
use crate::platform::PlatformKind;
use crate::text::{join_plain, join_prefixed, joined, prefixed};

verus! {

/// A native process to start: the interpreter and its arguments.
#[derive(Clone, Debug, PartialEq, Eq)]
pub struct Invocation {
    pub interpreter: String,
    pub args: Vec<String>,
}

/// What an [`Invocation`] holds, as plain text.
pub struct InvocationView {
    pub interpreter: Seq<char>,
    pub args: Seq<Seq<char>>,
}

impl View for Invocation {
    type V = InvocationView;

    open spec fn view(&self) -> InvocationView {
        InvocationView { interpreter: self.interpreter@, args: self.args.deep_view() }
    }
}

impl DeepView for Invocation {
    type V = InvocationView;

    open spec fn deep_view(&self) -> InvocationView {
        self@
    }
}

/// The command interpreter of Windows, told to execute `line` and exit.
pub open spec fn windows_shell(line: Seq<char>) -> InvocationView {
    InvocationView { interpreter: "cmd"@, args: seq!["/C"@, line] }
}

/// The POSIX shell, told to execute `line`.
pub open spec fn posix_shell(line: Seq<char>) -> InvocationView {
    InvocationView { interpreter: "sh"@, args: seq!["-c"@, line] }
}

/// The platform's shell executing `line`; none where the platform is unsupported.
pub open spec fn shell_invocation(platform: PlatformKind, line: Seq<char>) -> Option<
    InvocationView,
> {
    match platform {
        PlatformKind::Windows => Some(windows_shell(line)),
        PlatformKind::MacOS | PlatformKind::Linux => Some(posix_shell(line)),
        PlatformKind::Unsupported => None,
    }
}

/// Task listing without header, filtered by an OR of one image-name clause per name.
pub open spec fn windows_detect_line(names: Seq<Seq<char>>) -> Seq<char> {
    "tasklist /FI \""@ + joined(prefixed("IMAGENAME eq "@, names), " || "@) + "\" /NH"@
}

/// Full process listing piped through a filter for the alternation of the
/// names, with the filter's own entry taken out.
pub open spec fn posix_detect_line(names: Seq<Seq<char>>) -> Seq<char> {
    "ps aux | grep -E \""@ + joined(names, "|"@) + "\" | grep -v grep"@
}

/// Forceful termination with one image-name argument per name.
pub open spec fn windows_kill_line(names: Seq<Seq<char>>) -> Seq<char> {
    "taskkill /F "@ + joined(prefixed("/IM "@, names), " "@)
}

/// Termination by name, all names as separate arguments of one call.
pub open spec fn posix_kill_line(names: Seq<Seq<char>>) -> Seq<char> {
    "killall "@ + joined(names, " "@)
}

/// The start verb with an empty title, then the quoted application name.
pub open spec fn windows_open_line(app: Seq<char>) -> Seq<char> {
    "start \"\" \""@ + app + "\""@
}

/// The application opener with the quoted application name.
pub open spec fn macos_open_line(app: Seq<char>) -> Seq<char> {
    "open -a \""@ + app + "\""@
}

/// The application's name as a command, put in the background.
pub open spec fn linux_open_line(app: Seq<char>) -> Seq<char> {
    app + " &"@
}

/// The invocation that runs `command`, which is handed to the shell as it is.
pub open spec fn run_invocation(platform: PlatformKind, command: Seq<char>) -> Option<
    InvocationView,
> {
    shell_invocation(platform, command)
}

/// The invocation that lists which of `names` are running.
pub open spec fn detect_invocation(platform: PlatformKind, names: Seq<Seq<char>>) -> Option<
    InvocationView,
> {
    match platform {
        PlatformKind::Windows => Some(windows_shell(windows_detect_line(names))),
        PlatformKind::MacOS | PlatformKind::Linux => Some(posix_shell(posix_detect_line(names))),
        PlatformKind::Unsupported => None,
    }
}

/// The invocation that terminates the processes called `names`.
pub open spec fn kill_invocation(platform: PlatformKind, names: Seq<Seq<char>>) -> Option<
    InvocationView,
> {
    match platform {
        PlatformKind::Windows => Some(windows_shell(windows_kill_line(names))),
        PlatformKind::MacOS | PlatformKind::Linux => Some(posix_shell(posix_kill_line(names))),
        PlatformKind::Unsupported => None,
    }
}

/// The invocation that launches the application called `app`.
pub open spec fn open_invocation(platform: PlatformKind, app: Seq<char>) -> Option<
    InvocationView,
> {
    match platform {
        PlatformKind::Windows => Some(windows_shell(windows_open_line(app))),
        PlatformKind::MacOS => Some(posix_shell(macos_open_line(app))),
        PlatformKind::Linux => Some(posix_shell(linux_open_line(app))),
        PlatformKind::Unsupported => None,
    }
}

/// An invocation of `interpreter` with `flag` and `line` as its two arguments.
fn shell_with(interpreter: &str, flag: &str, line: String) -> (inv: Invocation)
    ensures
        inv@ == (InvocationView { interpreter: interpreter@, args: seq![flag@, line@] }),
{
    let mut args: Vec<String> = Vec::new();
    args.push(flag.to_owned());
    args.push(line);
    let inv = Invocation { interpreter: interpreter.to_owned(), args };
    assert(inv.args.deep_view() =~= seq![flag@, line@]);
    inv
}

/// Wraps `line` for the platform's shell.
pub fn synthesize_shell(platform: PlatformKind, line: String) -> (inv: Option<Invocation>)
    ensures
        inv.deep_view() == shell_invocation(platform, line@),
{
    match platform {
        PlatformKind::Windows => Some(shell_with("cmd", "/C", line)),
        PlatformKind::MacOS | PlatformKind::Linux => Some(shell_with("sh", "-c", line)),
        PlatformKind::Unsupported => None,
    }
}

/// Synthesizes the invocation that runs `command`, unescaped and unchecked.
pub fn synthesize_run(platform: PlatformKind, command: &str) -> (inv: Option<Invocation>)
    ensures
        inv.deep_view() == run_invocation(platform, command@),
{
    synthesize_shell(platform, command.to_owned())
}

/// Synthesizes the invocation that lists which of `names` are running.
pub fn synthesize_detect(platform: PlatformKind, names: &Vec<String>) -> (inv: Option<
    Invocation,
>)
    ensures
        inv.deep_view() == detect_invocation(platform, names.deep_view()),
{
    match platform {
        PlatformKind::Windows => {
            let mut line = "tasklist /FI \"".to_owned();
            line.append(join_prefixed("IMAGENAME eq ", names, " || ").as_str());
            line.append("\" /NH");
            synthesize_shell(platform, line)
        },
        PlatformKind::MacOS | PlatformKind::Linux => {
            let mut line = "ps aux | grep -E \"".to_owned();
            line.append(join_plain(names, "|").as_str());
            line.append("\" | grep -v grep");
            synthesize_shell(platform, line)
        },
        PlatformKind::Unsupported => None,
    }
}

/// Synthesizes the invocation that terminates the processes called `names`.
pub fn synthesize_kill(platform: PlatformKind, names: &Vec<String>) -> (inv: Option<Invocation>)
    ensures
        inv.deep_view() == kill_invocation(platform, names.deep_view()),
{
    match platform {
        PlatformKind::Windows => {
            let mut line = "taskkill /F ".to_owned();
            line.append(join_prefixed("/IM ", names, " ").as_str());
            synthesize_shell(platform, line)
        },
        PlatformKind::MacOS | PlatformKind::Linux => {
            let mut line = "killall ".to_owned();
            line.append(join_plain(names, " ").as_str());
            synthesize_shell(platform, line)
        },
        PlatformKind::Unsupported => None,
    }
}

/// Synthesizes the invocation that launches the application called `app`.
pub fn synthesize_open(platform: PlatformKind, app: &str) -> (inv: Option<Invocation>)
    ensures
        inv.deep_view() == open_invocation(platform, app@),
{
    match platform {
        PlatformKind::Windows => {
            let mut line = "start \"\" \"".to_owned();
            line.append(app);
            line.append("\"");
            synthesize_shell(platform, line)
        },
        PlatformKind::MacOS => {
            let mut line = "open -a \"".to_owned();
            line.append(app);
            line.append("\"");
            synthesize_shell(platform, line)
        },
        PlatformKind::Linux => {
            let mut line = app.to_owned();
            line.append(" &");
            synthesize_shell(platform, line)
        },
        PlatformKind::Unsupported => None,
    }
}

} // verus!

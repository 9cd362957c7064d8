use vstd::prelude::*;
use vstd::string::StringExecFns;

verus! {

/// The program that opens a terminal session, with its arguments.
#[derive(Debug)]
pub struct ShellInfo {
    pub program: String,
    pub args: Vec<String>,
}

/// The mathematical value of a `ShellInfo`.
pub struct ShellInfoView {
    pub program: Seq<char>,
    pub args: Seq<Seq<char>>,
}

impl DeepView for ShellInfo {
    type V = ShellInfoView;

    open spec fn deep_view(&self) -> ShellInfoView {
        ShellInfoView { program: self.program@, args: self.args.deep_view() }
    }
}

/// The kind of system, as far as the choice of a shell depends on it.
#[derive(Clone, Copy, Debug)]
pub enum ShellPlatform {
    MacOs,
    Windows,
    Other,
}

/// The value of an option, or `fallback` where there is none.
pub open spec fn or_text(value: Option<Seq<char>>, fallback: Seq<char>) -> Seq<char> {
    match value {
        Some(v) => v,
        None => fallback,
    }
}

/// The default shell. On macOS the user's shell, or `/bin/zsh`, is started
/// through `/usr/bin/env`. On Windows PowerShell is started where it was
/// found, else the command interpreter, by its path where that was found.
/// Elsewhere the user's shell is started, or `/bin/sh`.
pub open spec fn default_shell_of(
    platform: ShellPlatform,
    shell: Option<Seq<char>>,
    powershell: Option<Seq<char>>,
    command_interpreter: Option<Seq<char>>,
) -> ShellInfoView {
    match platform {
        ShellPlatform::MacOs => ShellInfoView {
            program: "/usr/bin/env"@,
            args: seq![or_text(shell, "/bin/zsh"@)],
        },
        ShellPlatform::Windows => match powershell {
            Some(path) => ShellInfoView { program: path, args: seq!["-NoLogo"@] },
            None => ShellInfoView {
                program: or_text(command_interpreter, "cmd.exe"@),
                args: seq!["/K"@],
            },
        },
        ShellPlatform::Other => ShellInfoView {
            program: or_text(shell, "/bin/sh"@),
            args: Seq::empty(),
        },
    }
}

fn text_or(value: Option<String>, fallback: &str) -> (r: String)
    ensures
        r@ == or_text(value.deep_view(), fallback@),
{
    match value {
        Some(v) => v,
        None => String::from_str(fallback),
    }
}

/// Chooses the default shell from what the environment names as the user's
/// shell and from where the two Windows shells were found.
pub fn default_shell(
    platform: ShellPlatform,
    shell: Option<String>,
    powershell: Option<String>,
    command_interpreter: Option<String>,
) -> (r: ShellInfo)
    ensures
        r.deep_view() == default_shell_of(
            platform,
            shell.deep_view(),
            powershell.deep_view(),
            command_interpreter.deep_view(),
        ),
{
    let mut args: Vec<String> = Vec::new();
    match platform {
        ShellPlatform::MacOs => {
            let user_shell = text_or(shell, "/bin/zsh");
            args.push(user_shell);
            assert(args.deep_view() =~= seq![user_shell@]);
            ShellInfo { program: String::from_str("/usr/bin/env"), args }
        },
        ShellPlatform::Windows => match powershell {
            Some(path) => {
                args.push(String::from_str("-NoLogo"));
                assert(args.deep_view() =~= seq!["-NoLogo"@]);
                ShellInfo { program: path, args }
            },
            None => {
                args.push(String::from_str("/K"));
                assert(args.deep_view() =~= seq!["/K"@]);
                ShellInfo { program: text_or(command_interpreter, "cmd.exe"), args }
            },
        },
        ShellPlatform::Other => {
            assert(args.deep_view() =~= Seq::<Seq<char>>::empty());
            ShellInfo { program: text_or(shell, "/bin/sh"), args }
        },
    }
}

} // verus!

use vstd::prelude::*;

verus! {

/// The flavour of shell the host platform calls for, selected once at
/// launch time so the rest of the launcher stays platform-agnostic.
#[derive(Clone, Copy, Debug, PartialEq, Eq, Structural)]
pub enum Platform {
    /// An interactive command shell on Windows.
    Windows,
    /// A POSIX shell everywhere else.
    Posix,
}

/// One environment variable handed to the spawned shell.
#[derive(Debug)]
pub struct EnvVar {
    pub name: String,
    pub value: String,
}

/// A fully specified command descriptor for the shell to spawn: the
/// executable, the working directory, and the environment tailored for
/// interactive terminal use.
#[derive(Debug)]
pub struct CommandSpec {
    pub program: String,
    pub cwd: String,
    pub env: Vec<EnvVar>,
}

/// The shell executable for the given platform.
pub open spec fn shell_program_spec(platform: Platform) -> Seq<char> {
    match platform {
        Platform::Windows => "cmd.exe"@,
        Platform::Posix => "bash"@,
    }
}

/// The terminal type advertised to the child so its interactive programs
/// behave as an ANSI-capable terminal.
pub open spec fn term_value_spec(platform: Platform) -> Seq<char> {
    match platform {
        Platform::Windows => "cygwin"@,
        Platform::Posix => "xterm-256color"@,
    }
}

impl CommandSpec {
    /// True when the descriptor spawns the platform's shell in `directory`
    /// with exactly the terminal-type variable set.
    pub open spec fn is_shell_command(self, platform: Platform, directory: Seq<char>) -> bool {
        &&& self.program@ == shell_program_spec(platform)
        &&& self.cwd@ == directory
        &&& self.env@.len() == 1
        &&& self.env@[0].name@ == "TERM"@
        &&& self.env@[0].value@ == term_value_spec(platform)
    }
}

/// Builds the command descriptor for the platform's interactive shell,
/// working in `directory`, with the terminal-type variable set so the child
/// sees an ANSI-capable terminal.
pub fn build_shell_command(platform: Platform, directory: &str) -> (cmd: CommandSpec)
    ensures
        cmd.is_shell_command(platform, directory@),
{
    let program: String = match platform {
        Platform::Windows => "cmd.exe".to_owned(),
        Platform::Posix => "bash".to_owned(),
    };
    let term_value: String = match platform {
        Platform::Windows => "cygwin".to_owned(),
        Platform::Posix => "xterm-256color".to_owned(),
    };
    let mut env: Vec<EnvVar> = Vec::new();
    env.push(EnvVar { name: "TERM".to_owned(), value: term_value });
    CommandSpec { program, cwd: directory.to_owned(), env }
}

} // verus!

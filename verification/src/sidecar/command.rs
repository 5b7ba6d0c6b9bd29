//! The description of a command to spawn.

use vstd::prelude::*;
use crate::config::types::Variables;
use crate::platform::Platform;
use crate::text::{chars_of, push_all, string_of};

verus! {

/// A command: the program, its arguments, its environment, its working
/// directory and the encoding of its output.
#[derive(Debug)]
pub struct Command {
    pub program: String,
    pub args: Vec<String>,
    /// Whether the child starts from an empty environment.
    pub env_clear: bool,
    pub env: Variables,
    pub current_dir: Option<String>,
    /// The label of the character encoding of the output; UTF-8 if none.
    pub encoding: Option<String>,
}

/// The path of the program `command` in the directory `exe_dir`, as
/// `platform` writes it.
pub open spec fn relative_path(exe_dir: Seq<char>, command: Seq<char>, platform: Platform) -> Seq<
    char,
> {
    match platform {
        Platform::Posix => exe_dir + "/"@ + command,
        Platform::Other => exe_dir + "\\"@ + command + ".exe"@,
    }
}

/// The path of the program `command` beside the launcher's binary, which
/// lies in `exe_dir`; none if that directory is not known.
pub fn relative_command_path(command: &str, exe_dir: Option<&str>, platform: Platform) -> (r:
    Option<String>)
    ensures
        r.deep_view() == match exe_dir {
            Some(dir) => Some(relative_path(dir@, command@, platform)),
            None => None,
        },
{
    match exe_dir {
        Some(dir) => {
            let mut path = chars_of(dir);
            match platform {
                Platform::Posix => {
                    push_all(&mut path, &chars_of("/"));
                    push_all(&mut path, &chars_of(command));
                },
                Platform::Other => {
                    push_all(&mut path, &chars_of("\\"));
                    push_all(&mut path, &chars_of(command));
                    push_all(&mut path, &chars_of(".exe"));
                },
            }
            Some(string_of(&path))
        },
        None => None,
    }
}

impl Command {
    /// A command that launches `program` without arguments, in the
    /// launcher's environment and working directory.
    pub fn new(program: &str) -> (r: Command)
        ensures
            r.program@ == program@,
            r.args@.len() == 0,
            !r.env_clear,
            r.env@.len() == 0,
            r.current_dir is None,
            r.encoding is None,
    {
        Command {
            program: String::from_str(program),
            args: Vec::new(),
            env_clear: false,
            env: Vec::new(),
            current_dir: None,
            encoding: None,
        }
    }

    /// A command that launches the program `program` that lies beside
    /// the launcher's own binary, in `exe_dir`, if that directory is known.
    pub fn new_sidecar(program: &str, exe_dir: Option<&str>, platform: Platform) -> (r: Option<
        Command,
    >)
        ensures
            match exe_dir {
                Some(dir) => r matches Some(command) && command.program@ == relative_path(
                    dir@,
                    program@,
                    platform,
                ) && command.args@.len() == 0 && !command.env_clear && command.env@.len() == 0
                    && command.current_dir is None && command.encoding is None,
                None => r is None,
            },
    {
        match relative_command_path(program, exe_dir, platform) {
            Some(path) => Some(Command::new(path.as_str())),
            None => None,
        }
    }

    /// Appends `args` to the arguments.
    pub fn args(self, args: Vec<String>) -> (r: Command)
        ensures
            r.args@ == self.args@ + args@,
            r.program == self.program,
            r.env_clear == self.env_clear,
            r.env == self.env,
            r.current_dir == self.current_dir,
            r.encoding == self.encoding,
    {
        let mut command = self;
        let mut args = args;
        command.args.append(&mut args);
        command
    }

    /// Clears the environment that the child inherits.
    pub fn env_clear(self) -> (r: Command)
        ensures
            r == (Command { env_clear: true, ..self }),
    {
        let mut command = self;
        command.env_clear = true;
        command
    }

    /// Replaces the environment variables of the command by `env`.
    pub fn envs(self, env: Variables) -> (r: Command)
        ensures
            r == (Command { env, ..self }),
    {
        let mut command = self;
        command.env = env;
        command
    }

    /// Sets the working directory of the child.
    pub fn current_dir(self, current_dir: String) -> (r: Command)
        ensures
            r == (Command { current_dir: Some(current_dir), ..self }),
    {
        let mut command = self;
        command.current_dir = Some(current_dir);
        command
    }

    /// Sets the character encoding of the child's output by its label.
    pub fn encoding(self, label: String) -> (r: Command)
        ensures
            r == (Command { encoding: Some(label), ..self }),
    {
        let mut command = self;
        command.encoding = Some(label);
        command
    }
}

} // verus!

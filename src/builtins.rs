//! What each command of a line asks for: the five builtins, and running a
//! program for any other command word.
use vstd::prelude::*;

use crate::error::ShellError;
use crate::paths::{after_tilde, is_absolute, is_absolute_path, join_path, path_join, strip_tilde};
use crate::redirect::{extract, Redirects};
use crate::shell::{opt_words_view, words_view, Shell};
use crate::text::{decimal_value, parse_i32, same_text};

verus! {

/// The commands that the interpreter carries out itself.
#[derive(Clone, Copy, Debug, PartialEq, Eq, Structural)]
pub enum Builtin {
    Cd,
    Echo,
    Exit,
    Pwd,
    Type,
}

/// The builtin that a command word names, if any; names are compared
/// exactly, case included.
pub open spec fn builtin_of(name: Seq<char>) -> Option<Builtin> {
    if name == seq!['c', 'd'] {
        Some(Builtin::Cd)
    } else if name == seq!['e', 'c', 'h', 'o'] {
        Some(Builtin::Echo)
    } else if name == seq!['e', 'x', 'i', 't'] {
        Some(Builtin::Exit)
    } else if name == seq!['p', 'w', 'd'] {
        Some(Builtin::Pwd)
    } else if name == seq!['t', 'y', 'p', 'e'] {
        Some(Builtin::Type)
    } else {
        None
    }
}

impl Builtin {
    /// The builtin that a command word names, if any.
    pub fn from_name(name: &str) -> (r: Option<Builtin>)
        ensures
            r == builtin_of(name@),
    {
        proof {
            reveal_strlit("cd");
            reveal_strlit("echo");
            reveal_strlit("exit");
            reveal_strlit("pwd");
            reveal_strlit("type");
            assert("cd"@ =~= seq!['c', 'd']);
            assert("echo"@ =~= seq!['e', 'c', 'h', 'o']);
            assert("exit"@ =~= seq!['e', 'x', 'i', 't']);
            assert("pwd"@ =~= seq!['p', 'w', 'd']);
            assert("type"@ =~= seq!['t', 'y', 'p', 'e']);
        }
        if same_text(name, "cd") {
            Some(Builtin::Cd)
        } else if same_text(name, "echo") {
            Some(Builtin::Echo)
        } else if same_text(name, "exit") {
            Some(Builtin::Exit)
        } else if same_text(name, "pwd") {
            Some(Builtin::Pwd)
        } else if same_text(name, "type") {
            Some(Builtin::Type)
        } else {
            None
        }
    }
}

/// What carrying out a line takes. The interpreter's driver performs it:
/// it owns the streams, the files and the processes.
#[derive(Debug, PartialEq, Eq)]
pub enum Action {
    /// The line has no word: nothing to do.
    Nothing,
    /// End the interpreter's process with this status.
    Exit(i32),
    /// Open the destinations of the redirections, in order, then write the
    /// text to the last destination of standard output, or to the shell's
    /// standard output if there is none.
    Echo { text: String, redirects: Redirects },
    /// Write the text to the shell's standard output.
    Print(String),
    /// Look the name up on the search path, and report what was found with
    /// `Shell::report_location`.
    Locate(String),
    /// Write the current working directory to the shell's standard output.
    PrintWorkingDir,
    /// Change the working directory to what `Shell::cd` resolves.
    ChangeDir,
    /// Open the destinations of the redirections, in order, then run the
    /// program found on the search path under this name with the plain
    /// arguments, its standard output and error going to the last
    /// destination of each, or to the shell's own, and wait for it.
    Run { program: String, redirects: Redirects },
}

/// Words joined by single spaces.
pub open spec fn join_words(ws: Seq<Seq<char>>) -> Seq<char>
    decreases ws.len(),
{
    if ws.len() == 0 {
        Seq::empty()
    } else if ws.len() == 1 {
        ws[0]
    } else {
        join_words(ws.drop_last()) + seq![' '] + ws.last()
    }
}

/// The text of a line that `echo` writes: its words joined by spaces, and a
/// line break.
pub open spec fn echo_line(ws: Seq<Seq<char>>) -> Seq<char> {
    join_words(ws).push('\n')
}

/// The line that `type` writes for a builtin.
pub open spec fn builtin_line(name: Seq<char>) -> Seq<char> {
    name + " is a shell builtin\n"@
}

/// The line that `type` writes for a program found at `path`.
pub open spec fn location_line(name: Seq<char>, path: Seq<char>) -> Seq<char> {
    name + " is "@ + path + "\n"@
}

/// The name of the variable that holds the home directory.
pub open spec fn home_var() -> Seq<char> {
    seq!['H', 'O', 'M', 'E']
}

impl Shell {
    /// The arguments as words, none when there are no arguments.
    pub open spec fn arg_words(self) -> Seq<Seq<char>> {
        match opt_words_view(self.args) {
            Some(w) => w,
            None => Seq::empty(),
        }
    }

    /// The first argument, if any.
    pub open spec fn first_arg(self) -> Option<Seq<char>> {
        if self.arg_words().len() > 0 {
            Some(self.arg_words()[0])
        } else {
            None
        }
    }

    /// The arguments split into plain arguments and redirections, as
    /// `extract` describes.
    pub open spec fn redirects_match(self, r: Redirects) -> bool {
        (words_view(r.args), r.redirections_view()) == extract(self.arg_words())
    }

    /// What `exit` gives: the status that its first argument writes, 0 if
    /// it has none; an error if the argument is no integer of 32 bits.
    pub open spec fn exit_post(self, r: Result<Action, ShellError>) -> bool {
        match self.first_arg() {
            None => r == Ok::<Action, ShellError>(Action::Exit(0)),
            Some(a) => match decimal_value(a) {
                Some(v) if i32::MIN <= v <= i32::MAX => r == Ok::<Action, ShellError>(
                    Action::Exit(v as i32),
                ),
                _ => r matches Err(ShellError::InvalidExitCode(_)),
            },
        }
    }

    /// What `echo` gives: its plain arguments joined, to be written where
    /// the redirections say.
    pub open spec fn echo_post(self, r: Action) -> bool {
        match r {
            Action::Echo { text, redirects } => self.redirects_match(redirects) && text@
                == echo_line(words_view(redirects.args)),
            _ => false,
        }
    }

    /// What `type` gives: a line for a builtin, a lookup for any other
    /// name, and an error without an argument.
    pub open spec fn type_post(self, r: Result<Action, ShellError>) -> bool {
        match self.first_arg() {
            None => r matches Err(ShellError::NoArguments),
            Some(a) => if builtin_of(a) is Some {
                r matches Ok(Action::Print(t)) && t@ == builtin_line(a)
            } else {
                r matches Ok(Action::Locate(n)) && n@ == a
            },
        }
    }

    /// What a command word that names no builtin gives: the program of that
    /// name, run with the plain arguments and the redirections.
    pub open spec fn run_post(self, r: Action) -> bool {
        match r {
            Action::Run { program, redirects } => program@ == self.cmd@ && self.redirects_match(
                redirects,
            ),
            _ => false,
        }
    }

    /// The directory that `cd` changes to: the home directory without an
    /// argument, or for one whose first component is `~`, with the rest
    /// joined onto it; an absolute path as it is; any other path joined
    /// onto the current directory. The home directory and the current one
    /// are read only where they are needed, and an error reading them is
    /// the result.
    pub open spec fn cd_post(
        self,
        home: Option<String>,
        cwd: Result<String, ShellError>,
        r: Result<String, ShellError>,
    ) -> bool {
        let home_missing = r matches Err(ShellError::EnvVarNotFound(v)) && v@ == home_var();
        match self.first_arg() {
            None => match home {
                None => home_missing,
                Some(h) => r matches Ok(t) && t@ == h@,
            },
            Some(a) => match after_tilde(a) {
                Some(rest) => match home {
                    None => home_missing,
                    Some(h) => r matches Ok(t) && t@ == path_join(h@, rest),
                },
                None => if is_absolute_path(a) {
                    r matches Ok(t) && t@ == a
                } else {
                    match cwd {
                        Ok(c) => r matches Ok(t) && t@ == path_join(c@, a),
                        Err(e) => r == Err::<String, ShellError>(e),
                    }
                },
            },
        }
    }

    /// The prompt that is printed before each line is read.
    pub fn print_prompt() -> (r: String)
        ensures
            r@ == seq!['$', ' '],
    {
        proof {
            reveal_strlit("$ ");
        }
        String::from_str("$ ")
    }

    /// The first argument, if any.
    fn first(&self) -> (r: Option<&String>)
        ensures
            match r {
                Some(a) => self.first_arg() == Some(a@),
                None => self.first_arg() is None,
            },
    {
        match &self.args {
            Some(args) => if args.len() > 0 {
                Some(&args[0])
            } else {
                None
            },
            None => None,
        }
    }

    /// Decides what the line asks for.
    pub fn handle_cmd(&self) -> (r: Result<Action, ShellError>)
        ensures
            self.cmd@.len() == 0 ==> r == Ok::<Action, ShellError>(Action::Nothing),
            self.cmd@.len() > 0 ==> match builtin_of(self.cmd@) {
                Some(Builtin::Exit) => self.exit_post(r),
                Some(Builtin::Echo) => r is Ok && self.echo_post(r->Ok_0),
                Some(Builtin::Type) => self.type_post(r),
                Some(Builtin::Pwd) => r == Ok::<Action, ShellError>(Action::PrintWorkingDir),
                Some(Builtin::Cd) => r == Ok::<Action, ShellError>(Action::ChangeDir),
                None => r is Ok && self.run_post(r->Ok_0),
            },
    {
        if self.cmd.as_str().is_empty() {
            return Ok(Action::Nothing);
        }
        match Builtin::from_name(self.cmd.as_str()) {
            Some(Builtin::Exit) => self.exit(),
            Some(Builtin::Echo) => Ok(self.echo()),
            Some(Builtin::Type) => self.type_(),
            Some(Builtin::Pwd) => Ok(Action::PrintWorkingDir),
            Some(Builtin::Cd) => Ok(Action::ChangeDir),
            None => Ok(self.execute()),
        }
    }

    /// `exit`: the status to end with.
    pub fn exit(&self) -> (r: Result<Action, ShellError>)
        ensures
            self.exit_post(r),
    {
        match self.first() {
            None => Ok(Action::Exit(0)),
            Some(code) => match parse_i32(code.as_str()) {
                Ok(status) => Ok(Action::Exit(status)),
                Err(error) => Err(ShellError::InvalidExitCode(error)),
            },
        }
    }

    /// `echo`: the plain arguments joined by spaces, with a line break.
    pub fn echo(&self) -> (r: Action)
        ensures
            self.echo_post(r),
    {
        let redirects = self.handle_redirect();
        let text = join_line(&redirects.args);
        Action::Echo { text, redirects }
    }

    /// `type`: how the first argument would be run.
    pub fn type_(&self) -> (r: Result<Action, ShellError>)
        ensures
            self.type_post(r),
    {
        match self.first() {
            None => Err(ShellError::NoArguments),
            Some(name) => {
                if Builtin::from_name(name.as_str()).is_some() {
                    Ok(Action::Print(name.clone().concat(" is a shell builtin\n")))
                } else {
                    Ok(Action::Locate(name.clone()))
                }
            },
        }
    }

    /// The report of `type` for a name that is no builtin, from what the
    /// search path gave: the line naming where it was found, or an error.
    pub fn report_location(name: &str, found: Option<String>) -> (r: Result<String, ShellError>)
        ensures
            match found {
                Some(p) => r matches Ok(t) && t@ == location_line(name@, p@),
                None => r matches Err(ShellError::CommandNotFound(n)) && n@ == name@,
            },
    {
        match found {
            Some(path) => Ok(String::from_str(name).concat(" is ").concat(path.as_str()).concat("\n")),
            None => Err(ShellError::CommandNotFound(String::from_str(name))),
        }
    }

    /// A command word that names no builtin: the program to run.
    fn execute(&self) -> (r: Action)
        ensures
            self.run_post(r),
    {
        let redirects = self.handle_redirect();
        Action::Run { program: self.cmd.clone(), redirects }
    }

    /// `cd`: the directory to change to, from the value of `HOME` and the
    /// current directory.
    pub fn cd(&self, home: Option<String>, cwd: Result<String, ShellError>) -> (r: Result<
        String,
        ShellError,
    >)
        ensures
            self.cd_post(home, cwd, r),
            self.first_arg() == Some(seq!['~']) && home is Some ==> (r matches Ok(t) && t@
                == path_join(home->0@, Seq::empty())),
    {
        proof {
            reveal_strlit("HOME");
            assert("HOME"@ =~= home_var());
        }
        match self.first() {
            None => match home {
                None => Err(ShellError::EnvVarNotFound(String::from_str("HOME"))),
                Some(h) => Ok(h),
            },
            Some(path) => match strip_tilde(path.as_str()) {
                Some(rest) => {
                    proof {
                        if rest@.len() == 0 {
                            assert(rest@ =~= Seq::<char>::empty());
                        }
                    }
                    match home {
                        None => Err(ShellError::EnvVarNotFound(String::from_str("HOME"))),
                        Some(h) => Ok(join_path(h.as_str(), rest.as_str())),
                    }
                },
                None => if is_absolute(path.as_str()) {
                    Ok(path.clone())
                } else {
                    match cwd {
                        Ok(c) => Ok(join_path(c.as_str(), path.as_str())),
                        Err(e) => Err(e),
                    }
                },
            },
        }
    }
}

/// Words joined by single spaces, with a line break.
fn join_line(words: &Vec<String>) -> (r: String)
    ensures
        r@ == echo_line(words_view(*words)),
{
    let ghost ws = words_view(*words);
    let mut text = String::new();
    let n = words.len();
    let mut i: usize = 0;
    while i < n
        invariant
            n == words.len(),
            ws == words_view(*words),
            i <= n,
            text@ == join_words(ws.take(i as int)),
        decreases n - i,
    {
        let ghost prev = text@;
        if i > 0 {
            proof {
                reveal_strlit(" ");
                assert(" "@ =~= seq![' ']);
            }
            text.append(" ");
        }
        text.append(words[i].as_str());
        proof {
            let next = ws.take(i + 1);
            assert(next.drop_last() =~= ws.take(i as int));
            assert(next.last() == words[i as int]@);
            if i == 0 {
                assert(text@ =~= join_words(next));
            } else {
                assert(join_words(next) == prev + seq![' '] + next.last());
                assert(text@ =~= join_words(next));
            }
        }
        i = i + 1;
    }
    assert(ws.take(n as int) =~= ws);
    proof {
        reveal_strlit("\n");
        assert("\n"@ =~= seq!['\n']);
    }
    text.append("\n");
    text
}

} // verus!

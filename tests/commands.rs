use std::path::Path;

use shell::builtins::Builtin;
use shell::redirect::operator_stream;
use shell::{Action, Redirection, Redirects, Shell, ShellError, Stream};

fn parsed(line: &str) -> Shell {
    let mut sh = Shell::new();
    sh.parse_input(line);
    sh
}

fn words(v: &[&str]) -> Vec<String> {
    v.iter().map(|w| w.to_string()).collect()
}

fn to(stream: Stream, path: &str) -> Redirection {
    Redirection { stream, path: Some(path.to_string()) }
}

#[test]
fn external_command_with_both_redirections() {
    let action = parsed("ls -l 1> out.txt 2> err.txt").handle_cmd().unwrap();
    assert_eq!(
        action,
        Action::Run {
            program: "ls".to_string(),
            redirects: Redirects {
                args: words(&["-l"]),
                redirections: vec![to(Stream::Stdout, "out.txt"), to(Stream::Stderr, "err.txt")],
            },
        }
    );
}

#[test]
fn all_operator_forms() {
    let r = parsed("cmd a > f1 >> f2 1>> f3 b 2>> f4 1> f5").handle_redirect();
    assert_eq!(r.args, words(&["a", "b"]));
    assert_eq!(
        r.redirections,
        vec![
            to(Stream::Stdout, "f1"),
            to(Stream::Stdout, "f2"),
            to(Stream::Stdout, "f3"),
            to(Stream::Stderr, "f4"),
            to(Stream::Stdout, "f5"),
        ]
    );
}

#[test]
fn operator_at_end_has_no_destination() {
    let r = parsed("echo a > f 2>").handle_redirect();
    assert_eq!(r.args, words(&["a"]));
    assert_eq!(
        r.redirections,
        vec![to(Stream::Stdout, "f"), Redirection { stream: Stream::Stderr, path: None }]
    );
}

#[test]
fn operator_takes_any_next_word() {
    let r = parsed("echo > > x").handle_redirect();
    assert_eq!(r.args, words(&["x"]));
    assert_eq!(r.redirections, vec![to(Stream::Stdout, ">")]);
}

#[test]
fn quoted_operator_is_still_a_word_match() {
    let r = parsed("echo a '>' b").handle_redirect();
    assert_eq!(r.args, words(&["a"]));
    assert_eq!(r.redirections, vec![to(Stream::Stdout, "b")]);
}

#[test]
fn no_arguments_no_redirections() {
    let r = parsed("ls").handle_redirect();
    assert_eq!(r, Redirects { args: vec![], redirections: vec![] });
}

#[test]
fn operator_words() {
    assert_eq!(operator_stream(">"), Some(Stream::Stdout));
    assert_eq!(operator_stream("1>"), Some(Stream::Stdout));
    assert_eq!(operator_stream(">>"), Some(Stream::Stdout));
    assert_eq!(operator_stream("1>>"), Some(Stream::Stdout));
    assert_eq!(operator_stream("2>"), Some(Stream::Stderr));
    assert_eq!(operator_stream("2>>"), Some(Stream::Stderr));
    assert_eq!(operator_stream("3>"), None);
    assert_eq!(operator_stream(">f"), None);
    assert_eq!(operator_stream(""), None);
}

#[test]
fn echo_redirected() {
    let action = parsed("echo hello   world > out.txt").handle_cmd().unwrap();
    assert_eq!(
        action,
        Action::Echo {
            text: "hello world\n".to_string(),
            redirects: Redirects {
                args: words(&["hello", "world"]),
                redirections: vec![to(Stream::Stdout, "out.txt")],
            },
        }
    );
}

#[test]
fn echo_without_arguments_writes_a_line_break() {
    match parsed("echo").echo() {
        Action::Echo { text, .. } => assert_eq!(text, "\n"),
        other => panic!("unexpected {:?}", other),
    }
}

#[test]
fn type_of_builtin() {
    let action = parsed("type cd").handle_cmd().unwrap();
    assert_eq!(action, Action::Print("cd is a shell builtin\n".to_string()));
    let action = parsed("type type").type_().unwrap();
    assert_eq!(action, Action::Print("type is a shell builtin\n".to_string()));
}

#[test]
fn type_of_unknown_command() {
    let action = parsed("type nonexistent_cmd_xyz").handle_cmd().unwrap();
    assert_eq!(action, Action::Locate("nonexistent_cmd_xyz".to_string()));
    let err = Shell::report_location("nonexistent_cmd_xyz", None).unwrap_err();
    assert!(matches!(err, ShellError::CommandNotFound(ref n) if n == "nonexistent_cmd_xyz"));
    assert_eq!(err.message(), "nonexistent_cmd_xyz: not found");
}

#[test]
fn type_of_found_program() {
    let line = Shell::report_location("ls", Some("/bin/ls".to_string())).unwrap();
    assert_eq!(line, "ls is /bin/ls\n");
}

#[test]
fn type_without_argument() {
    let err = parsed("type").handle_cmd().unwrap_err();
    assert!(matches!(err, ShellError::NoArguments));
    assert_eq!(err.message(), "arguments are required");
}

#[test]
fn exit_with_invalid_code() {
    let err = parsed("exit abc").handle_cmd().unwrap_err();
    assert!(matches!(err, ShellError::InvalidExitCode(_)));
    assert_eq!(err.message(), "invalid exit code: invalid digit found in string");
}

#[test]
fn exit_codes() {
    assert_eq!(parsed("exit").handle_cmd().unwrap(), Action::Exit(0));
    assert_eq!(parsed("exit 7").handle_cmd().unwrap(), Action::Exit(7));
    assert_eq!(parsed("exit -3").exit().unwrap(), Action::Exit(-3));
    assert_eq!(parsed("exit +5").exit().unwrap(), Action::Exit(5));
    assert_eq!(parsed("exit 2147483647").exit().unwrap(), Action::Exit(i32::MAX));
    assert_eq!(parsed("exit -2147483648").exit().unwrap(), Action::Exit(i32::MIN));
}

#[test]
fn exit_codes_out_of_range_or_malformed() {
    for line in ["exit 2147483648", "exit -", "exit 1.5", "exit ' 7'", "exit 1_000"] {
        let err = parsed(line).exit().unwrap_err();
        assert!(matches!(err, ShellError::InvalidExitCode(_)), "{}", line);
    }
}

#[test]
fn pwd_and_cd_are_handed_to_the_driver() {
    assert_eq!(parsed("pwd").handle_cmd().unwrap(), Action::PrintWorkingDir);
    assert_eq!(parsed("cd /tmp").handle_cmd().unwrap(), Action::ChangeDir);
}

#[test]
fn builtin_names() {
    assert_eq!(Builtin::from_name("cd"), Some(Builtin::Cd));
    assert_eq!(Builtin::from_name("echo"), Some(Builtin::Echo));
    assert_eq!(Builtin::from_name("exit"), Some(Builtin::Exit));
    assert_eq!(Builtin::from_name("pwd"), Some(Builtin::Pwd));
    assert_eq!(Builtin::from_name("type"), Some(Builtin::Type));
    assert_eq!(Builtin::from_name("Echo"), None);
    assert_eq!(Builtin::from_name("ls"), None);
}

#[test]
fn prompt_text() {
    assert_eq!(Shell::print_prompt(), "$ ");
}

fn cwd() -> Result<String, ShellError> {
    Ok("/work".to_string())
}

#[test]
fn cd_home_directory() {
    let target = parsed("cd ~").cd(Some("/home/u".to_string()), cwd()).unwrap();
    assert_eq!(Path::new(&target), Path::new("/home/u"));
    let target = parsed("cd").cd(Some("/home/u".to_string()), cwd()).unwrap();
    assert_eq!(target, "/home/u");
}

#[test]
fn cd_below_home() {
    let target = parsed("cd ~/docs/a").cd(Some("/home/u".to_string()), cwd()).unwrap();
    assert_eq!(target, "/home/u/docs/a");
}

#[test]
fn cd_without_home() {
    let err = parsed("cd").cd(None, cwd()).unwrap_err();
    assert!(matches!(err, ShellError::EnvVarNotFound(ref v) if v == "HOME"));
    assert_eq!(err.message(), "$HOME not found");
    let err = parsed("cd ~/x").cd(None, cwd()).unwrap_err();
    assert!(matches!(err, ShellError::EnvVarNotFound(_)));
}

#[test]
fn cd_absolute_path_needs_no_home() {
    let target = parsed("cd /definitely/not/a/real/path").cd(None, cwd()).unwrap();
    assert_eq!(target, "/definitely/not/a/real/path");
    let err = ShellError::FileOrDirNotFound(target);
    assert_eq!(err.message(), "cd: /definitely/not/a/real/path: No such file or directory");
}

#[test]
fn cd_relative_path() {
    let target = parsed("cd src/lib").cd(None, cwd()).unwrap();
    assert_eq!(target, "/work/src/lib");
    let target = parsed("cd ~user").cd(Some("/home/u".to_string()), cwd()).unwrap();
    assert_eq!(target, "/work/~user");
}

#[test]
fn cd_relative_path_without_current_directory() {
    let unreadable = Err(ShellError::IoError(std::io::Error::new(std::io::ErrorKind::NotFound, "gone")));
    let err = parsed("cd sub").cd(None, unreadable).unwrap_err();
    assert!(matches!(err, ShellError::IoError(_)));
    assert_eq!(err.message(), "gone");
}

#[test]
fn io_error_converts() {
    let err: ShellError = std::io::Error::new(std::io::ErrorKind::Other, "broken pipe").into();
    assert!(matches!(err, ShellError::IoError(_)));
    let err = ShellError::RedirectionError(std::io::Error::new(std::io::ErrorKind::Other, "denied"));
    assert_eq!(err.message(), "denied");
}

#[test]
fn missing_variable_name_is_upper_cased() {
    let err = ShellError::EnvVarNotFound("home".to_string());
    assert_eq!(err.message(), "$HOME not found");
}

#[test]
fn redirection_targets_last_one_wins() {
    let r = parsed("cmd > a 2> e > b").handle_redirect();
    assert_eq!(r.target(Stream::Stdout), Some(2));
    assert_eq!(r.target(Stream::Stderr), Some(1));
    let r = parsed("cmd > a >").handle_redirect();
    assert_eq!(r.target(Stream::Stdout), None);
    assert_eq!(r.target(Stream::Stderr), None);
}

#[test]
fn cd_home_ignores_current_directory() {
    let unreadable = Err(ShellError::IoError(std::io::Error::new(std::io::ErrorKind::NotFound, "gone")));
    let target = parsed("cd ~").cd(Some("/home/u".to_string()), unreadable).unwrap();
    assert_eq!(Path::new(&target), Path::new("/home/u"));
    let target = parsed("cd ~").cd(Some("/home/u".to_string()), Ok("/elsewhere".to_string())).unwrap();
    assert_eq!(Path::new(&target), Path::new("/home/u"));
}

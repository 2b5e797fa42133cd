//! An interactive command interpreter: the line tokenizer, the extraction of
//! output redirections, and the decisions of the builtin commands.
pub mod builtins;
pub mod error;
pub mod lexer;
pub mod parse;
pub mod paths;
pub mod redirect;
pub mod shell;
pub mod text;

pub use builtins::{Action, Builtin};
pub use error::ShellError;
pub use redirect::{Redirection, Redirects, Stream};
pub use shell::Shell;

//! Turning a process argument list into a [`Command`].

use vstd::prelude::*;

verus! {

/// One invocation of the tool.
#[derive(Debug, Clone)]
pub enum Command {
    /// Start tracking records stored under `path`.
    Init { path: String },
    /// Create a new numbered record named after `title`.
    New { title: String },
    /// Print the names of the tracked records.
    List,
}

/// The mathematical value of a [`Command`].
pub enum CommandView {
    Init { path: Seq<char> },
    New { title: Seq<char> },
    List,
}

impl View for Command {
    type V = CommandView;

    open spec fn view(&self) -> CommandView {
        match self {
            Command::Init { path } => CommandView::Init { path: path@ },
            Command::New { title } => CommandView::New { title: title@ },
            Command::List => CommandView::List,
        }
    }
}

/// The argument list does not name a command.
#[derive(Debug, Clone, Copy, PartialEq, Eq, Structural)]
pub enum ArgumentError {
    InvalidCommandError,
}

impl ArgumentError {
    /// A human-readable description of the error.
    pub fn message(&self) -> (r: String)
        ensures
            r@ == "The first argument must be a command like [list|new|init]"@,
    {
        match self {
            ArgumentError::InvalidCommandError => {
                "The first argument must be a command like [list|new|init]".to_owned()
            },
        }
    }
}

/// The characters of each argument.
pub open spec fn arg_views(args: Seq<String>) -> Seq<Seq<char>> {
    args.map_values(|a: String| a@)
}

/// The command that an argument list names. Argument 0 is the program name.
/// A lone argument must be `list`; with two or more, `new` makes a record and
/// any other first word initialises, taking the second word as the path.
pub open spec fn resolve(args: Seq<Seq<char>>) -> Result<CommandView, ArgumentError> {
    if args.len() < 2 {
        Err(ArgumentError::InvalidCommandError)
    } else if args.len() == 2 {
        if args[1] == "list"@ {
            Ok(CommandView::List)
        } else {
            Err(ArgumentError::InvalidCommandError)
        }
    } else if args[1] == "new"@ {
        Ok(CommandView::New { title: args[2] })
    } else {
        Ok(CommandView::Init { path: args[2] })
    }
}

/// The mathematical value of a resolution outcome.
pub open spec fn outcome_view(r: Result<Command, ArgumentError>) -> Result<CommandView, ArgumentError> {
    match r {
        Ok(c) => Ok(c@),
        Err(e) => Err(e),
    }
}

/// Whether `s` holds exactly the characters of `lit`.
fn is_word(s: &String, lit: &str) -> (r: bool)
    ensures
        r == (s@ == lit@),
{
    let owned = lit.to_owned();
    *s == owned
}

/// Resolves the process argument list into a command.
pub fn validate_command_line_args(args: &Vec<String>) -> (r: Result<Command, ArgumentError>)
    ensures
        outcome_view(r) == resolve(arg_views(args@)),
{
    proof {
        reveal_strlit("list");
        reveal_strlit("new");
    }
    if args.len() < 2 {
        return Err(ArgumentError::InvalidCommandError);
    }
    let command = &args[1];
    if args.len() == 2 {
        if is_word(command, "list") {
            Ok(Command::List)
        } else {
            Err(ArgumentError::InvalidCommandError)
        }
    } else if is_word(command, "new") {
        Ok(Command::New { title: args[2].clone() })
    } else {
        Ok(Command::Init { path: args[2].clone() })
    }
}

/// An argument list without a command word is refused.
pub proof fn lemma_no_command_word(args: Seq<Seq<char>>)
    requires
        args.len() < 2,
    ensures
        resolve(args) == Err::<CommandView, ArgumentError>(ArgumentError::InvalidCommandError),
{
}

/// A lone command word other than `list` is refused.
pub proof fn lemma_lone_word_not_list(args: Seq<Seq<char>>)
    requires
        args.len() == 2,
        args[1] != "list"@,
    ensures
        resolve(args) == Err::<CommandView, ArgumentError>(ArgumentError::InvalidCommandError),
{
}

/// With two words after the program name, every first word other than `new`
/// initialises, and the second word is taken as the path.
pub proof fn lemma_other_word_initialises(args: Seq<Seq<char>>)
    requires
        args.len() >= 3,
        args[1] != "new"@,
    ensures
        resolve(args) == Ok::<CommandView, ArgumentError>(CommandView::Init { path: args[2] }),
{
}

} // verus!

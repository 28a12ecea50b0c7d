use adr::command::{validate_command_line_args, ArgumentError, Command};

fn args(words: &[&str]) -> Vec<String> {
    words.iter().map(|w| w.to_string()).collect()
}

#[test]
fn empty_argument_list_is_refused() {
    let r = validate_command_line_args(&args(&[]));
    assert!(matches!(r, Err(ArgumentError::InvalidCommandError)));
}

#[test]
fn program_name_only_is_refused() {
    let r = validate_command_line_args(&args(&["adr"]));
    assert!(matches!(r, Err(ArgumentError::InvalidCommandError)));
}

#[test]
fn list_alone_resolves_to_list() {
    let r = validate_command_line_args(&args(&["adr", "list"]));
    assert!(matches!(r, Ok(Command::List)));
}

#[test]
fn single_word_other_than_list_is_refused() {
    let r = validate_command_line_args(&args(&["adr", "anything-else"]));
    assert!(matches!(r, Err(ArgumentError::InvalidCommandError)));
    let r = validate_command_line_args(&args(&["adr", "new"]));
    assert!(matches!(r, Err(ArgumentError::InvalidCommandError)));
    let r = validate_command_line_args(&args(&["adr", "init"]));
    assert!(matches!(r, Err(ArgumentError::InvalidCommandError)));
}

#[test]
fn new_with_title_resolves_to_new() {
    let r = validate_command_line_args(&args(&["adr", "new", "My Title"]));
    match r {
        Ok(Command::New { title }) => assert_eq!(title, "My Title"),
        other => panic!("unexpected resolution: {:?}", other),
    }
}

#[test]
fn init_with_path_resolves_to_init() {
    let r = validate_command_line_args(&args(&["adr", "init", "docs/adr"]));
    match r {
        Ok(Command::Init { path }) => assert_eq!(path, "docs/adr"),
        other => panic!("unexpected resolution: {:?}", other),
    }
}

#[test]
fn any_word_but_new_with_two_arguments_resolves_to_init() {
    for word in ["whatever", "nit", "list", "NEW"] {
        let r = validate_command_line_args(&args(&["adr", word, "docs/adr"]));
        match r {
            Ok(Command::Init { path }) => assert_eq!(path, "docs/adr"),
            other => panic!("unexpected resolution for {}: {:?}", word, other),
        }
    }
}

#[test]
fn arguments_after_the_second_are_ignored() {
    let r = validate_command_line_args(&args(&["adr", "new", "T", "extra"]));
    match r {
        Ok(Command::New { title }) => assert_eq!(title, "T"),
        other => panic!("unexpected resolution: {:?}", other),
    }
}

#[test]
fn argument_error_message() {
    assert_eq!(
        ArgumentError::InvalidCommandError.message(),
        "The first argument must be a command like [list|new|init]"
    );
}

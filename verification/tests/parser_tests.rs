use botcore::parser::parse_message;
use botcore::parser::split_whitespace;

#[test]
fn command_with_arguments() {
    let (cmd, args) = parse_message("!corey hello world");
    assert_eq!(cmd.unwrap(), "corey");
    assert_eq!(args, vec!["hello".to_string(), "world".to_string()]);
}

#[test]
fn command_without_arguments() {
    let (cmd, args) = parse_message("!corey");
    assert_eq!(cmd.unwrap(), "corey");
    assert!(args.is_empty());
}

#[test]
fn plain_text_is_not_a_command() {
    let (cmd, args) = parse_message("hello");
    assert!(cmd.is_none());
    assert!(args.is_empty());
}

#[test]
fn marker_without_command_token() {
    let (cmd, args) = parse_message("!  ");
    assert!(cmd.is_none());
    assert!(args.is_empty());
}

#[test]
fn empty_text_is_not_a_command() {
    let (cmd, args) = parse_message("");
    assert!(cmd.is_none());
    assert!(args.is_empty());
}

#[test]
fn marker_alone_is_not_a_command() {
    let (cmd, args) = parse_message("!");
    assert!(cmd.is_none());
    assert!(args.is_empty());
}

#[test]
fn second_marker_ends_the_match() {
    let (cmd, args) = parse_message("!a!b");
    assert!(cmd.is_none());
    assert!(args.is_empty());
}

#[test]
fn marker_inside_arguments_is_allowed() {
    let (cmd, args) = parse_message("!ab c!d");
    assert_eq!(cmd.unwrap(), "ab");
    assert_eq!(args, vec!["c!d".to_string()]);
}

#[test]
fn trailing_single_space_is_not_a_command() {
    let (cmd, args) = parse_message("!cmd ");
    assert!(cmd.is_none());
    assert!(args.is_empty());
}

#[test]
fn line_break_in_arguments_is_not_a_command() {
    let (cmd, args) = parse_message("!cmd a\nb");
    assert!(cmd.is_none());
    assert!(args.is_empty());
}

#[test]
fn argument_runs_collapse() {
    let (cmd, args) = parse_message("!go   one \t two  ");
    assert_eq!(cmd.unwrap(), "go");
    assert_eq!(args, vec!["one".to_string(), "two".to_string()]);
}

#[test]
fn split_whitespace_drops_empty_tokens() {
    let tokens = split_whitespace("  a  bb   c ");
    assert_eq!(tokens, vec!["a".to_string(), "bb".to_string(), "c".to_string()]);
}

#[test]
fn rejoined_arguments_normalize_the_trailing_text() {
    let (cmd, args) = parse_message("!corey   hello \t  world  again ");
    assert_eq!(cmd.unwrap(), "corey");
    assert_eq!(args.join(" "), "hello world again");
}

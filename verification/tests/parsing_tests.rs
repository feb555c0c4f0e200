use rustdiscordapi::parse_arguments;
use rustdiscordapi::split_command;

#[test]
fn split_at_first_space_only() {
    let (name, args) = split_command("!echo hello world");
    assert_eq!(name, "!echo");
    assert_eq!(args, "hello world");
}

#[test]
fn split_without_space_gives_empty_args() {
    let (name, args) = split_command("!ping");
    assert_eq!(name, "!ping");
    assert_eq!(args, "");
}

#[test]
fn split_keeps_later_spaces_in_remainder() {
    let (name, args) = split_command("!cmd a  b c");
    assert_eq!(name, "!cmd");
    assert_eq!(args, "a  b c");
}

#[test]
fn split_of_empty_input() {
    let (name, args) = split_command("");
    assert_eq!(name, "");
    assert_eq!(args, "");
}

#[test]
fn split_of_leading_space() {
    let (name, args) = split_command(" trailing");
    assert_eq!(name, "");
    assert_eq!(args, "trailing");
}

#[test]
fn split_of_trailing_space() {
    let (name, args) = split_command("!cmd ");
    assert_eq!(name, "!cmd");
    assert_eq!(args, "");
}

#[test]
fn parse_arguments_splits_words() {
    assert_eq!(parse_arguments("a b c"), vec!["a", "b", "c"]);
}

#[test]
fn parse_arguments_collapses_whitespace_runs() {
    assert_eq!(parse_arguments("  one \t two\n\nthree  "), vec!["one", "two", "three"]);
}

#[test]
fn parse_arguments_of_empty_and_blank() {
    assert_eq!(parse_arguments(""), Vec::<String>::new());
    assert_eq!(parse_arguments(" \t\r\n"), Vec::<String>::new());
}

#[test]
fn parse_arguments_single_word() {
    assert_eq!(parse_arguments("word"), vec!["word"]);
}

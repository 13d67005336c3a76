use event_bridge::Command;
use event_bridge::ParseError;
use event_bridge::parse;

#[test]
fn parse_bogus_fails() {
    assert!(parse("bogus!!").is_err());
}

#[test]
fn parse_two_commands_in_order() {
    assert_eq!(parse("next\npause"), Ok(vec![Command::Next, Command::Pause]));
}

#[test]
fn parse_empty_input_is_no_commands() {
    assert_eq!(parse(""), Ok(vec![]));
}

#[test]
fn parse_every_command_word() {
    assert_eq!(parse("quit"), Ok(vec![Command::Quit]));
    assert_eq!(parse("next"), Ok(vec![Command::Next]));
    assert_eq!(parse("previous"), Ok(vec![Command::Previous]));
    assert_eq!(parse("play"), Ok(vec![Command::Play]));
    assert_eq!(parse("pause"), Ok(vec![Command::Pause]));
    assert_eq!(parse("playpause"), Ok(vec![Command::PlayPause]));
    assert_eq!(parse("stop"), Ok(vec![Command::Stop]));
}

#[test]
fn parse_trailing_newline_ignored() {
    assert_eq!(parse("next\n"), Ok(vec![Command::Next]));
}

#[test]
fn parse_empty_lines_skipped() {
    assert_eq!(
        parse("\n\nnext\n\npause\n"),
        Ok(vec![Command::Next, Command::Pause])
    );
}

#[test]
fn parse_one_bad_line_fails_whole_input() {
    assert!(parse("next\nbogus!!\npause").is_err());
}

#[test]
fn parse_is_case_sensitive() {
    assert!(parse("NEXT").is_err());
}

#[test]
fn parse_word_with_padding_fails() {
    assert!(parse(" next").is_err());
    assert!(parse("next ").is_err());
}

#[test]
fn parse_error_message_is_descriptive() {
    let e = ParseError {};
    assert_eq!(e.message(), "could not parse command input");
}

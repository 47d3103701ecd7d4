use audio_player::commands::{parse_command, Command};

fn parse(s: &str) -> Command {
    parse_command(&s.to_string())
}

#[test]
fn every_token_parses_to_its_command() {
    assert_eq!(parse("play"), Command::Play);
    assert_eq!(parse("add"), Command::Add);
    assert_eq!(parse("delete"), Command::Delete);
    assert_eq!(parse("pause"), Command::Pause);
    assert_eq!(parse("resume"), Command::Resume);
    assert_eq!(parse("vu"), Command::VolumeUp);
    assert_eq!(parse("vd"), Command::VolumeDown);
    assert_eq!(parse("clear"), Command::Clear);
    assert_eq!(parse("help"), Command::Help);
    assert_eq!(parse("list"), Command::List);
    assert_eq!(parse("exit"), Command::Exit);
}

#[test]
fn matching_is_exact_and_case_sensitive() {
    assert_eq!(parse("Play"), Command::Invalid);
    assert_eq!(parse("PLAY"), Command::Invalid);
    assert_eq!(parse("play "), Command::Invalid);
    assert_eq!(parse("pla"), Command::Invalid);
    assert_eq!(parse("played"), Command::Invalid);
    assert_eq!(parse(""), Command::Invalid);
    assert_eq!(parse("volume up"), Command::Invalid);
}

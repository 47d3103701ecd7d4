use audio_player::commands::Command;
use audio_player::session::{Action, Session};
use audio_player::volume::{Volume, VOLUME_MAX, VOLUME_STEP};

#[test]
fn a_fresh_session_has_played_nothing() {
    let s = Session::new();
    assert!(!s.hit_play);
    assert!(s.playlist.is_empty());
    assert_eq!(s.position, 0);
    assert_eq!(s.volume.permille(), VOLUME_MAX);
    assert!(!s.paused);
}

#[test]
fn play_is_admitted_only_while_the_queue_is_empty() {
    // Start a session, play a song against an empty queue, then issue
    // `play` again while the queue is busy: the second one is rejected and
    // the playlist is exactly as it was.
    let mut s = Session::new();
    assert_eq!(s.dispatch(Command::Play, true), Action::PromptForPlayPath);
    s.start_play("/music/a.mp3".to_string());
    assert_eq!(s.playlist, vec!["/music/a.mp3".to_string()]);

    assert_eq!(s.dispatch(Command::Play, false), Action::RejectBusyPlayer);
    assert_eq!(s.playlist, vec!["/music/a.mp3".to_string()]);
    assert!(s.hit_play);
}

#[test]
fn add_before_any_play_is_rejected() {
    let mut s = Session::new();
    assert_eq!(s.dispatch(Command::Add, true), Action::RejectAddBeforePlay);
    assert!(s.playlist.is_empty());
    assert!(!s.hit_play);
}

#[test]
fn add_after_a_play_joins_the_tail() {
    let mut s = Session::new();
    s.start_play("a".to_string());
    assert_eq!(s.dispatch(Command::Add, false), Action::PromptForAddPath);
    s.add_song("b".to_string());
    assert_eq!(s.playlist, vec!["a".to_string(), "b".to_string()]);
}

#[test]
fn starting_play_restarts_at_full_volume_unpaused() {
    let mut s = Session::new();
    s.volume = Volume::from_permille(300);
    s.paused = true;
    s.start_play("a".to_string());
    assert_eq!(s.volume.permille(), VOLUME_MAX);
    assert!(!s.paused);
}

#[test]
fn advancement_plays_each_later_track_once_then_halts() {
    // With playlist [a, b, c]: once a finishes, b plays; once b finishes,
    // c plays; after c nothing further is handed out, ever — and the first
    // track is never replayed.
    let mut s = Session::new();
    s.start_play("a".to_string());
    s.add_song("b".to_string());
    s.add_song("c".to_string());

    // While the queue is busy with a, nothing advances.
    assert_eq!(s.advance(false), None);
    assert_eq!(s.position, 0);

    assert_eq!(s.advance(true), Some("b".to_string()));
    assert_eq!(s.position, 1);
    assert_eq!(s.advance(true), Some("c".to_string()));
    assert_eq!(s.position, 2);

    // c has finished: the cursor steps past the tail and halts for good.
    assert_eq!(s.advance(true), None);
    assert_eq!(s.position, 3);
    for _ in 0..3 {
        assert_eq!(s.advance(true), None);
        assert_eq!(s.position, 3);
    }
}

#[test]
fn a_single_song_is_never_replayed() {
    let mut s = Session::new();
    s.start_play("a".to_string());
    assert_eq!(s.advance(true), None);
    assert_eq!(s.position, 0);
}

#[test]
fn pause_and_resume_flip_the_mirror_and_reach_the_queue() {
    let mut s = Session::new();
    assert_eq!(s.dispatch(Command::Pause, true), Action::PauseQueue);
    assert!(s.paused);
    assert_eq!(s.dispatch(Command::Resume, true), Action::ResumeQueue);
    assert!(!s.paused);
}

#[test]
fn volume_commands_step_the_mirror_and_report_the_change() {
    let mut s = Session::new();
    s.volume = Volume::from_permille(500);
    assert_eq!(s.dispatch(Command::VolumeUp, true), Action::VolumeIncreased);
    assert_eq!(s.volume.permille(), 500 + VOLUME_STEP);
    assert_eq!(s.volume.percent(), 60);
    assert_eq!(s.dispatch(Command::VolumeDown, true), Action::VolumeDecreased);
    assert_eq!(s.volume.permille(), 500);
}

#[test]
fn volume_up_at_full_scale_changes_and_prints_nothing() {
    let mut s = Session::new();
    assert_eq!(s.dispatch(Command::VolumeUp, true), Action::VolumeUnchanged);
    assert_eq!(s.volume.permille(), VOLUME_MAX);
}

#[test]
fn volume_down_at_silence_changes_and_prints_nothing() {
    let mut s = Session::new();
    s.volume = Volume::from_permille(0);
    assert_eq!(s.dispatch(Command::VolumeDown, true), Action::VolumeUnchanged);
    assert_eq!(s.volume.permille(), 0);
}

#[test]
fn the_remaining_commands_only_ask_the_loop_to_act() {
    let mut s = Session::new();
    assert_eq!(s.dispatch(Command::Delete, true), Action::PromptForDeleteIndex);
    assert_eq!(s.dispatch(Command::Clear, true), Action::ClearTerminal);
    assert_eq!(s.dispatch(Command::Help, true), Action::PrintHelp);
    assert_eq!(s.dispatch(Command::List, true), Action::ListPlaylist);
    assert_eq!(s.dispatch(Command::Exit, true), Action::ExitLoop);
    assert_eq!(s.dispatch(Command::Invalid, true), Action::InvalidCommand);
    assert!(s.playlist.is_empty());
    assert!(!s.hit_play);
}

#[test]
fn deleting_a_song_leaves_the_cursor_in_place() {
    let mut s = Session::new();
    s.start_play("a".to_string());
    s.add_song("b".to_string());
    s.add_song("c".to_string());
    assert_eq!(s.delete_song(1), Some("b".to_string()));
    assert_eq!(s.playlist, vec!["a".to_string(), "c".to_string()]);
    assert_eq!(s.position, 0);
    assert_eq!(s.delete_song(5), None);
    assert_eq!(s.playlist, vec!["a".to_string(), "c".to_string()]);
}

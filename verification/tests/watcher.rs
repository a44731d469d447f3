use win_log::watcher::{log_line, start_position, LogWatcherConfig, LogWatcherState, WatchAction, WatchEvent};

#[test]
fn resumes_only_a_grown_file() {
    assert_eq!(start_position(None, 100), 0);
    assert_eq!(start_position(Some(LogWatcherConfig { size: 50, pos: 40 }), 100), 40);
    assert_eq!(start_position(Some(LogWatcherConfig { size: 150, pos: 40 }), 100), 0);
    assert_eq!(start_position(Some(LogWatcherConfig { size: 50, pos: 100 }), 100), 0);
}

#[test]
fn watcher_follows_lines_and_rotates() {
    let mut w = LogWatcherState::new(0, 10, 2000);
    assert_eq!(w.step(WatchEvent::LineRead(1500)), WatchAction::SeekTo(1500));
    assert_eq!(w.step(WatchEvent::EndOfFile), WatchAction::SleepThenReopen);
    assert_eq!(w.step(WatchEvent::Reopened(1600)), WatchAction::ReadNext);
    assert_eq!(w.size, 1600);
    assert_eq!(w.step(WatchEvent::LineRead(600)), WatchAction::SeekTo(2100));
    assert_eq!(w.step(WatchEvent::EndOfFile), WatchAction::Rotate);
    assert_eq!(w.step(WatchEvent::Rotated), WatchAction::SleepThenReopen);
    assert_eq!((w.pos, w.size), (0, 0));
    assert_eq!(w.saved(77), LogWatcherConfig { pos: 0, size: 77 });
}

#[test]
fn log_lines_lose_their_newlines() {
    assert_eq!(log_line("2021 UDP Rcv 10.0.0.1\n"), Some(String::from("2021 UDP Rcv 10.0.0.1")));
    assert_eq!(log_line("a\nb\n\nc"), Some(String::from("abc")));
    assert_eq!(log_line("\n"), None);
    assert_eq!(log_line(""), None);
    assert_eq!(log_line("é\r\n"), Some(String::from("é\r")));
}

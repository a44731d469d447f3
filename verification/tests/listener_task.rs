use win_log::common::{default_stopper, EventBookmark, EvtListenerConfiguration, FileListenerConfiguration, ListenerConfiguration, ULoggerError};
use win_log::winevt::{
    checked_bookmark, extract_record_id, subscribe_status, Delivery, ListenerAction, ListenerEvent, ListenerTask,
    ERROR_EVT_CHANNEL_NOT_FOUND, ERROR_EVT_INVALID_CHANNEL_PATH, ERROR_EVT_INVALID_QUERY,
};

fn message(e: ULoggerError) -> (String, String) {
    match e {
        ULoggerError::EventChannelNotFound(m) => ("EventChannelNotFound".to_string(), m),
        ULoggerError::EventQueryInvalid(m) => ("EventQueryInvalid".to_string(), m),
        ULoggerError::InvalidConfigFile(m) => ("InvalidConfigFile".to_string(), m),
        other => (format!("{:?}", other), String::new()),
    }
}

#[test]
fn record_id_is_cut_out() {
    let xml = "<Event><System><EventRecordID>4242</EventRecordID></System></Event>";
    assert_eq!(extract_record_id(xml), "4242");
    assert_eq!(extract_record_id("<Event/>"), "0");
    assert_eq!(extract_record_id("é<EventRecordID>7é<"), "7é");
    assert_eq!(extract_record_id("<EventRecordID><"), "");
}

#[test]
fn subscription_statuses() {
    assert!(subscribe_status(0, "Security").is_ok());
    assert_eq!(
        message(subscribe_status(ERROR_EVT_INVALID_CHANNEL_PATH, "Bad").unwrap_err()),
        ("EventChannelNotFound".to_string(), "Invalid channel: Bad".to_string())
    );
    assert_eq!(
        message(subscribe_status(ERROR_EVT_CHANNEL_NOT_FOUND, "Gone").unwrap_err()),
        ("EventChannelNotFound".to_string(), "Channel not found: Gone".to_string())
    );
    assert_eq!(
        message(subscribe_status(ERROR_EVT_INVALID_QUERY, "Security").unwrap_err()),
        ("EventQueryInvalid".to_string(), "Invalid query: Security".to_string())
    );
}

#[test]
fn bookmark_handles() {
    assert_eq!(checked_bookmark(77).ok(), Some(77));
    assert_eq!(
        message(checked_bookmark(0).unwrap_err()),
        ("InvalidConfigFile".to_string(), "Cannot create bookmark".to_string())
    );
}

#[test]
fn empty_polls_slow_down() {
    let mut t = ListenerTask::new();
    for i in 1..=10 {
        assert_eq!(t.step(ListenerEvent::Polled(0)), ListenerAction::Yield);
        assert_eq!(t.times_without_events, i);
    }
    assert_eq!(t.step(ListenerEvent::Polled(0)), ListenerAction::YieldThenSleep);
    assert_eq!(t.step(ListenerEvent::Polled(3)), ListenerAction::Deliver);
    assert_eq!(t.times_without_events, 0);
    assert_eq!(t.step(ListenerEvent::Polled(0)), ListenerAction::Yield);
}

#[test]
fn sending_outcomes() {
    let mut t = ListenerTask::new();
    assert_eq!(t.step(ListenerEvent::Sent), ListenerAction::NextEvent);
    assert_eq!(t.step(ListenerEvent::ChannelFull), ListenerAction::RetryAfterSleep);
    assert_eq!(t.step(ListenerEvent::ChannelClosed), ListenerAction::RaiseStop);
    assert_eq!(t.times_without_events, 0);
}

#[test]
fn bookmark_is_stored_and_read_back() {
    let mut c = ListenerConfiguration::Event(EvtListenerConfiguration {
        bookmark: None,
        query: "*".to_string(),
        channel: "Security".to_string(),
        stop: default_stopper(),
    });
    c.store_bookmark("<BookmarkList/>".to_string());
    let s = c.subscription().ok().expect("event listener");
    assert_eq!(s.bookmark.map(|b: EventBookmark| b.xml), Some("<BookmarkList/>".to_string()));
    assert_eq!(s.channel, "Security");

    let mut f = ListenerConfiguration::File(FileListenerConfiguration { position: 1, size: 2, stop: default_stopper() });
    f.store_bookmark("x".to_string());
    match &f {
        ListenerConfiguration::File(fc) => assert_eq!((fc.position, fc.size), (1, 2)),
        _ => panic!("kind changed"),
    }
    assert_eq!(
        message(f.subscription().err().expect("no subscription")),
        ("InvalidConfigFile".to_string(), "Invalid configuration. Must be EventListener".to_string())
    );
}

#[test]
fn delivery_hands_events_over_once_in_order() {
    let mut task = ListenerTask::new();
    let mut d = Delivery::new(vec!["a".to_string(), "b".to_string(), "c".to_string()]);
    let mut taken = Vec::new();
    let outcomes = [ListenerEvent::ChannelFull, ListenerEvent::Sent, ListenerEvent::ChannelClosed, ListenerEvent::Sent];
    let mut actions = Vec::new();
    for o in outcomes {
        let msg = d.current().expect("an event is pending");
        if o == ListenerEvent::Sent {
            taken.push(msg);
        }
        actions.push(d.on_send(&mut task, o));
    }
    assert!(d.current().is_none());
    assert_eq!(taken, vec!["a".to_string(), "c".to_string()]);
    assert_eq!(
        actions,
        vec![ListenerAction::RetryAfterSleep, ListenerAction::NextEvent, ListenerAction::RaiseStop, ListenerAction::NextEvent]
    );
}

use std::sync::atomic::Ordering;
use std::sync::{Arc, Mutex};

use win_log::common::{
    default_stopper, registry_dword_progress, registry_sz_progress, EventBookmark, EvtListenerConfiguration,
    FileListenerConfiguration, ListenerConfiguration, QueryReply, RegistryError, RegistryReplies, ULoggerError, REG_DWORD,
    REG_SZ,
};
use win_log::listeners::{default_listeners, get_listeners_or_default};
use win_log::winevt::WinEvtListener;

fn evt(channel: &str, bookmark: Option<&str>) -> EvtListenerConfiguration {
    EvtListenerConfiguration {
        bookmark: bookmark.map(|b| EventBookmark { xml: b.to_string() }),
        query: "*".to_string(),
        channel: channel.to_string(),
        stop: default_stopper(),
    }
}

#[test]
fn clone_keeps_fields_but_not_stop_flag() {
    let c = evt("Security", Some("<BookmarkList/>"));
    let d = c.clone();
    assert_eq!(d.channel, "Security");
    assert_eq!(d.query, "*");
    assert_eq!(d.bookmark.as_ref().map(|b| b.xml.as_str()), Some("<BookmarkList/>"));
    c.stop.store(true, Ordering::Relaxed);
    assert!(!d.stop.load(Ordering::Relaxed));
}

#[test]
fn stop_listener_is_shared() {
    let c = evt("Security", None);
    let s = c.get_stop_listener();
    assert!(Arc::ptr_eq(&s, &c.stop));
    s.store(true, Ordering::Relaxed);
    assert!(c.stop.load(Ordering::Relaxed));
    assert!(!default_stopper().load(Ordering::Relaxed));
}

#[test]
fn defaults_when_listeners_cannot_be_read() {
    assert_eq!(default_listeners(), vec![("Security", "*"), ("Microsoft-Windows-Sysmon/Operational", "*")]);
    let got = get_listeners_or_default(Err(ULoggerError::InvalidPath(String::from("Invalid path x")))).unwrap();
    assert_eq!(got.len(), 2);
    match &got[1] {
        ListenerConfiguration::Event(e) => {
            assert_eq!(e.channel, "Microsoft-Windows-Sysmon/Operational");
            assert_eq!(e.query, "*");
            assert!(e.bookmark.is_none());
        }
        ListenerConfiguration::File(_) => panic!("expected an event listener"),
    }
}

#[test]
fn saved_listeners_are_kept() {
    let saved = vec![
        ListenerConfiguration::Event(evt("Application", Some("b"))),
        ListenerConfiguration::File(FileListenerConfiguration { position: 3, size: 9, stop: default_stopper() }),
    ];
    let got = get_listeners_or_default(Ok(saved)).unwrap();
    assert_eq!(got.len(), 2);
    assert!(got[0].is_event());
    assert!(!got[1].is_event());
}

#[test]
fn winevt_listener_keeps_event_listeners_only() {
    let mut w = WinEvtListener::init();
    assert_eq!(w.configurations().len(), 0);
    let e = Arc::new(Mutex::new(ListenerConfiguration::Event(evt("Security", None))));
    let f = Arc::new(Mutex::new(ListenerConfiguration::File(FileListenerConfiguration {
        position: 0,
        size: 0,
        stop: default_stopper(),
    })));
    w.add_configuration(e.clone());
    w.add_configuration(f.clone());
    assert_eq!(w.configurations().len(), 1);
    assert!(Arc::ptr_eq(&w.configurations()[0], &e));
    w.add_if_event(f.clone(), Some(false));
    w.add_if_event(f.clone(), None);
    assert_eq!(w.configurations().len(), 1);
    w.add_if_event(e.clone(), Some(true));
    assert_eq!(w.configurations().len(), 2);
}

fn replies(open: u32, query: Option<(u32, u32, u32)>, close: Option<u32>) -> RegistryReplies {
    RegistryReplies {
        open_status: open,
        query: query.map(|(status, value_type, size)| QueryReply { status, value_type, size }),
        close_status: close,
    }
}

#[test]
fn registry_string_read() {
    let data = b"C:\\dns\\dns.log\0".to_vec();
    assert!(registry_sz_progress(&replies(0, None, None), &data).is_none());
    assert!(registry_sz_progress(&replies(0, Some((0, REG_SZ, 15)), None), &data).is_none());
    assert_eq!(
        registry_sz_progress(&replies(0, Some((0, REG_SZ, 15)), Some(0)), &data),
        Some(Ok(String::from("C:\\dns\\dns.log")))
    );
    assert_eq!(registry_sz_progress(&replies(0, Some((0, REG_SZ, 0)), Some(0)), &data), Some(Ok(String::new())));
}

#[test]
fn registry_string_errors() {
    let data = [0u8; 4];
    assert_eq!(registry_sz_progress(&replies(2, None, None), &data), Some(Err(RegistryError::OpenKeyError(2))));
    assert_eq!(
        registry_sz_progress(&replies(0, Some((234, 7, 0)), None), &data),
        Some(Err(RegistryError::QueryValueError(234)))
    );
    assert_eq!(
        registry_sz_progress(&replies(0, Some((0, REG_SZ, 1)), Some(6)), &data),
        Some(Err(RegistryError::CloseValueError(6)))
    );
    assert_eq!(
        registry_sz_progress(&replies(0, Some((0, REG_DWORD, 4)), Some(0)), &data),
        Some(Err(RegistryError::InvalidValueType(REG_DWORD)))
    );
}

#[test]
fn registry_number_read() {
    let data = [0x00, 0xe1, 0xf5, 0x05];
    assert_eq!(registry_dword_progress(&replies(0, None, None), data), None);
    assert_eq!(registry_dword_progress(&replies(0, Some((0, REG_DWORD, 4)), None), data), None);
    assert_eq!(registry_dword_progress(&replies(0, Some((0, REG_DWORD, 4)), Some(0)), data), Some(Ok(100000000)));
    assert_eq!(registry_dword_progress(&replies(5, None, None), data), Some(Err(RegistryError::OpenKeyError(5))));
    // The type is judged before the status of the query.
    assert_eq!(
        registry_dword_progress(&replies(0, Some((2, REG_SZ, 4)), None), data),
        Some(Err(RegistryError::InvalidValueType(REG_SZ)))
    );
    assert_eq!(
        registry_dword_progress(&replies(0, Some((2, REG_DWORD, 4)), None), data),
        Some(Err(RegistryError::QueryValueError(2)))
    );
    assert_eq!(
        registry_dword_progress(&replies(0, Some((0, REG_DWORD, 4)), Some(9)), data),
        Some(Err(RegistryError::CloseValueError(9)))
    );
}

#[test]
fn offered_listeners_keep_event_ones_in_order() {
    let mut w = WinEvtListener::init();
    let a = Arc::new(Mutex::new(ListenerConfiguration::Event(evt("A", None))));
    let b = Arc::new(Mutex::new(ListenerConfiguration::Event(evt("B", None))));
    let outcomes = [Some(true), Some(false), None, Some(true), Some(true)];
    let configs = [a.clone(), b.clone(), a.clone(), b.clone(), a.clone()];
    for (c, o) in configs.iter().zip(outcomes.iter()) {
        w.add_if_event(c.clone(), *o);
    }
    let kept = w.configurations();
    assert_eq!(kept.len(), 3);
    assert!(Arc::ptr_eq(&kept[0], &a) && Arc::ptr_eq(&kept[1], &b) && Arc::ptr_eq(&kept[2], &a));
}

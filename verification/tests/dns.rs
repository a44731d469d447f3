use win_log::common::RegistryError;
use win_log::dns::{dns_configuration_from, DnsLogLevel, EventLogLevel, ALL_LOG_BITS};

#[test]
fn test_log_level() {
    // 20737 = outbound, udp, querys, requests
    let log_level = DnsLogLevel::new(20737);
    assert!(log_level.outbound);
    assert!(!log_level.inbound);
    assert!(log_level.querys);
    assert!(log_level.requests);
    assert!(log_level.udp);
    // 50393905 = ALL true
    let log_level = DnsLogLevel::new(50393905);
    assert!(log_level.outbound);
    assert!(log_level.inbound);
    assert!(log_level.querys);
    assert!(log_level.requests);
    assert!(log_level.notifications);
    assert!(log_level.no_match);
    assert!(log_level.updates);
    assert!(log_level.udp);
    assert!(log_level.tcp);
    assert_eq!(log_level.as_flag(), 50393905);
}

#[test]
fn log_level_documented_values() {
    // Values listed in the extractor notes.
    assert_eq!(DnsLogLevel::new(20737).as_flag(), 20737);
    assert_eq!(DnsLogLevel::new(24833).as_flag(), 24833);
    assert_eq!(DnsLogLevel::new(37121).as_flag(), 37121);
    assert_eq!(DnsLogLevel::new(61697).as_flag(), 61697);
    assert_eq!(DnsLogLevel::new(61984).as_flag(), 61984);
    assert_eq!(DnsLogLevel::new(61968).as_flag(), 61968);
    assert_eq!(DnsLogLevel::new(33616689).as_flag(), 33616689);
    let l = DnsLogLevel::new(33616689);
    assert!(l.no_match && !l.details && l.answer && l.updates);
}

#[test]
fn log_level_drops_unknown_bits() {
    assert_eq!(ALL_LOG_BITS, 50393905);
    assert_eq!(DnsLogLevel::new(u32::MAX).as_flag(), 50393905);
    assert_eq!(DnsLogLevel::new(0b10).as_flag(), 0);
    assert_eq!(DnsLogLevel::new(0).as_flag(), 0);
    let l = DnsLogLevel::new(0);
    assert!(!l.no_match && !l.details && !l.tcp && !l.udp && !l.querys);
}

#[test]
fn log_level_round_trip_from_flags() {
    let mut l = DnsLogLevel::new(0);
    l.details = true;
    l.inbound = true;
    l.querys = true;
    assert_eq!(l.as_flag(), 0x0100_0000 + 0x2000 + 1);
    assert_eq!(DnsLogLevel::new(l.as_flag()), l);
}

#[test]
fn event_log_level_codes() {
    assert_eq!(EventLogLevel::from_code(0), EventLogLevel::NoEvents);
    assert_eq!(EventLogLevel::from_code(1), EventLogLevel::Errors);
    assert_eq!(EventLogLevel::from_code(2), EventLogLevel::ErrorsAndWarnings);
    assert_eq!(EventLogLevel::from_code(7), EventLogLevel::All);
    assert_eq!(EventLogLevel::from_code(3), EventLogLevel::NoEvents);
}

#[test]
fn dns_configuration_from_registry_values() {
    let c = dns_configuration_from(
        Ok(String::from("C:\\dns\\dns.log")),
        Ok(100000000),
        Ok(50393905),
        Ok(2),
    )
    .expect("logging is on");
    assert_eq!(c.log_file, "C:\\dns\\dns.log");
    assert_eq!(c.log_file_max_size, 100000000);
    assert_eq!(c.log_level.as_flag(), 50393905);
    assert_eq!(c.event_log_level, EventLogLevel::ErrorsAndWarnings);
}

#[test]
fn dns_configuration_defaults_on_failed_reads() {
    let c = dns_configuration_from(
        Err(RegistryError::OpenKeyError(2)),
        Err(RegistryError::QueryValueError(2)),
        Ok(20737),
        Err(RegistryError::InvalidValueType(1)),
    )
    .expect("logging is on");
    assert_eq!(c.log_file, "C:\\Windows\\System32\\dns\\dns.log");
    assert_eq!(c.log_file_max_size, 0);
    assert_eq!(c.event_log_level, EventLogLevel::NoEvents);
}

#[test]
fn dns_configuration_absent_without_log_level() {
    assert!(dns_configuration_from(Ok(String::from("x")), Ok(1), Ok(0), Ok(7)).is_none());
    assert!(dns_configuration_from(Ok(String::from("x")), Ok(1), Err(RegistryError::OpenKeyError(5)), Ok(7)).is_none());
}

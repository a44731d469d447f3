//! DNS server logging configuration, as stored in the registry under
//! `SYSTEM\CurrentControlSet\Services\DNS\Parameters`.

use vstd::prelude::*;

use crate::common::RegistryError;

verus! {

/// `LogLevel` bit: log packets that match no other filter.
pub const NO_MATCH_BIT: u32 = 0x0200_0000;
/// `LogLevel` bit: detailed packet logging.
pub const DETAILS_BIT: u32 = 0x0100_0000;
/// `LogLevel` bit: TCP packets.
pub const TCP_BIT: u32 = 0x0000_8000;
/// `LogLevel` bit: UDP packets.
pub const UDP_BIT: u32 = 0x0000_4000;
/// `LogLevel` bit: inbound packets.
pub const INBOUND_BIT: u32 = 0x0000_2000;
/// `LogLevel` bit: outbound packets.
pub const OUTBOUND_BIT: u32 = 0x0000_1000;
/// `LogLevel` bit: answers.
pub const ANSWER_BIT: u32 = 0x0000_0200;
/// `LogLevel` bit: requests.
pub const REQUESTS_BIT: u32 = 0x0000_0100;
/// `LogLevel` bit: dynamic updates.
pub const UPDATES_BIT: u32 = 0x0000_0020;
/// `LogLevel` bit: notifications.
pub const NOTIFICATIONS_BIT: u32 = 0x0000_0010;
/// `LogLevel` bit: queries and zone transfers.
pub const QUERYS_BIT: u32 = 0x0000_0001;
/// Every `LogLevel` bit that [`DnsLogLevel`] knows of (50393905).
pub const ALL_LOG_BITS: u32 = 0x0300_F331;

/// The decoded DNS server `LogLevel` registry value: one flag per known bit.
#[derive(Clone, Copy, Debug, PartialEq, Eq, Structural)]
pub struct DnsLogLevel {
    pub no_match: bool,
    pub details: bool,
    pub tcp: bool,
    pub udp: bool,
    pub inbound: bool,
    pub outbound: bool,
    pub answer: bool,
    pub updates: bool,
    pub requests: bool,
    pub notifications: bool,
    pub querys: bool,
}

/// Whether `flag` has any of the bits of `bit` set.
pub open spec fn has_bit(flag: u32, bit: u32) -> bool {
    flag & bit != 0
}

/// The contribution of one flag to the registry value.
pub open spec fn bit_if(set: bool, bit: u32) -> u32 {
    if set { bit } else { 0 }
}

/// The contribution of one flag to the registry value.
fn flag_bit(set: bool, bit: u32) -> (res: u32)
    ensures
        res == bit_if(set, bit),
{
    if set {
        bit
    } else {
        0
    }
}

impl DnsLogLevel {
    /// The registry value that encodes these flags: the sum of the bits of
    /// the flags that are set (the bits are distinct powers of two).
    pub open spec fn spec_flag(self) -> int {
        bit_if(self.no_match, NO_MATCH_BIT) + bit_if(self.details, DETAILS_BIT)
            + bit_if(self.tcp, TCP_BIT) + bit_if(self.udp, UDP_BIT)
            + bit_if(self.inbound, INBOUND_BIT) + bit_if(self.outbound, OUTBOUND_BIT)
            + bit_if(self.answer, ANSWER_BIT) + bit_if(self.requests, REQUESTS_BIT)
            + bit_if(self.updates, UPDATES_BIT) + bit_if(self.notifications, NOTIFICATIONS_BIT)
            + bit_if(self.querys, QUERYS_BIT)
    }

    /// The flags that a registry value decodes to.
    pub open spec fn spec_new(flag: u32) -> DnsLogLevel {
        DnsLogLevel {
            no_match: has_bit(flag, NO_MATCH_BIT),
            details: has_bit(flag, DETAILS_BIT),
            tcp: has_bit(flag, TCP_BIT),
            udp: has_bit(flag, UDP_BIT),
            inbound: has_bit(flag, INBOUND_BIT),
            outbound: has_bit(flag, OUTBOUND_BIT),
            answer: has_bit(flag, ANSWER_BIT),
            updates: has_bit(flag, UPDATES_BIT),
            requests: has_bit(flag, REQUESTS_BIT),
            notifications: has_bit(flag, NOTIFICATIONS_BIT),
            querys: has_bit(flag, QUERYS_BIT),
        }
    }

    /// Decodes a `LogLevel` registry value; bits that no flag stands for are ignored.
    pub fn new(flag: u32) -> (res: Self)
        ensures
            res == Self::spec_new(flag),
            res.no_match == (flag & 0x0200_0000u32 != 0),
            res.details == (flag & 0x0100_0000u32 != 0),
            res.tcp == (flag & 0x0000_8000u32 != 0),
            res.udp == (flag & 0x0000_4000u32 != 0),
            res.inbound == (flag & 0x0000_2000u32 != 0),
            res.outbound == (flag & 0x0000_1000u32 != 0),
            res.answer == (flag & 0x0000_0200u32 != 0),
            res.requests == (flag & 0x0000_0100u32 != 0),
            res.updates == (flag & 0x0000_0020u32 != 0),
            res.notifications == (flag & 0x0000_0010u32 != 0),
            res.querys == (flag & 0x0000_0001u32 != 0),
    {
        Self {
            no_match: (flag & NO_MATCH_BIT) > 0,
            details: (flag & DETAILS_BIT) > 0,
            tcp: (flag & TCP_BIT) > 0,
            udp: (flag & UDP_BIT) > 0,
            inbound: (flag & INBOUND_BIT) > 0,
            outbound: (flag & OUTBOUND_BIT) > 0,
            answer: (flag & ANSWER_BIT) > 0,
            requests: (flag & REQUESTS_BIT) > 0,
            updates: (flag & UPDATES_BIT) > 0,
            notifications: (flag & NOTIFICATIONS_BIT) > 0,
            querys: (flag & QUERYS_BIT) > 0,
        }
    }

    /// Encodes the flags back into a `LogLevel` registry value.
    pub fn as_flag(&self) -> (res: u32)
        ensures
            res == self.spec_flag(),
            self.no_match == (res & 0x0200_0000u32 != 0),
            self.details == (res & 0x0100_0000u32 != 0),
            self.tcp == (res & 0x0000_8000u32 != 0),
            self.udp == (res & 0x0000_4000u32 != 0),
            self.inbound == (res & 0x0000_2000u32 != 0),
            self.outbound == (res & 0x0000_1000u32 != 0),
            self.answer == (res & 0x0000_0200u32 != 0),
            self.requests == (res & 0x0000_0100u32 != 0),
            self.updates == (res & 0x0000_0020u32 != 0),
            self.notifications == (res & 0x0000_0010u32 != 0),
            self.querys == (res & 0x0000_0001u32 != 0),
            res & 0xFCFF_0CCEu32 == 0,
    {
        // Each step adds at most its own bit, so the running sum stays below
        // the sum of the bits seen so far.
        let mut to_ret: u32 = 0;
        let c: u32 = flag_bit(self.no_match, NO_MATCH_BIT);
        assert(c <= NO_MATCH_BIT);
        to_ret = to_ret + c;
        assert(to_ret <= 0x2000000);
        let c: u32 = flag_bit(self.details, DETAILS_BIT);
        assert(c <= DETAILS_BIT);
        to_ret = to_ret + c;
        assert(to_ret <= 0x3000000);
        let c: u32 = flag_bit(self.tcp, TCP_BIT);
        assert(c <= TCP_BIT);
        to_ret = to_ret + c;
        assert(to_ret <= 0x3008000);
        let c: u32 = flag_bit(self.udp, UDP_BIT);
        assert(c <= UDP_BIT);
        to_ret = to_ret + c;
        assert(to_ret <= 0x300c000);
        let c: u32 = flag_bit(self.inbound, INBOUND_BIT);
        assert(c <= INBOUND_BIT);
        to_ret = to_ret + c;
        assert(to_ret <= 0x300e000);
        let c: u32 = flag_bit(self.outbound, OUTBOUND_BIT);
        assert(c <= OUTBOUND_BIT);
        to_ret = to_ret + c;
        assert(to_ret <= 0x300f000);
        let c: u32 = flag_bit(self.answer, ANSWER_BIT);
        assert(c <= ANSWER_BIT);
        to_ret = to_ret + c;
        assert(to_ret <= 0x300f200);
        let c: u32 = flag_bit(self.requests, REQUESTS_BIT);
        assert(c <= REQUESTS_BIT);
        to_ret = to_ret + c;
        assert(to_ret <= 0x300f300);
        let c: u32 = flag_bit(self.updates, UPDATES_BIT);
        assert(c <= UPDATES_BIT);
        to_ret = to_ret + c;
        assert(to_ret <= 0x300f320);
        let c: u32 = flag_bit(self.notifications, NOTIFICATIONS_BIT);
        assert(c <= NOTIFICATIONS_BIT);
        to_ret = to_ret + c;
        assert(to_ret <= 0x300f330);
        let c: u32 = flag_bit(self.querys, QUERYS_BIT);
        assert(c <= QUERYS_BIT);
        to_ret = to_ret + c;
        assert(to_ret <= 0x300f331);
        proof {
            lemma_bits_of_encoding(*self);
        }
        to_ret
    }
}

/// Encoding after decoding keeps exactly the known bits of a registry value:
/// `DnsLogLevel::new(flag).as_flag() == flag & ALL_LOG_BITS`.
pub proof fn lemma_flag_of_new(flag: u32)
    ensures
        DnsLogLevel::spec_new(flag).spec_flag() == (flag & ALL_LOG_BITS),
{
    assert(
        (if flag & 0x0200_0000u32 != 0 { 0x0200_0000u32 } else { 0u32 })
        + (if flag & 0x0100_0000u32 != 0 { 0x0100_0000u32 } else { 0u32 })
        + (if flag & 0x0000_8000u32 != 0 { 0x0000_8000u32 } else { 0u32 })
        + (if flag & 0x0000_4000u32 != 0 { 0x0000_4000u32 } else { 0u32 })
        + (if flag & 0x0000_2000u32 != 0 { 0x0000_2000u32 } else { 0u32 })
        + (if flag & 0x0000_1000u32 != 0 { 0x0000_1000u32 } else { 0u32 })
        + (if flag & 0x0000_0200u32 != 0 { 0x0000_0200u32 } else { 0u32 })
        + (if flag & 0x0000_0100u32 != 0 { 0x0000_0100u32 } else { 0u32 })
        + (if flag & 0x0000_0020u32 != 0 { 0x0000_0020u32 } else { 0u32 })
        + (if flag & 0x0000_0010u32 != 0 { 0x0000_0010u32 } else { 0u32 })
        + (if flag & 0x0000_0001u32 != 0 { 0x0000_0001u32 } else { 0u32 })
        == flag & 0x0300_F331u32
    ) by (bit_vector);
}

/// Decoding after encoding gives back the same flags:
/// `DnsLogLevel::new(level.as_flag()) == level`.
pub proof fn lemma_new_of_flag(level: DnsLogLevel)
    ensures
        level.spec_flag() <= u32::MAX,
        DnsLogLevel::spec_new(level.spec_flag() as u32) == level,
        (level.spec_flag() as u32) & 0xFCFF_0CCEu32 == 0,
{
    let a = level.no_match;
    let b = level.details;
    let c = level.tcp;
    let d = level.udp;
    let e = level.inbound;
    let f = level.outbound;
    let g = level.answer;
    let h = level.requests;
    let i = level.updates;
    let j = level.notifications;
    let k = level.querys;
    assert(level.spec_flag() <= 0x0300_F331);
    let x: u32 = level.spec_flag() as u32;
    assert(
        (x & 0x0200_0000u32 != 0) == a && (x & 0x0100_0000u32 != 0) == b
        && (x & 0x0000_8000u32 != 0) == c && (x & 0x0000_4000u32 != 0) == d
        && (x & 0x0000_2000u32 != 0) == e && (x & 0x0000_1000u32 != 0) == f
        && (x & 0x0000_0200u32 != 0) == g && (x & 0x0000_0100u32 != 0) == h
        && (x & 0x0000_0020u32 != 0) == i && (x & 0x0000_0010u32 != 0) == j
        && (x & 0x0000_0001u32 != 0) == k && x & 0xFCFF_0CCEu32 == 0
    ) by (bit_vector)
        requires
            x == (if a { 0x0200_0000u32 } else { 0u32 }) + (if b { 0x0100_0000u32 } else { 0u32 })
                + (if c { 0x0000_8000u32 } else { 0u32 }) + (if d { 0x0000_4000u32 } else { 0u32 })
                + (if e { 0x0000_2000u32 } else { 0u32 }) + (if f { 0x0000_1000u32 } else { 0u32 })
                + (if g { 0x0000_0200u32 } else { 0u32 }) + (if h { 0x0000_0100u32 } else { 0u32 })
                + (if i { 0x0000_0020u32 } else { 0u32 }) + (if j { 0x0000_0010u32 } else { 0u32 })
                + (if k { 0x0000_0001u32 } else { 0u32 }),
    ;
}


/// Which events the DNS server writes to the event log (`EventLogLevel`).
#[derive(Debug, Clone, Copy, PartialEq, Eq, Structural)]
pub enum EventLogLevel {
    NoEvents,
    Errors,
    ErrorsAndWarnings,
    All,
}

/// The event-log level that a registry code stands for: 0, 1, 2 and 7 are
/// known; any other code means no events.
pub open spec fn spec_event_log_level(code: u32) -> EventLogLevel {
    if code == 1 {
        EventLogLevel::Errors
    } else if code == 2 {
        EventLogLevel::ErrorsAndWarnings
    } else if code == 7 {
        EventLogLevel::All
    } else {
        EventLogLevel::NoEvents
    }
}

impl EventLogLevel {
    /// Decodes an `EventLogLevel` registry value.
    pub fn from_code(code: u32) -> (res: Self)
        ensures
            res == spec_event_log_level(code),
            code == 1 ==> res == EventLogLevel::Errors,
            code == 2 ==> res == EventLogLevel::ErrorsAndWarnings,
            code == 7 ==> res == EventLogLevel::All,
            code != 1 && code != 2 && code != 7 ==> res == EventLogLevel::NoEvents,
    {
        match code {
            0 => EventLogLevel::NoEvents,
            1 => EventLogLevel::Errors,
            2 => EventLogLevel::ErrorsAndWarnings,
            7 => EventLogLevel::All,
            _ => EventLogLevel::NoEvents,
        }
    }
}

/// The DNS server's logging configuration.
#[derive(Debug)]
pub struct DnsConfiguration {
    pub log_file: String,
    pub log_file_max_size: u32,
    pub log_level: DnsLogLevel,
    pub event_log_level: EventLogLevel,
}

/// The log file that the DNS server writes when the registry names none.
pub open spec fn default_dns_log_file() -> Seq<char> {
    "C:\\Windows\\System32\\dns\\dns.log"@
}

/// A number read from the registry, or 0 where the read failed.
pub open spec fn dword_or_zero(r: Result<u32, RegistryError>) -> u32 {
    match r {
        Ok(v) => v,
        Err(_) => 0,
    }
}

/// Builds the DNS logging configuration from the four registry reads
/// (`LogFilePath`, `LogFileMaxSize`, `LogLevel`, `EventLogLevel`). A failed
/// read gives the default path or 0; with a `LogLevel` of 0 the server does
/// not log, and there is no configuration.
pub fn dns_configuration_from(
    log_file_path: Result<String, RegistryError>,
    log_file_max_size: Result<u32, RegistryError>,
    log_level: Result<u32, RegistryError>,
    event_log_level: Result<u32, RegistryError>,
) -> (res: Option<DnsConfiguration>)
    ensures
        res is Some <==> dword_or_zero(log_level) != 0,
        res matches Some(c) ==> {
            &&& c.log_file@ == (match log_file_path {
                Ok(p) => p@,
                Err(_) => default_dns_log_file(),
            })
            &&& c.log_file_max_size == dword_or_zero(log_file_max_size)
            &&& c.log_level == DnsLogLevel::spec_new(dword_or_zero(log_level))
            &&& c.event_log_level == spec_event_log_level(dword_or_zero(event_log_level))
        },
{
    let log_file_path = match log_file_path {
        Ok(txt) => txt,
        Err(_) => {
            let path = String::from_str("C:\\Windows\\System32\\dns\\dns.log");
            path
        },
    };
    let log_file_max_size: u32 = match log_file_max_size {
        Ok(v) => v,
        Err(_) => 0,
    };
    let log_level: u32 = match log_level {
        Ok(v) => v,
        Err(_) => 0,
    };
    let event_log_level: u32 = match event_log_level {
        Ok(v) => v,
        Err(_) => 0,
    };
    let event_log_level: EventLogLevel = EventLogLevel::from_code(event_log_level);
    if log_level != 0 {
        return Some(
            DnsConfiguration {
                log_file: log_file_path,
                log_file_max_size,
                log_level: DnsLogLevel::new(log_level),
                event_log_level,
            },
        );
    }
    None
}

/// Each bit of an encoded level tells its flag, and no other bit is set.
pub proof fn lemma_bits_of_encoding(level: DnsLogLevel)
    ensures
        level.no_match == ((level.spec_flag() as u32) & 0x0200_0000u32 != 0),
        level.details == ((level.spec_flag() as u32) & 0x0100_0000u32 != 0),
        level.tcp == ((level.spec_flag() as u32) & 0x0000_8000u32 != 0),
        level.udp == ((level.spec_flag() as u32) & 0x0000_4000u32 != 0),
        level.inbound == ((level.spec_flag() as u32) & 0x0000_2000u32 != 0),
        level.outbound == ((level.spec_flag() as u32) & 0x0000_1000u32 != 0),
        level.answer == ((level.spec_flag() as u32) & 0x0000_0200u32 != 0),
        level.requests == ((level.spec_flag() as u32) & 0x0000_0100u32 != 0),
        level.updates == ((level.spec_flag() as u32) & 0x0000_0020u32 != 0),
        level.notifications == ((level.spec_flag() as u32) & 0x0000_0010u32 != 0),
        level.querys == ((level.spec_flag() as u32) & 0x0000_0001u32 != 0),
        (level.spec_flag() as u32) & 0xFCFF_0CCEu32 == 0,
{
    lemma_new_of_flag(level);
    lemma_log_level_bits(level.spec_flag() as u32);
}

/// What each flag of the DNS server's `LogLevel` means: a flag is set exactly
/// when its bit of the registry value is (bit 25 no-match, 24 details, 15 TCP,
/// 14 UDP, 13 inbound, 12 outbound, 9 answers, 8 requests, 5 updates,
/// 4 notifications, 0 queries).
pub proof fn lemma_log_level_bits(flag: u32)
    ensures
        DnsLogLevel::spec_new(flag).no_match == (flag & 0x0200_0000u32 != 0),
        DnsLogLevel::spec_new(flag).details == (flag & 0x0100_0000u32 != 0),
        DnsLogLevel::spec_new(flag).tcp == (flag & 0x0000_8000u32 != 0),
        DnsLogLevel::spec_new(flag).udp == (flag & 0x0000_4000u32 != 0),
        DnsLogLevel::spec_new(flag).inbound == (flag & 0x0000_2000u32 != 0),
        DnsLogLevel::spec_new(flag).outbound == (flag & 0x0000_1000u32 != 0),
        DnsLogLevel::spec_new(flag).answer == (flag & 0x0000_0200u32 != 0),
        DnsLogLevel::spec_new(flag).requests == (flag & 0x0000_0100u32 != 0),
        DnsLogLevel::spec_new(flag).updates == (flag & 0x0000_0020u32 != 0),
        DnsLogLevel::spec_new(flag).notifications == (flag & 0x0000_0010u32 != 0),
        DnsLogLevel::spec_new(flag).querys == (flag & 0x0000_0001u32 != 0),
{
}

/// The level with no flag set.
pub open spec fn no_flags() -> DnsLogLevel {
    DnsLogLevel {
        no_match: false,
        details: false,
        tcp: false,
        udp: false,
        inbound: false,
        outbound: false,
        answer: false,
        requests: false,
        updates: false,
        notifications: false,
        querys: false,
    }
}

/// A level with a single flag set encodes to that flag's bit alone, and one
/// with none encodes to 0.
pub proof fn lemma_single_flag_encodings()
    ensures
        no_flags().spec_flag() == 0,
        (DnsLogLevel { no_match: true, ..no_flags() }).spec_flag() == 0x0200_0000,
        (DnsLogLevel { details: true, ..no_flags() }).spec_flag() == 0x0100_0000,
        (DnsLogLevel { tcp: true, ..no_flags() }).spec_flag() == 0x0000_8000,
        (DnsLogLevel { udp: true, ..no_flags() }).spec_flag() == 0x0000_4000,
        (DnsLogLevel { inbound: true, ..no_flags() }).spec_flag() == 0x0000_2000,
        (DnsLogLevel { outbound: true, ..no_flags() }).spec_flag() == 0x0000_1000,
        (DnsLogLevel { answer: true, ..no_flags() }).spec_flag() == 0x0000_0200,
        (DnsLogLevel { requests: true, ..no_flags() }).spec_flag() == 0x0000_0100,
        (DnsLogLevel { updates: true, ..no_flags() }).spec_flag() == 0x0000_0020,
        (DnsLogLevel { notifications: true, ..no_flags() }).spec_flag() == 0x0000_0010,
        (DnsLogLevel { querys: true, ..no_flags() }).spec_flag() == 0x0000_0001,
{
}

} // verus!

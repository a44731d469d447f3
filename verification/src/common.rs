//! Listener configurations shared by the collector, its error types, and the
//! reading of values from the Windows registry.

use std::sync::atomic::AtomicBool;
use std::sync::Arc;
use vstd::prelude::*;
use vstd::utf8::{decode_utf8, valid_utf8};

use crate::text::{buffer_to_utf8_string_slice, lossy_utf8, text_len};

verus! {

/// The XML of an event-log bookmark: where a listener resumes reading.
#[derive(Debug)]
pub struct EventBookmark {
    pub xml: String,
}

impl Clone for EventBookmark {
    fn clone(&self) -> (res: Self)
        ensures
            res == *self,
    {
        EventBookmark { xml: self.xml.clone() }
    }
}

/// A listener of a Windows event-log channel.
#[derive(Debug)]
pub struct EvtListenerConfiguration {
    pub bookmark: Option<EventBookmark>,
    pub query: String,
    pub channel: String,
    /// Set to stop the listener's task; never saved.
    pub stop: Arc<AtomicBool>,
}

/// A listener of a log file.
#[derive(Debug, Clone)]
pub struct FileListenerConfiguration {
    /// Position in the file
    pub position: usize,
    /// Size of the file as to detect rotations
    pub size: usize,
    /// Set to stop the listener's task; never saved.
    pub stop: Arc<AtomicBool>,
}

/// A configured listener, of either kind.
#[derive(Debug, Clone)]
pub enum ListenerConfiguration {
    Event(EvtListenerConfiguration),
    File(FileListenerConfiguration),
}

/// Calls `Arc::clone`: a second handle on the same allocation, so the two
/// handles stand for the same value.
#[verifier::external_body]
fn share_flag(flag: &Arc<AtomicBool>) -> (res: Arc<AtomicBool>)
    ensures
        res == *flag,
{
    Arc::clone(flag)
}

/// A fresh stop flag, not yet set.
pub fn default_stopper() -> Arc<AtomicBool> {
    Arc::new(AtomicBool::new(false))
}

impl Clone for EvtListenerConfiguration {
    /// Copies the bookmark, query and channel; the copy gets a stop flag of
    /// its own, so stopping one listener does not stop the other.
    fn clone(&self) -> (res: Self)
        ensures
            res.bookmark == self.bookmark,
            res.query == self.query,
            res.channel == self.channel,
    {
        EvtListenerConfiguration {
            bookmark: self.bookmark.clone(),
            query: self.query.clone(),
            channel: self.channel.clone(),
            stop: default_stopper(),
        }
    }
}

impl EvtListenerConfiguration {
    /// A handle on this listener's stop flag, shared with the configuration.
    pub fn get_stop_listener(&self) -> (res: Arc<AtomicBool>)
        ensures
            res == self.stop,
    {
        share_flag(&self.stop)
    }
}

impl ListenerConfiguration {
    /// Whether this is the configuration of an event-log listener.
    pub open spec fn spec_is_event(&self) -> bool {
        self is Event
    }

    /// Whether this is the configuration of an event-log listener.
    pub fn is_event(&self) -> (res: bool)
        ensures
            res == self.spec_is_event(),
    {
        match self {
            ListenerConfiguration::Event(_) => true,
            ListenerConfiguration::File(_) => false,
        }
    }
}

/// The errors of the collector.
#[derive(Debug)]
pub enum ULoggerError {
    InvalidPath(String),
    InvalidConfigFile(String),
    ErrorProcessingEvent(String),
    EventChannelNotFound(String),
    EventQueryInvalid(String),
    InvalidBookmark(String),
}

/// The errors of a registry read; the numbers are the status codes that the
/// registry calls returned.
#[derive(Debug, Clone, Copy, PartialEq, Eq, Structural)]
pub enum RegistryError {
    NotExists,
    InvalidPath,
    InvalidHkey,
    InvalidSubKey,
    InvalidValue,
    OpenKeyError(u32),
    QueryValueError(u32),
    CloseValueError(u32),
    InvalidValueType(u32),
}

/// Registry value type of a NUL-terminated string.
pub const REG_SZ: u32 = 1;
/// Registry value type of a 32-bit little-endian number.
pub const REG_DWORD: u32 = 4;

/// What the value query of a registry read returned.
#[derive(Debug, Clone, Copy, PartialEq, Eq, Structural)]
pub struct QueryReply {
    /// The status that the query returned (0 on success).
    pub status: u32,
    /// The type of the value.
    pub value_type: u32,
    /// The number of bytes of the value written to the buffer.
    pub size: u32,
}

/// What the calls of a registry read have returned so far, in the order in
/// which they are made: open the key, query the value, close the key.
#[derive(Debug, Clone, Copy)]
pub struct RegistryReplies {
    pub open_status: u32,
    pub query: Option<QueryReply>,
    pub close_status: Option<u32>,
}

/// The outcome of reading a string value, once it is decided: `None` while the
/// next call still has to be made.
pub open spec fn spec_registry_sz(r: RegistryReplies, data: Seq<u8>) -> Option<Result<Seq<char>, RegistryError>> {
    if r.open_status != 0 {
        Some(Err(RegistryError::OpenKeyError(r.open_status)))
    } else {
        match r.query {
            None => None,
            Some(q) => if q.status != 0 {
                Some(Err(RegistryError::QueryValueError(q.status)))
            } else {
                match r.close_status {
                    None => None,
                    Some(c) => if c != 0 {
                        Some(Err(RegistryError::CloseValueError(c)))
                    } else if q.value_type != REG_SZ {
                        Some(Err(RegistryError::InvalidValueType(q.value_type)))
                    } else if q.size == 0 {
                        Some(Ok(Seq::<char>::empty()))
                    } else {
                        Some(Ok(lossy_utf8(data.take(text_len(data, q.size as int)))))
                    },
                }
            },
        }
    }
}

/// The little-endian number of four bytes.
pub open spec fn le_u32(b: [u8; 4]) -> int {
    b[0] + 256 * b[1] + 65536 * b[2] + 16777216 * b[3]
}

/// The outcome of reading a number value, once it is decided: `None` while the
/// next call still has to be made. The value type is checked before the status
/// of the query.
pub open spec fn spec_registry_dword(r: RegistryReplies, data: [u8; 4]) -> Option<Result<u32, RegistryError>> {
    if r.open_status != 0 {
        Some(Err(RegistryError::OpenKeyError(r.open_status)))
    } else {
        match r.query {
            None => None,
            Some(q) => if q.value_type != REG_DWORD {
                Some(Err(RegistryError::InvalidValueType(q.value_type)))
            } else if q.status != 0 {
                Some(Err(RegistryError::QueryValueError(q.status)))
            } else {
                match r.close_status {
                    None => None,
                    Some(c) => if c != 0 {
                        Some(Err(RegistryError::CloseValueError(c)))
                    } else {
                        Some(Ok(le_u32(data) as u32))
                    },
                }
            },
        }
    }
}

/// The view of a string outcome.
pub open spec fn sz_outcome_view(o: Option<Result<String, RegistryError>>) -> Option<Result<Seq<char>, RegistryError>> {
    match o {
        None => None,
        Some(Ok(s)) => Some(Ok(s@)),
        Some(Err(e)) => Some(Err(e)),
    }
}

/// A read stops at the latest once all three calls have been made.
pub proof fn lemma_registry_read_completes(r: RegistryReplies, text: Seq<u8>, number: [u8; 4])
    requires
        r.query is Some,
        r.close_status is Some,
    ensures
        spec_registry_sz(r, text) is Some,
        spec_registry_dword(r, number) is Some,
{
}

/// A completed, successful read of a number value gives the number whose
/// little-endian bytes are those the query wrote: its lowest byte is the
/// first, its highest the last.
pub proof fn lemma_dword_value_bytes(r: RegistryReplies, data: [u8; 4])
    requires
        r.open_status == 0,
        r.query is Some,
        r.query->0.value_type == 4,
        r.query->0.status == 0,
        r.close_status == Some(0u32),
    ensures
        spec_registry_dword(r, data) matches Some(Ok(v)) && v % 256 == data[0] && (v / 256) % 256 == data[1]
            && (v / 65536) % 256 == data[2] && v / 16777216 == data[3],
{
    let (a, b, c, d) = (data[0], data[1], data[2], data[3]);
    assert(le_u32(data) == a + 256 * b + 65536 * c + 16777216 * d);
    let v: int = a + 256 * b + 65536 * c + 16777216 * d;
    assert(v % 256 == a && (v / 256) % 256 == b && (v / 65536) % 256 == c && v / 16777216 == d) by (nonlinear_arith)
        requires
            v == a + 256 * b + 65536 * c + 16777216 * d,
            0 <= a < 256,
            0 <= b < 256,
            0 <= c < 256,
            0 <= d < 256,
    ;
    assert(0 <= v <= u32::MAX);
}

/// Decides a read of a string value from what its calls returned so far:
/// `None` asks for the next call; `data` is the buffer that the query filled.
pub fn registry_sz_progress(replies: &RegistryReplies, data: &[u8]) -> (res: Option<Result<String, RegistryError>>)
    requires
        replies.query matches Some(q) ==> (q.status == 0 && q.value_type == REG_SZ ==> q.size <= data@.len()),
    ensures
        sz_outcome_view(res) == spec_registry_sz(*replies, data@),
        ({
            let t = data@.take(text_len(data@, replies.query->0.size as int));
            res matches Some(Ok(text)) ==> (replies.query->0.size != 0 && valid_utf8(t) ==> text@ == decode_utf8(t))
        }),
        replies.open_status != 0 ==> sz_outcome_view(res) == Some(
            Err::<Seq<char>, RegistryError>(RegistryError::OpenKeyError(replies.open_status)),
        ),
        replies.open_status == 0 && replies.query is None ==> res is None,
        ({
            let q = replies.query->0;
            let queried = replies.open_status == 0 && replies.query is Some;
            let closed = queried && q.status == 0 && replies.close_status == Some(0u32);
            &&& queried && q.status != 0 ==> sz_outcome_view(res) == Some(
                Err::<Seq<char>, RegistryError>(RegistryError::QueryValueError(q.status)),
            )
            &&& queried && q.status == 0 && replies.close_status is None ==> res is None
            &&& queried && q.status == 0 && replies.close_status is Some && replies.close_status->0 != 0
                ==> sz_outcome_view(res) == Some(
                Err::<Seq<char>, RegistryError>(RegistryError::CloseValueError(replies.close_status->0)),
            )
            &&& closed && q.value_type != 1 ==> sz_outcome_view(res) == Some(
                Err::<Seq<char>, RegistryError>(RegistryError::InvalidValueType(q.value_type)),
            )
            &&& closed && q.value_type == 1 && q.size == 0 ==> (res matches Some(Ok(text)) && text@.len() == 0)
            &&& closed && q.value_type == 1 && q.size != 0 ==> (res matches Some(Ok(text)) && text@ == lossy_utf8(
                data@.take(if data@[q.size - 1] == 0 { q.size - 1 } else { q.size as int }),
            ))
        }),
{
    if replies.open_status != 0 {
        return Some(Err(RegistryError::OpenKeyError(replies.open_status)));
    }
    let q = match replies.query {
        None => return None,
        Some(q) => q,
    };
    if q.status != 0 {
        return Some(Err(RegistryError::QueryValueError(q.status)));
    }
    let c: u32 = match replies.close_status {
        None => return None,
        Some(c) => c,
    };
    if c != 0 {
        return Some(Err(RegistryError::CloseValueError(c)));
    }
    if q.value_type != REG_SZ {
        return Some(Err(RegistryError::InvalidValueType(q.value_type)));
    }
    if q.size == 0 {
        return Some(Ok(String::new()));
    }
    Some(Ok(buffer_to_utf8_string_slice(data, q.size as usize)))
}

/// Decides a read of a number value from what its calls returned so far:
/// `None` asks for the next call; `data` is the buffer that the query filled.
pub fn registry_dword_progress(replies: &RegistryReplies, data: [u8; 4]) -> (res: Option<Result<u32, RegistryError>>)
    ensures
        res == spec_registry_dword(*replies, data),
        replies.open_status != 0 ==> res == Some(
            Err::<u32, RegistryError>(RegistryError::OpenKeyError(replies.open_status)),
        ),
        replies.open_status == 0 && replies.query is None ==> res is None,
        ({
            let q = replies.query->0;
            let done = replies.open_status == 0 && replies.query is Some;
            &&& done && q.value_type != 4 ==> res == Some(
                Err::<u32, RegistryError>(RegistryError::InvalidValueType(q.value_type)),
            )
            &&& done && q.value_type == 4 && q.status != 0 ==> res == Some(
                Err::<u32, RegistryError>(RegistryError::QueryValueError(q.status)),
            )
            &&& done && q.value_type == 4 && q.status == 0 && replies.close_status is None ==> res is None
            &&& done && q.value_type == 4 && q.status == 0 && replies.close_status is Some
                && replies.close_status->0 != 0 ==> res == Some(
                Err::<u32, RegistryError>(RegistryError::CloseValueError(replies.close_status->0)),
            )
            &&& done && q.value_type == 4 && q.status == 0 && replies.close_status == Some(0u32) ==> res == Some(
                Ok::<u32, RegistryError>((data[0] + 256 * data[1] + 65536 * data[2] + 16777216 * data[3]) as u32),
            )
        }),
{
    if replies.open_status != 0 {
        return Some(Err(RegistryError::OpenKeyError(replies.open_status)));
    }
    let q = match replies.query {
        None => return None,
        Some(q) => q,
    };
    if q.value_type != REG_DWORD {
        return Some(Err(RegistryError::InvalidValueType(q.value_type)));
    }
    if q.status != 0 {
        return Some(Err(RegistryError::QueryValueError(q.status)));
    }
    let c: u32 = match replies.close_status {
        None => return None,
        Some(c) => c,
    };
    if c != 0 {
        return Some(Err(RegistryError::CloseValueError(c)));
    }
    let value: u32 = data[0] as u32 + 256 * (data[1] as u32) + 65536 * (data[2] as u32) + 16777216 * (data[3] as u32);
    Some(Ok(value))
}

} // verus!

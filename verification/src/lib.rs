//! Verified core of a Windows log collector: DNS server log-level flags,
//! listener configurations, registry and event-record decoding, the
//! decisions of the log-file watcher and of the event listener tasks,
//! plus the small helpers of the companion tools.

pub mod dns;
pub mod text;
pub mod common;
pub mod shared_map;
pub mod winevt;
pub mod listeners;
pub mod watcher;
pub mod counter;

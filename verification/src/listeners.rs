//! The listeners that the collector starts: those saved in its working
//! directory or, failing that, the default ones.

use vstd::prelude::*;

use crate::common::{default_stopper, EvtListenerConfiguration, ListenerConfiguration, ULoggerError};

verus! {

/// The channels (with their queries) that are listened to when no saved
/// configuration can be read.
pub open spec fn spec_default_listeners() -> Seq<(&'static str, &'static str)> {
    seq![("Security", "*"), ("Microsoft-Windows-Sysmon/Operational", "*")]
}

/// The default channels and queries: all events of `Security` and of
/// `Microsoft-Windows-Sysmon/Operational`.
pub fn default_listeners() -> (res: Vec<(&'static str, &'static str)>)
    ensures
        res@ == spec_default_listeners(),
{
    let mut m: Vec<(&'static str, &'static str)> = Vec::new();
    m.push(("Security", "*"));
    m.push(("Microsoft-Windows-Sysmon/Operational", "*"));
    m
}

/// Whether `c` is the configuration of a fresh event-log listener of
/// `channel` with `query`: no bookmark yet.
pub open spec fn is_fresh_event_listener(c: ListenerConfiguration, channel: &str, query: &str) -> bool {
    &&& c matches ListenerConfiguration::Event(e)
    &&& e.bookmark is None
    &&& e.channel@ == channel@
    &&& e.query@ == query@
}

/// The listeners to start: the saved ones where they could be read
/// (`loaded`), otherwise a fresh event-log listener for each default channel.
/// Never an error.
pub fn get_listeners_or_default(loaded: Result<Vec<ListenerConfiguration>, ULoggerError>) -> (res: Result<
    Vec<ListenerConfiguration>,
    ULoggerError,
>)
    ensures
        res is Ok,
        loaded matches Ok(v) ==> res == Ok::<Vec<ListenerConfiguration>, ULoggerError>(v),
        loaded is Err ==> (res matches Ok(v) && v@.len() == spec_default_listeners().len() && forall|i: int|
            0 <= i < v@.len() ==> is_fresh_event_listener(
                #[trigger] v@[i],
                spec_default_listeners()[i].0,
                spec_default_listeners()[i].1,
            )),
        loaded is Err ==> (res matches Ok(v) && v@.len() == 2 && (v@[0] matches ListenerConfiguration::Event(e)
            && e.bookmark is None && e.channel@ == "Security"@ && e.query@ == "*"@) && (v@[1] matches ListenerConfiguration::Event(
            e,
        ) && e.bookmark is None && e.channel@ == "Microsoft-Windows-Sysmon/Operational"@ && e.query@ == "*"@)),
{
    match loaded {
        Ok(listeners) => Ok(listeners),
        Err(_) => {
            let defaults = default_listeners();
            let mut listener_list: Vec<ListenerConfiguration> = Vec::new();
            let mut i: usize = 0;
            while i < defaults.len()
                invariant
                    i <= defaults@.len(),
                    defaults@ == spec_default_listeners(),
                    listener_list@.len() == i,
                    forall|j: int|
                        0 <= j < i ==> is_fresh_event_listener(
                            #[trigger] listener_list@[j],
                            defaults@[j].0,
                            defaults@[j].1,
                        ),
                decreases defaults@.len() - i,
            {
                let listener = defaults[i];
                listener_list.push(
                    ListenerConfiguration::Event(
                        EvtListenerConfiguration {
                            bookmark: None,
                            query: String::from_str(listener.1),
                            channel: String::from_str(listener.0),
                            stop: default_stopper(),
                        },
                    ),
                );
                i = i + 1;
            }
            Ok(listener_list)
        },
    }
}

} // verus!

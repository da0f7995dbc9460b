use vstd::prelude::*;

verus! {

/// What processing one packet from the console reported, with the payloads
/// that the routing needs; fader levels and meter values stay with the
/// caller.
pub enum ConsoleReport {
    /// Nothing to pass on
    NoOperation,
    /// A fader changed
    Fader,
    /// The current cue changed; its display name
    CurrentCue(String),
    /// Meter values arrived; the index of the meter message
    Meters(usize),
}

/// An event for the user interface.
pub enum ConsoleEvent {
    /// Values of meter message 0 (`meter-update-0`)
    MeterUpdate0,
    /// Values of meter message 5 (`meter-update-5`)
    MeterUpdate5,
    /// One changed fader (`single-fader`)
    SingleFader,
    /// The name of the current cue (`cue-current`)
    CueCurrent(String),
}

/// The event a report is passed on as: meters only for the two meter
/// messages that the adapter requests, 0 and 5.
pub open spec fn routed(report: ConsoleReport) -> Option<ConsoleEvent> {
    match report {
        ConsoleReport::NoOperation => None,
        ConsoleReport::Fader => Some(ConsoleEvent::SingleFader),
        ConsoleReport::CurrentCue(s) => Some(ConsoleEvent::CueCurrent(s)),
        ConsoleReport::Meters(i) => if i == 0 {
            Some(ConsoleEvent::MeterUpdate0)
        } else if i == 5 {
            Some(ConsoleEvent::MeterUpdate5)
        } else {
            None
        },
    }
}

/// The name under which an event is emitted.
pub open spec fn event_name_of(e: ConsoleEvent) -> Seq<char> {
    match e {
        ConsoleEvent::MeterUpdate0 => "meter-update-0"@,
        ConsoleEvent::MeterUpdate5 => "meter-update-5"@,
        ConsoleEvent::SingleFader => "single-fader"@,
        ConsoleEvent::CueCurrent(_) => "cue-current"@,
    }
}

/// Decide which event, if any, a report from the console becomes.
pub fn route_report(report: ConsoleReport) -> (r: Option<ConsoleEvent>)
    ensures
        r == routed(report),
{
    match report {
        ConsoleReport::NoOperation => None,
        ConsoleReport::Fader => Some(ConsoleEvent::SingleFader),
        ConsoleReport::CurrentCue(s) => Some(ConsoleEvent::CueCurrent(s)),
        ConsoleReport::Meters(i) => {
            if i == 0 {
                Some(ConsoleEvent::MeterUpdate0)
            } else if i == 5 {
                Some(ConsoleEvent::MeterUpdate5)
            } else {
                None
            }
        },
    }
}

impl ConsoleEvent {
    /// The name under which this event is emitted.
    pub fn name(&self) -> (r: &'static str)
        ensures
            r@ == event_name_of(*self),
    {
        match self {
            ConsoleEvent::MeterUpdate0 => "meter-update-0",
            ConsoleEvent::MeterUpdate5 => "meter-update-5",
            ConsoleEvent::SingleFader => "single-fader",
            ConsoleEvent::CueCurrent(_) => "cue-current",
        }
    }
}

/// Every current-cue report becomes a `cue-current` event with the same
/// name, whatever the name; every fader report a `single-fader` event;
/// meters only from meter messages 0 and 5; nothing else is passed on.
pub proof fn lemma_routing(s: String, i: usize)
    ensures
        routed(ConsoleReport::CurrentCue(s)) == Some(ConsoleEvent::CueCurrent(s)),
        routed(ConsoleReport::Fader) == Some(ConsoleEvent::SingleFader),
        routed(ConsoleReport::NoOperation) == None::<ConsoleEvent>,
        routed(ConsoleReport::Meters(0)) == Some(ConsoleEvent::MeterUpdate0),
        routed(ConsoleReport::Meters(5)) == Some(ConsoleEvent::MeterUpdate5),
        i != 0 && i != 5 ==> routed(ConsoleReport::Meters(i)) == None::<ConsoleEvent>,
        event_name_of(ConsoleEvent::CueCurrent(s)) == "cue-current"@,
        event_name_of(ConsoleEvent::SingleFader) == "single-fader"@,
        event_name_of(ConsoleEvent::MeterUpdate0) == "meter-update-0"@,
        event_name_of(ConsoleEvent::MeterUpdate5) == "meter-update-5"@,
{
}

} // verus!

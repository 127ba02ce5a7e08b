//! The events that drive the controller, and their numeric identifiers.

use vstd::prelude::*;

verus! {

/// An event posted to the controller's event loop.
///
/// Each known event is identified by a single bit; `Unknown` stands for
/// every other identifier and carries the sign bit.
#[derive(Clone, Copy, Debug, PartialEq, Eq, Structural)]
pub enum HeatbedControllerEvent {
    /// The IO0 push button was pressed.
    IO0,
    /// The sampling timer fired.
    SampleTimer,
    /// The display refresh timer fired.
    DisplayTimer,
    /// Any identifier that is not one of the above.
    Unknown,
}

/// The identifier of an event: `1 << 0`, `1 << 1`, `1 << 2`, and `1 << 31`
/// (the sign bit of an `i32`) for `Unknown`.
pub open spec fn id_of(event: HeatbedControllerEvent) -> i32 {
    match event {
        HeatbedControllerEvent::IO0 => 1,
        HeatbedControllerEvent::SampleTimer => 2,
        HeatbedControllerEvent::DisplayTimer => 4,
        HeatbedControllerEvent::Unknown => i32::MIN,
    }
}

/// The event that an identifier converts to, with `Unknown` as the default
/// for every identifier that names no known event.
pub open spec fn event_from_primitive(value: i32) -> HeatbedControllerEvent {
    if value == 1 {
        HeatbedControllerEvent::IO0
    } else if value == 2 {
        HeatbedControllerEvent::SampleTimer
    } else if value == 4 {
        HeatbedControllerEvent::DisplayTimer
    } else {
        HeatbedControllerEvent::Unknown
    }
}

/// The event that a received identifier denotes; only the three known
/// events can be received.
pub open spec fn event_from_id(event_id: i32) -> Option<HeatbedControllerEvent> {
    if event_id == 1 {
        Some(HeatbedControllerEvent::IO0)
    } else if event_id == 2 {
        Some(HeatbedControllerEvent::SampleTimer)
    } else if event_id == 4 {
        Some(HeatbedControllerEvent::DisplayTimer)
    } else {
        None
    }
}

impl HeatbedControllerEvent {
    /// The identifier under which this event is posted.
    pub fn event_id(&self) -> (id: i32)
        ensures
            id == id_of(*self),
            *self == HeatbedControllerEvent::IO0 ==> id == 1,
            *self == HeatbedControllerEvent::SampleTimer ==> id == 2,
            *self == HeatbedControllerEvent::DisplayTimer ==> id == 4,
            *self == HeatbedControllerEvent::Unknown ==> id == i32::MIN,
    {
        match self {
            HeatbedControllerEvent::IO0 => 1,
            HeatbedControllerEvent::SampleTimer => 2,
            HeatbedControllerEvent::DisplayTimer => 4,
            HeatbedControllerEvent::Unknown => i32::MIN,
        }
    }

    /// Converts an identifier to an event; identifiers of no known event
    /// give `Unknown`.
    pub fn from_primitive(value: i32) -> (event: HeatbedControllerEvent)
        ensures
            event == event_from_primitive(value),
            value == 1 <==> event == HeatbedControllerEvent::IO0,
            value == 2 <==> event == HeatbedControllerEvent::SampleTimer,
            value == 4 <==> event == HeatbedControllerEvent::DisplayTimer,
            (value != 1 && value != 2 && value != 4) <==> event == HeatbedControllerEvent::Unknown,
    {
        if value == 1 {
            HeatbedControllerEvent::IO0
        } else if value == 2 {
            HeatbedControllerEvent::SampleTimer
        } else if value == 4 {
            HeatbedControllerEvent::DisplayTimer
        } else {
            HeatbedControllerEvent::Unknown
        }
    }

    /// Decodes the identifier of a received event. The identifier is read
    /// as an unsigned bit pattern; `None` for every identifier that is not
    /// one of the three known events (also for that of `Unknown`).
    pub fn from_event_id(event_id: i32) -> (event: Option<HeatbedControllerEvent>)
        ensures
            event == event_from_id(event_id),
            event_id == 1 <==> event == Some(HeatbedControllerEvent::IO0),
            event_id == 2 <==> event == Some(HeatbedControllerEvent::SampleTimer),
            event_id == 4 <==> event == Some(HeatbedControllerEvent::DisplayTimer),
            (event_id != 1 && event_id != 2 && event_id != 4) <==> event is None,
            event != Some(HeatbedControllerEvent::Unknown),
    {
        let bits = event_id as u32;
        assert((bits == 1u32 <==> event_id == 1i32) && (bits == 2u32 <==> event_id == 2i32) && (
        bits == 4u32 <==> event_id == 4i32)) by (bit_vector)
            requires
                bits == event_id as u32,
        ;
        if bits == 1 {
            Some(HeatbedControllerEvent::IO0)
        } else if bits == 2 {
            Some(HeatbedControllerEvent::SampleTimer)
        } else if bits == 4 {
            Some(HeatbedControllerEvent::DisplayTimer)
        } else {
            None
        }
    }
}

/// Converting an event to its identifier and back gives the same event,
/// `Unknown` included.
pub proof fn lemma_primitive_round_trip(event: HeatbedControllerEvent)
    ensures
        event_from_primitive(id_of(event)) == event,
{
}

/// Every known event that is posted is received as itself; the identifier
/// of `Unknown` is not received as any event.
pub proof fn lemma_posted_event_is_received(event: HeatbedControllerEvent)
    ensures
        event != HeatbedControllerEvent::Unknown ==> event_from_id(id_of(event)) == Some(event),
        event == HeatbedControllerEvent::Unknown ==> event_from_id(id_of(event)) is None,
{
}

/// Distinct events have distinct identifiers.
pub proof fn lemma_ids_distinct(a: HeatbedControllerEvent, b: HeatbedControllerEvent)
    ensures
        id_of(a) == id_of(b) ==> a == b,
{
}

/// The identifier of every event, read as an unsigned bit pattern, has
/// exactly one bit set.
pub proof fn lemma_id_is_single_bit(event: HeatbedControllerEvent)
    ensures
        (id_of(event) as u32) != 0,
        (id_of(event) as u32) & (((id_of(event) as u32) - 1) as u32) == 0,
{
    let id = id_of(event);
    assert(id == 1i32 || id == 2i32 || id == 4i32 || id == i32::MIN);
    assert((id == 1i32 || id == 2i32 || id == 4i32 || id == i32::MIN) ==> ((id as u32) != 0 && (
    id as u32) & (((id as u32) - 1) as u32) == 0)) by (bit_vector);
}

/// Decoding a received identifier agrees with converting it: an identifier
/// that is received denotes the event it converts to, and one that is not
/// received converts to `Unknown`.
pub proof fn lemma_receive_agrees_with_conversion(event_id: i32)
    ensures
        event_from_id(event_id) matches Some(event) ==> event_from_primitive(event_id) == event,
        event_from_id(event_id) is None ==> event_from_primitive(event_id)
            == HeatbedControllerEvent::Unknown,
{
}

} // verus!

//! Events: what the decoder tells the collector about a command.

use crate::utils::clock::now_millis;
use vstd::prelude::*;

verus! {

/// What an event is about.
#[derive(Debug, Clone, Copy, PartialEq, Eq, Structural)]
pub enum PhotonEventType {
    PlayerAppear,
    PlayerDisappear,
    MarketUpdate,
    GuildUpdate,
    CombatEvent,
    Unknown,
}

/// A value that an event carries under one of its keys.
#[derive(Debug, Clone, PartialEq, Eq)]
pub enum EventValue {
    Text(String),
    Integer(i32),
}

/// An event value, as plain values.
pub enum EventValueView {
    Text(Seq<char>),
    Integer(i32),
}

impl View for EventValue {
    type V = EventValueView;

    open spec fn view(&self) -> EventValueView {
        match self {
            EventValue::Text(text) => EventValueView::Text(text@),
            EventValue::Integer(number) => EventValueView::Integer(*number),
        }
    }
}

/// One entry of an event's data.
#[derive(Debug, Clone, PartialEq, Eq)]
pub struct EventField {
    pub key: String,
    pub value: EventValue,
}

/// An event.
#[derive(Debug, Clone)]
pub struct PhotonEvent {
    /// What the event is about.
    pub event_type: PhotonEventType,
    /// When the event was made, in milliseconds since the Unix epoch.
    pub timestamp: u64,
    /// The operation code of the command.
    pub operation_code: u8,
    /// The channel of the command.
    pub channel_id: Option<u8>,
    /// The entries in the order in which they were added. A later entry
    /// stands in place of an earlier one under the same key.
    pub data: Vec<EventField>,
}

/// An event, as plain values.
#[verifier::ext_equal]
pub struct EventView {
    pub event_type: PhotonEventType,
    pub timestamp: u64,
    pub operation_code: u8,
    pub channel_id: Option<u8>,
    pub data: Map<Seq<char>, EventValueView>,
}

/// The mapping that a list of entries stands for: each key with the value of
/// its last entry.
pub open spec fn field_map(fields: Seq<EventField>) -> Map<Seq<char>, EventValueView>
    decreases fields.len(),
{
    if fields.len() == 0 {
        Map::empty()
    } else {
        field_map(fields.drop_last()).insert(fields.last().key@, fields.last().value@)
    }
}

impl View for PhotonEvent {
    type V = EventView;

    open spec fn view(&self) -> EventView {
        EventView {
            event_type: self.event_type,
            timestamp: self.timestamp,
            operation_code: self.operation_code,
            channel_id: self.channel_id,
            data: field_map(self.data@),
        }
    }
}

impl PhotonEvent {
    /// An event without data, made now.
    pub fn new(event_type: PhotonEventType, operation_code: u8, channel_id: Option<u8>) -> (event:
        Self)
        ensures
            event@ == (EventView {
                event_type,
                timestamp: event.timestamp,
                operation_code,
                channel_id,
                data: Map::empty(),
            }),
    {
        Self::with_timestamp(event_type, now_millis(), operation_code, channel_id)
    }

    /// An event without data, made at `timestamp`.
    pub fn with_timestamp(
        event_type: PhotonEventType,
        timestamp: u64,
        operation_code: u8,
        channel_id: Option<u8>,
    ) -> (event: Self)
        ensures
            event@ == (EventView {
                event_type,
                timestamp,
                operation_code,
                channel_id,
                data: Map::empty(),
            }),
    {
        PhotonEvent { event_type, timestamp, operation_code, channel_id, data: Vec::new() }
    }

    /// Puts `value` under `key`, in place of what stood there.
    pub fn add_data(&mut self, key: &str, value: EventValue)
        ensures
            final(self)@ == (EventView {
                data: old(self)@.data.insert(key@, value@),
                ..old(self)@
            }),
    {
        let field = EventField { key: key.to_owned(), value };
        self.data.push(field);
        assert(self.data@.drop_last() =~= old(self).data@);
    }

    /// The value under `key`.
    pub fn get_data(&self, key: &str) -> (value: Option<&EventValue>)
        ensures
            value is Some <==> self@.data.contains_key(key@),
            value matches Some(found) ==> found@ == self@.data[key@],
    {
        let wanted = key.to_owned();
        let mut index = self.data.len();
        assert(self.data@.take(index as int) =~= self.data@);
        while index > 0
            invariant
                index <= self.data@.len(),
                wanted@ == key@,
                field_map(self.data@).contains_key(key@) <==> field_map(
                    self.data@.take(index as int),
                ).contains_key(key@),
                field_map(self.data@).contains_key(key@) ==> field_map(self.data@)[key@]
                    == field_map(self.data@.take(index as int))[key@],
            decreases index,
        {
            index = index - 1;
            let ghost front = self.data@.take(index + 1);
            assert(front.drop_last() =~= self.data@.take(index as int));
            if self.data[index].key == wanted {
                return Some(&self.data[index].value);
            }
        }
        None
    }
}

} // verus!

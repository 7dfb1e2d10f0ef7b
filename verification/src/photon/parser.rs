//! The event extractor: which event, if any, a decoded command gives.
//!
//! Operation codes 1 and 2 tell of a player, 10 to 12 of the market, 20 and
//! 21 of a guild. Each of these needs the parameter under key 1: without it
//! the command gives no event. Every other operation code gives none.

use super::command::{int_parameter, string_parameter, CommandView, PhotonCommand};
use crate::models::photon_event::{
    EventValue, EventValueView, EventView, PhotonEvent, PhotonEventType,
};
use crate::utils::clock::now_millis;
use vstd::prelude::*;

verus! {

/// The parameter that names the player, the item or the guild.
pub const SUBJECT_KEY: u8 = 1;

/// The parameter that holds a market price.
pub const PRICE_KEY: u8 = 2;

/// The event that a command yields, with no data yet.
pub open spec fn bare_event(
    event_type: PhotonEventType,
    command: CommandView,
    timestamp: u64,
) -> EventView {
    EventView {
        event_type,
        timestamp,
        operation_code: command.operation_code,
        channel_id: command.channel_id,
        data: Map::empty(),
    }
}

/// The event of a player's movement: the player's id is the text under the
/// subject key.
pub open spec fn player_event(command: CommandView, timestamp: u64) -> Option<EventView> {
    match string_parameter(command.parameters, SUBJECT_KEY) {
        Some(player_id) => Some(
            EventView {
                data: map!["player_id"@ => EventValueView::Text(player_id)],
                ..bare_event(PhotonEventType::PlayerAppear, command, timestamp)
            },
        ),
        None => None,
    }
}

/// The data of a market event: the item's id, and the price where the
/// command holds one.
pub open spec fn market_data(item_id: int, price: Option<int>) -> Map<Seq<char>, EventValueView> {
    let item = map!["item_id"@ => EventValueView::Integer(item_id as i32)];
    match price {
        Some(price) => item.insert("price"@, EventValueView::Integer(price as i32)),
        None => item,
    }
}

/// The event of a market action: the item's id is the integer under the
/// subject key, the price the integer under the price key.
pub open spec fn market_event(command: CommandView, timestamp: u64) -> Option<EventView> {
    match int_parameter(command.parameters, SUBJECT_KEY) {
        Some(item_id) => Some(
            EventView {
                data: market_data(item_id, int_parameter(command.parameters, PRICE_KEY)),
                ..bare_event(PhotonEventType::MarketUpdate, command, timestamp)
            },
        ),
        None => None,
    }
}

/// The event of a guild action: the guild's id is the text under the subject
/// key.
pub open spec fn guild_event(command: CommandView, timestamp: u64) -> Option<EventView> {
    match string_parameter(command.parameters, SUBJECT_KEY) {
        Some(guild_id) => Some(
            EventView {
                data: map!["guild_id"@ => EventValueView::Text(guild_id)],
                ..bare_event(PhotonEventType::GuildUpdate, command, timestamp)
            },
        ),
        None => None,
    }
}

/// The event that a command gives, by its operation code.
pub open spec fn extracted_event(command: CommandView, timestamp: u64) -> Option<EventView> {
    let code = command.operation_code;
    if code == 1 || code == 2 {
        player_event(command, timestamp)
    } else if code == 10 || code == 11 || code == 12 {
        market_event(command, timestamp)
    } else if code == 20 || code == 21 {
        guild_event(command, timestamp)
    } else {
        None
    }
}

/// The views of a list of events.
pub open spec fn event_views(events: Seq<PhotonEvent>) -> Seq<EventView> {
    events.map_values(|event: PhotonEvent| event@)
}

/// The events that a command gives: the one of `extracted_event`, or none.
pub open spec fn extracted_events(command: CommandView, timestamp: u64) -> Seq<EventView> {
    match extracted_event(command, timestamp) {
        Some(event) => seq![event],
        None => Seq::empty(),
    }
}

/// The event extractor.
pub struct PhotonParser {
    quiet: bool,
}

impl PhotonParser {
    /// An extractor. `quiet` says whether the program wants to hear of what
    /// the extractor finds.
    pub fn new(quiet: bool) -> (parser: Self)
        ensures
            parser.quiet() == quiet,
    {
        PhotonParser { quiet }
    }

    /// Whether the extractor was made quiet.
    pub closed spec fn quiet(&self) -> bool {
        self.quiet
    }

    /// Whether the extractor was made quiet.
    pub fn is_quiet(&self) -> (quiet: bool)
        ensures
            quiet == self.quiet(),
    {
        self.quiet
    }

    /// The events that `command` gives, made now.
    pub fn parse_command(&self, command: &PhotonCommand) -> (events: Vec<PhotonEvent>)
        ensures
            exists|timestamp: u64|
                event_views(events@) == #[trigger] extracted_events(command@, timestamp),
    {
        self.parse_command_at(command, now_millis())
    }

    /// The events that `command` gives, made at `timestamp`.
    pub fn parse_command_at(&self, command: &PhotonCommand, timestamp: u64) -> (events: Vec<
        PhotonEvent,
    >)
        ensures
            event_views(events@) == extracted_events(command@, timestamp),
    {
        let mut events: Vec<PhotonEvent> = Vec::new();
        let found = match command.operation_code {
            1 | 2 => self.parse_player_movement(command, timestamp),
            10 | 11 | 12 => self.parse_market_action(command, timestamp),
            20 | 21 => self.parse_guild_action(command, timestamp),
            _ => None,
        };
        if let Some(event) = found {
            events.push(event);
        }
        events
    }

    /// The event of a player's movement that `command` gives.
    pub fn parse_player_movement(&self, command: &PhotonCommand, timestamp: u64) -> (event: Option<
        PhotonEvent,
    >)
        ensures
            event is Some <==> player_event(command@, timestamp) is Some,
            event matches Some(e) ==> player_event(command@, timestamp) == Some(e@),
    {
        match command.get_string(SUBJECT_KEY) {
            Some(player_id) => {
                let mut event = PhotonEvent::with_timestamp(
                    PhotonEventType::PlayerAppear,
                    timestamp,
                    command.operation_code,
                    command.channel_id,
                );
                event.add_data("player_id", EventValue::Text(player_id));
                Some(event)
            },
            None => None,
        }
    }

    /// The event of a market action that `command` gives.
    pub fn parse_market_action(&self, command: &PhotonCommand, timestamp: u64) -> (event: Option<
        PhotonEvent,
    >)
        ensures
            event is Some <==> market_event(command@, timestamp) is Some,
            event matches Some(e) ==> market_event(command@, timestamp) == Some(e@),
    {
        match command.get_int(SUBJECT_KEY) {
            Some(item_id) => {
                let mut event = PhotonEvent::with_timestamp(
                    PhotonEventType::MarketUpdate,
                    timestamp,
                    command.operation_code,
                    command.channel_id,
                );
                event.add_data("item_id", EventValue::Integer(item_id));
                if let Some(price) = command.get_int(PRICE_KEY) {
                    event.add_data("price", EventValue::Integer(price));
                }
                Some(event)
            },
            None => None,
        }
    }

    /// The event of a guild action that `command` gives.
    pub fn parse_guild_action(&self, command: &PhotonCommand, timestamp: u64) -> (event: Option<
        PhotonEvent,
    >)
        ensures
            event is Some <==> guild_event(command@, timestamp) is Some,
            event matches Some(e) ==> guild_event(command@, timestamp) == Some(e@),
    {
        match command.get_string(SUBJECT_KEY) {
            Some(guild_id) => {
                let mut event = PhotonEvent::with_timestamp(
                    PhotonEventType::GuildUpdate,
                    timestamp,
                    command.operation_code,
                    command.channel_id,
                );
                event.add_data("guild_id", EventValue::Text(guild_id));
                Some(event)
            },
            None => None,
        }
    }
}

} // verus!

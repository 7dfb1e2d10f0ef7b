//! The capture pipeline: what to do with each thing that the packet source
//! reports, and which events a captured payload gives.
//!
//! The pipeline is idle until its source is open, captures until the source
//! fails, then drains what is still on its way to the collector, and stops.

use crate::hwid::validator::HwIdStatus;
use crate::models::photon_event::{EventView, PhotonEvent};
use crate::photon::command::{CommandView, PhotonCommand};
use crate::photon::fragment_buffer::FragmentBufferView;
use crate::photon::layer::{command_views, decoded_packet, PhotonLayer};
use crate::photon::parser::{event_views, extracted_events, PhotonParser};
use crate::utils::network::{
    find_default_interface, is_loopback, is_photon_packet, looks_like_photon, NetworkInterface,
};
use vstd::prelude::*;

verus! {

/// How many events may wait between the decoder and the collector.
pub const EVENT_CHANNEL_CAPACITY: usize = 100;

/// Where the pipeline stands.
#[derive(Debug, Clone, Copy, PartialEq, Eq, Structural)]
pub enum PipelineState {
    /// The source is not open yet.
    Idle,
    /// Packets are read and decoded.
    Capturing,
    /// The source has failed; events on their way are still delivered.
    Draining,
    /// Nothing is left to do.
    Stopped,
}

/// What the program around the pipeline reports to it.
#[derive(Debug, Clone, Copy, PartialEq, Eq, Structural)]
pub enum PipelineEvent {
    /// The source was opened and its filter installed.
    SourceOpened,
    /// The source could not be opened.
    SourceUnavailable,
    /// The source handed out a packet.
    PacketCaptured,
    /// The source had no packet within its time limit.
    SourceTimedOut,
    /// The source failed in another way.
    SourceFailed,
    /// The last event on its way has reached the collector.
    ChannelDrained,
}

/// What the program around the pipeline is to do next.
#[derive(Debug, Clone, Copy, PartialEq, Eq, Structural)]
pub enum PipelineAction {
    /// Ask the source for the next packet.
    ReadNext,
    /// Decode the packet, send its events, then ask for the next packet.
    DecodeAndSend,
    /// Report that the pipeline could not start.
    ReportStartupFailure,
    /// Close the channel to the collector and let it run empty.
    CloseChannel,
    /// End.
    Finish,
    /// Nothing: the report does not belong to the state.
    Nothing,
}

/// A state of the pipeline with what is to be done on entering it.
#[derive(Debug, Clone, Copy, PartialEq, Eq, Structural)]
pub struct PipelineStep {
    pub state: PipelineState,
    pub action: PipelineAction,
}

/// The step that a report leads to from a state. A timeout of the source is
/// no failure; a failure of the source ends the capture, not the delivery.
pub open spec fn pipeline_step(state: PipelineState, event: PipelineEvent) -> PipelineStep {
    match (state, event) {
        (PipelineState::Idle, PipelineEvent::SourceOpened) => PipelineStep {
            state: PipelineState::Capturing,
            action: PipelineAction::ReadNext,
        },
        (PipelineState::Idle, PipelineEvent::SourceUnavailable) => PipelineStep {
            state: PipelineState::Stopped,
            action: PipelineAction::ReportStartupFailure,
        },
        (PipelineState::Capturing, PipelineEvent::PacketCaptured) => PipelineStep {
            state: PipelineState::Capturing,
            action: PipelineAction::DecodeAndSend,
        },
        (PipelineState::Capturing, PipelineEvent::SourceTimedOut) => PipelineStep {
            state: PipelineState::Capturing,
            action: PipelineAction::ReadNext,
        },
        (PipelineState::Capturing, PipelineEvent::SourceFailed) => PipelineStep {
            state: PipelineState::Draining,
            action: PipelineAction::CloseChannel,
        },
        (PipelineState::Draining, PipelineEvent::ChannelDrained) => PipelineStep {
            state: PipelineState::Stopped,
            action: PipelineAction::Finish,
        },
        _ => PipelineStep { state, action: PipelineAction::Nothing },
    }
}

/// The step that a report leads to from a state.
pub fn next_step(state: PipelineState, event: PipelineEvent) -> (step: PipelineStep)
    ensures
        step == pipeline_step(state, event),
{
    match (state, event) {
        (PipelineState::Idle, PipelineEvent::SourceOpened) => PipelineStep {
            state: PipelineState::Capturing,
            action: PipelineAction::ReadNext,
        },
        (PipelineState::Idle, PipelineEvent::SourceUnavailable) => PipelineStep {
            state: PipelineState::Stopped,
            action: PipelineAction::ReportStartupFailure,
        },
        (PipelineState::Capturing, PipelineEvent::PacketCaptured) => PipelineStep {
            state: PipelineState::Capturing,
            action: PipelineAction::DecodeAndSend,
        },
        (PipelineState::Capturing, PipelineEvent::SourceTimedOut) => PipelineStep {
            state: PipelineState::Capturing,
            action: PipelineAction::ReadNext,
        },
        (PipelineState::Capturing, PipelineEvent::SourceFailed) => PipelineStep {
            state: PipelineState::Draining,
            action: PipelineAction::CloseChannel,
        },
        (PipelineState::Draining, PipelineEvent::ChannelDrained) => PipelineStep {
            state: PipelineState::Stopped,
            action: PipelineAction::Finish,
        },
        _ => PipelineStep { state, action: PipelineAction::Nothing },
    }
}

/// A packet as the source hands it out: the payload, lent for one decoding,
/// and when it was received, in milliseconds since the Unix epoch.
#[derive(Debug, Clone, Copy)]
pub struct RawPacket<'a> {
    pub payload: &'a [u8],
    pub timestamp: u64,
}

/// Why the source handed out no packet.
#[derive(Debug, Clone, PartialEq, Eq)]
pub enum CaptureError {
    /// No packet arrived within the source's time limit.
    Timeout,
    /// The source failed; the text says how.
    Other(String),
}

/// What a read from the source is, as a report to the pipeline.
pub open spec fn report_of(read: Result<RawPacket<'_>, CaptureError>) -> PipelineEvent {
    match read {
        Ok(_) => PipelineEvent::PacketCaptured,
        Err(CaptureError::Timeout) => PipelineEvent::SourceTimedOut,
        Err(CaptureError::Other(_)) => PipelineEvent::SourceFailed,
    }
}

/// The step that a read from the source leads to.
pub fn step_after_read(state: PipelineState, read: &Result<RawPacket<'_>, CaptureError>) -> (step:
    PipelineStep)
    ensures
        step == pipeline_step(state, report_of(*read)),
{
    match read {
        Ok(_) => next_step(state, PipelineEvent::PacketCaptured),
        Err(CaptureError::Timeout) => next_step(state, PipelineEvent::SourceTimedOut),
        Err(CaptureError::Other(_)) => next_step(state, PipelineEvent::SourceFailed),
    }
}

/// What the side that delivers events to the collector sees.
#[derive(Debug, Clone, Copy, PartialEq, Eq, Structural)]
pub enum DeliveryEvent {
    /// An event came out of the channel.
    EventReceived,
    /// The collector took the event.
    Delivered,
    /// The collector did not take the event.
    DeliveryFailed,
    /// The channel is closed and empty.
    ChannelClosed,
}

/// What the side that delivers events does next.
#[derive(Debug, Clone, Copy, PartialEq, Eq, Structural)]
pub enum DeliveryAction {
    /// Hand the event to the collector.
    Deliver,
    /// Wait for the next event.
    ReceiveNext,
    /// End.
    Finish,
}

/// What the delivering side does next. A failed delivery is passed over:
/// every event stands for itself.
pub open spec fn delivery_action(event: DeliveryEvent) -> DeliveryAction {
    match event {
        DeliveryEvent::EventReceived => DeliveryAction::Deliver,
        DeliveryEvent::Delivered => DeliveryAction::ReceiveNext,
        DeliveryEvent::DeliveryFailed => DeliveryAction::ReceiveNext,
        DeliveryEvent::ChannelClosed => DeliveryAction::Finish,
    }
}

/// What the delivering side does next.
pub fn delivery_step(event: DeliveryEvent) -> (action: DeliveryAction)
    ensures
        action == delivery_action(event),
{
    match event {
        DeliveryEvent::EventReceived => DeliveryAction::Deliver,
        DeliveryEvent::Delivered => DeliveryAction::ReceiveNext,
        DeliveryEvent::DeliveryFailed => DeliveryAction::ReceiveNext,
        DeliveryEvent::ChannelClosed => DeliveryAction::Finish,
    }
}

/// Once stopped, the pipeline stays stopped and asks for nothing.
pub proof fn lemma_stopped_is_final(event: PipelineEvent)
    ensures
        pipeline_step(PipelineState::Stopped, event) == (PipelineStep {
            state: PipelineState::Stopped,
            action: PipelineAction::Nothing,
        }),
{
}

/// Whether the capture may start after the check of the hardware.
#[derive(Debug, Clone, Copy, PartialEq, Eq, Structural)]
pub enum StartupDecision {
    /// The hardware is in order.
    Proceed,
    /// The check could not be made: capture without it.
    ProceedOffline,
    /// The hardware is banned: do not capture.
    Refuse,
}

/// Whether the capture may start after the check of the hardware.
pub open spec fn startup_after(status: HwIdStatus) -> StartupDecision {
    match status {
        HwIdStatus::Valid => StartupDecision::Proceed,
        HwIdStatus::Registered => StartupDecision::Proceed,
        HwIdStatus::Banned(_) => StartupDecision::Refuse,
        HwIdStatus::Error(_) => StartupDecision::ProceedOffline,
    }
}

/// Whether the capture may start after the check of the hardware: a failed
/// check does not keep the program from capturing, a ban does.
pub fn startup_decision(status: &HwIdStatus) -> (decision: StartupDecision)
    ensures
        decision == startup_after(*status),
{
    match status {
        HwIdStatus::Valid => StartupDecision::Proceed,
        HwIdStatus::Registered => StartupDecision::Proceed,
        HwIdStatus::Banned(_) => StartupDecision::Refuse,
        HwIdStatus::Error(_) => StartupDecision::ProceedOffline,
    }
}

/// The name of the interface to capture on: the one asked for, or else the
/// default among those that the machine has. There is none only where none
/// was asked for and the machine has none.
pub fn capture_interface(requested: Option<String>, interfaces: &Vec<NetworkInterface>) -> (name:
    Option<String>)
    ensures
        requested matches Some(wanted) ==> name == Some(wanted),
        requested is None ==> (name is Some <==> interfaces@.len() > 0),
        requested is None ==> (name matches Some(chosen) ==> exists|at: int|
            0 <= at < interfaces@.len() && chosen@ == (#[trigger] interfaces@[at]).name@ && (
            forall|before: int| 0 <= before < at ==> is_loopback(#[trigger] interfaces@[before]))
                && (!is_loopback(interfaces@[at]) || (at == 0 && forall|any: int|
                0 <= any < interfaces@.len() ==> is_loopback(#[trigger] interfaces@[any])))),
{
    match requested {
        Some(wanted) => Some(wanted),
        None => match find_default_interface(interfaces) {
            Some(at) => Some(interfaces[at].name.clone()),
            None => None,
        },
    }
}

/// The events of a list of commands received at `timestamp`: those of each
/// command, in the order of the commands.
pub open spec fn events_of(commands: Seq<CommandView>, timestamp: u64) -> Seq<EventView>
    decreases commands.len(),
{
    if commands.len() == 0 {
        Seq::empty()
    } else {
        events_of(commands.drop_last(), timestamp) + extracted_events(commands.last(), timestamp)
    }
}

/// What a captured payload leads to: the events to send, in their order, and
/// the fragment buffer as it is left.
#[verifier::ext_equal]
pub struct Captured {
    pub events: Seq<EventView>,
    pub buffer: FragmentBufferView,
}

/// What a payload captured at `timestamp` leads to. A payload without the
/// signature of a Photon packet is passed over.
pub open spec fn captured(payload: Seq<u8>, timestamp: u64, buffer: FragmentBufferView) -> Captured {
    if looks_like_photon(payload) {
        Captured {
            events: events_of(decoded_packet(payload, buffer).commands, timestamp),
            buffer: decoded_packet(payload, buffer).buffer,
        }
    } else {
        Captured { events: Seq::empty(), buffer }
    }
}

/// The events of a list of commands received at `timestamp`.
pub fn extract_events(parser: &PhotonParser, commands: &Vec<PhotonCommand>, timestamp: u64) -> (events:
    Vec<PhotonEvent>)
    ensures
        event_views(events@) == events_of(command_views(commands@), timestamp),
{
    let mut events: Vec<PhotonEvent> = Vec::new();
    let mut at: usize = 0;
    while at < commands.len()
        invariant
            at <= commands@.len(),
            event_views(events@) == events_of(command_views(commands@).take(at as int), timestamp),
        decreases commands@.len() - at,
    {
        let mut found = parser.parse_command_at(&commands[at], timestamp);
        events.append(&mut found);
        proof {
            let views = command_views(commands@);
            assert(views.take(at + 1).drop_last() =~= views.take(at as int));
        }
        at = at + 1;
    }
    assert(command_views(commands@).take(at as int) =~= command_views(commands@));
    events
}

/// Decodes a packet and gives the events to send, in their order.
pub fn process_raw_packet(
    layer: &mut PhotonLayer,
    parser: &PhotonParser,
    packet: &RawPacket<'_>,
) -> (events: Vec<PhotonEvent>)
    ensures
        event_views(events@) == captured(packet.payload@, packet.timestamp, old(layer)@).events,
        final(layer)@ == captured(packet.payload@, packet.timestamp, old(layer)@).buffer,
{
    process_payload(layer, parser, packet.payload, packet.timestamp)
}

/// Decodes a payload captured at `timestamp` and gives the events to send,
/// in their order.
pub fn process_payload(
    layer: &mut PhotonLayer,
    parser: &PhotonParser,
    payload: &[u8],
    timestamp: u64,
) -> (events: Vec<PhotonEvent>)
    ensures
        event_views(events@) == captured(payload@, timestamp, old(layer)@).events,
        final(layer)@ == captured(payload@, timestamp, old(layer)@).buffer,
{
    if !is_photon_packet(payload) {
        let events: Vec<PhotonEvent> = Vec::new();
        return events;
    }
    match layer.process_packet(payload) {
        Ok(commands) => extract_events(parser, &commands, timestamp),
        Err(_) => {
            let events: Vec<PhotonEvent> = Vec::new();
            events
        },
    }
}

} // verus!

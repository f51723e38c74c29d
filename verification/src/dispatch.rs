//! What each kind of message does to the player state.

use vstd::prelude::*;
use crate::decode::{
    decode_envelope, decode_playing, decode_position, decode_system, decode_transport,
    envelope_of, kind_of, playing_of, position_of, system_of, transport_of, DecodeError,
    MessageKind, SystemPayload, SystemPayloadView, VibinMessage,
};
use crate::json::{parse_json, parsed_json, Json, JsonValue};
use crate::state::{
    ActiveTrack, ActiveTrackView, StreamerDisplay, StreamerDisplayView, TransportState,
    TransportStateView, VibinState, VibinStateView,
};
use crate::text::joined;
use crate::events::{error_report, no_event, one_event, report, Event, EventView};
use crate::websocket::WebSocketConnection;

verus! {

// ---------------------------------------------------------------------------
// Merging

/// `update` if it is given, else `prior`.
pub open spec fn given_or<T>(update: Option<T>, prior: Option<T>) -> Option<T> {
    match update {
        Some(_) => update,
        None => prior,
    }
}

impl StreamerDisplayView {
    /// The display after `update` has been merged in: each line that the
    /// update gives replaces the one held, and each line that it leaves out
    /// stays.
    pub open spec fn merged(self, update: StreamerDisplayView) -> StreamerDisplayView {
        StreamerDisplayView {
            line1: given_or(update.line1, self.line1),
            line2: given_or(update.line2, self.line2),
            line3: given_or(update.line3, self.line3),
            format: given_or(update.format, self.format),
            playback_source: given_or(update.playback_source, self.playback_source),
            art_url: given_or(update.art_url, self.art_url),
        }
    }
}

impl VibinStateView {
    /// The state after a `System` message: `power` is overwritten, given or
    /// not; a given amplifier replaces the one held; a given display is
    /// merged line by line; given inputs replace the source by the input in
    /// use. Everything else stays.
    pub open spec fn with_system(self, payload: SystemPayloadView) -> VibinStateView {
        VibinStateView {
            power: payload.power,
            amplifier: given_or(payload.amplifier, self.amplifier),
            display: match payload.display {
                Some(update) => self.display.merged(update),
                None => self.display,
            },
            source: match payload.sources {
                Some(sources) => Some(sources.active),
                None => self.source,
            },
            ..self
        }
    }

    /// The state after a `TransportState` message: the transport held is
    /// replaced as a whole. Everything else stays.
    pub open spec fn with_transport(self, transport: TransportStateView) -> VibinStateView {
        VibinStateView { transport: Some(transport), ..self }
    }

    /// The state after a `CurrentlyPlaying` message: the track held is
    /// replaced as a whole. Everything else stays.
    pub open spec fn with_track(self, track: ActiveTrackView) -> VibinStateView {
        VibinStateView { active_track: Some(track), ..self }
    }
}

impl StreamerDisplay {
    /// Merges `update` in, line by line.
    pub fn merge(&mut self, update: StreamerDisplay)
        ensures
            final(self)@ == old(self)@.merged(update@),
    {
        if update.line1.is_some() {
            self.line1 = update.line1;
        }
        if update.line2.is_some() {
            self.line2 = update.line2;
        }
        if update.line3.is_some() {
            self.line3 = update.line3;
        }
        if update.format.is_some() {
            self.format = update.format;
        }
        if update.playback_source.is_some() {
            self.playback_source = update.playback_source;
        }
        if update.art_url.is_some() {
            self.art_url = update.art_url;
        }
    }
}

impl VibinState {
    /// Takes in a `System` message.
    pub fn apply_system(&mut self, payload: SystemPayload)
        ensures
            final(self)@ == old(self)@.with_system(payload@),
    {
        self.power = payload.power;
        if payload.amplifier.is_some() {
            self.amplifier = payload.amplifier;
        }
        if let Some(update) = payload.display {
            self.display.merge(update);
        }
        if let Some(sources) = payload.sources {
            self.source = Some(sources.active);
        }
    }

    /// Takes in a `TransportState` message.
    pub fn apply_transport(&mut self, transport: TransportState)
        ensures
            final(self)@ == old(self)@.with_transport(transport@),
    {
        self.transport = Some(transport);
    }

    /// Takes in a `CurrentlyPlaying` message.
    pub fn apply_track(&mut self, track: ActiveTrack)
        ensures
            final(self)@ == old(self)@.with_track(track@),
    {
        self.active_track = Some(track);
    }
}

// ---------------------------------------------------------------------------
// Dispatch

/// The message with which a payload that does not have the shape of its
/// kind is reported.
pub open spec fn payload_error_message(msg_type: Seq<char>, error: DecodeError) -> Seq<char> {
    "Could not decode "@ + msg_type + " payload: "@ + error.description()
}

/// The message with which a text that is no message at all is reported:
/// `detail` says what is wrong with it.
pub open spec fn text_error_message(detail: Seq<char>, text: Seq<char>) -> Seq<char> {
    "Could not deserialize WebSocket message; error: "@ + detail + " :: message: "@ + text
}

/// What a message of kind `msg_type` with the payload `payload` does to the
/// player state `state`, and what is published for it.
///
/// A `System`, `TransportState` or `CurrentlyPlaying` message with a payload
/// of the right shape changes the state and has it published once; with any
/// other payload it changes nothing and an error is published. A `Position`
/// message never changes the state: its position is published by itself, and
/// a payload of the wrong shape is dropped without a word. A message of any
/// other kind does nothing.
pub open spec fn dispatched(state: VibinStateView, msg_type: Seq<char>, payload: JsonValue) -> (
    VibinStateView,
    Seq<EventView>,
) {
    match kind_of(msg_type) {
        MessageKind::System => match system_of(payload) {
            Ok(system) => (state.with_system(system), seq![EventView::VibinState]),
            Err(e) => (state, error_report(payload_error_message(msg_type, e))),
        },
        MessageKind::TransportState => match transport_of(payload) {
            Ok(transport) => (state.with_transport(transport), seq![EventView::VibinState]),
            Err(e) => (state, error_report(payload_error_message(msg_type, e))),
        },
        MessageKind::CurrentlyPlaying => match playing_of(payload) {
            Ok(track) => (state.with_track(track), seq![EventView::VibinState]),
            Err(e) => (state, error_report(payload_error_message(msg_type, e))),
        },
        MessageKind::Position => match position_of(payload) {
            Ok(position) => (state, seq![EventView::Position(position)]),
            Err(_) => (state, Seq::empty()),
        },
        MessageKind::Unknown => (state, Seq::empty()),
    }
}

/// What a text frame does to the player state `state`, and what is
/// published for it, given what the JSON parser made of the text: a text
/// that is no JSON, or no message envelope, is reported and changes nothing;
/// a message is dispatched by its kind.
pub open spec fn text_outcome(
    state: VibinStateView,
    parsed: Result<JsonValue, Seq<char>>,
    text: Seq<char>,
) -> (VibinStateView, Seq<EventView>) {
    match parsed {
        Err(detail) => (state, error_report(text_error_message(detail, text))),
        Ok(json) => match envelope_of(json) {
            Err(e) => (state, error_report(text_error_message(e.description(), text))),
            Ok((msg_type, payload)) => dispatched(state, msg_type, payload),
        },
    }
}

/// The view of what the JSON parser handed back.
pub open spec fn parse_view(parsed: Result<Json, String>) -> Result<JsonValue, Seq<char>> {
    match parsed {
        Ok(json) => Ok(json@),
        Err(detail) => Err(detail@),
    }
}

fn payload_error(msg_type: &String, error: DecodeError) -> (events: Vec<Event>)
    ensures
        events.deep_view() == error_report(payload_error_message(msg_type@, error)),
{
    let mut message = joined("Could not decode ", msg_type.as_str());
    message.append(" payload: ");
    message.append(error.to_string().as_str());
    report(message)
}

fn text_error(detail: &str, text: &str) -> (events: Vec<Event>)
    ensures
        events.deep_view() == error_report(text_error_message(detail@, text@)),
{
    let mut message = joined("Could not deserialize WebSocket message; error: ", detail);
    message.append(" :: message: ");
    message.append(text);
    report(message)
}

impl WebSocketConnection {
    /// Takes in one message: updates `vibin_state` as the message's kind
    /// rules, and returns what is to be published.
    pub fn process_message(&self, vibin_msg: VibinMessage, vibin_state: &mut VibinState) -> (events:
        Vec<Event>)
        ensures
            (final(vibin_state)@, events.deep_view()) == dispatched(
                old(vibin_state)@,
                vibin_msg.msg_type@,
                vibin_msg.payload@,
            ),
    {
        let msg_type = vibin_msg.msg_type;
        let payload = vibin_msg.payload;
        match vibin_msg.kind() {
            MessageKind::System => match decode_system(payload) {
                Ok(system) => {
                    vibin_state.apply_system(system);
                    one_event(Event::VibinState)
                },
                Err(e) => payload_error(msg_type, e),
            },
            MessageKind::TransportState => match decode_transport(payload) {
                Ok(transport) => {
                    vibin_state.apply_transport(transport);
                    one_event(Event::VibinState)
                },
                Err(e) => payload_error(msg_type, e),
            },
            MessageKind::CurrentlyPlaying => match decode_playing(payload) {
                Ok(track) => {
                    vibin_state.apply_track(track);
                    one_event(Event::VibinState)
                },
                Err(e) => payload_error(msg_type, e),
            },
            MessageKind::Position => match decode_position(payload) {
                Ok(position) => one_event(Event::Position(position)),
                Err(_) => no_event(),
            },
            MessageKind::Unknown => no_event(),
        }
    }

    /// Takes in one text frame of which the JSON parser made `parsed`.
    pub fn process_parsed_text(
        &self,
        parsed: Result<Json, String>,
        text: &str,
        vibin_state: &mut VibinState,
    ) -> (events: Vec<Event>)
        ensures
            (final(vibin_state)@, events.deep_view()) == text_outcome(
                old(vibin_state)@,
                parse_view(parsed),
                text@,
            ),
    {
        match parsed {
            Err(detail) => text_error(detail.as_str(), text),
            Ok(json) => match decode_envelope(&json) {
                Err(e) => text_error(e.to_string().as_str(), text),
                Ok(vibin_msg) => self.process_message(vibin_msg, vibin_state),
            },
        }
    }

    /// Takes in one text frame: has it parsed as JSON and goes on from what
    /// came of it.
    pub fn process_text(&self, text: &str, vibin_state: &mut VibinState) -> (events: Vec<Event>)
        ensures
            (final(vibin_state)@, events.deep_view()) == text_outcome(
                old(vibin_state)@,
                parsed_json(text@),
                text@,
            ),
    {
        let parsed = parse_json(text);
        self.process_parsed_text(parsed, text, vibin_state)
    }
}

} // verus!

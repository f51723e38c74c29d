use weevibin::decode::VibinMessage;
use weevibin::events::{AppError, AppErrorCategory, Event};
use weevibin::json::Json;
use weevibin::state::{
    ActiveTrack, Amplifier, Position, Source, StreamerDisplay, StreamerSources, TransportState,
    VibinState, WeeVibinMessage,
};
use weevibin::decode::SystemPayload;
use weevibin::websocket::WebSocketConnection;

fn connection() -> WebSocketConnection {
    WebSocketConnection::new()
}

fn error(message: &str) -> Event {
    Event::Error(AppError { category: AppErrorCategory::WebSocket, message: message.to_string() })
}

fn blank_source(id: &str) -> Source {
    Source {
        id: Some(id.to_string()),
        name: None,
        default_name: None,
        class: None,
        nameable: None,
        ui_selectable: None,
        description: None,
        description_locale: None,
        preferred_order: None,
    }
}

fn playing_state() -> VibinState {
    let mut state = VibinState::new();
    state.display.line1 = Some("Miles Davis".to_string());
    state.display.line2 = Some("So What".to_string());
    state.display.format = Some("FLAC".to_string());
    state.source = Some(blank_source("USB"));
    state.amplifier = Some(Amplifier { mute: Some("off".to_string()), volume: Some("10".to_string()) });
    state.transport = Some(TransportState {
        play_state: Some("play".to_string()),
        active_controls: vec!["pause".to_string(), "seek".to_string()],
        repeat: Some("all".to_string()),
        shuffle: Some("off".to_string()),
    });
    state.active_track = Some(ActiveTrack {
        title: Some("So What".to_string()),
        artist: None,
        album: None,
        art_url: None,
        duration: Some(562),
    });
    state
}

#[test]
fn system_with_only_power_leaves_display_and_source_unchanged() {
    let mut state = playing_state();
    let before = state.clone();
    let events = connection().process_text(
        r#"{"type": "System", "payload": {"power": "on", "streamer": {}}}"#,
        &mut state,
    );
    assert_eq!(events, vec![Event::VibinState]);
    assert_eq!(state.power, Some("on".to_string()));
    assert_eq!(state.display, before.display);
    assert_eq!(state.source, before.source);
    assert_eq!(state.amplifier, before.amplifier);
    assert_eq!(state.transport, before.transport);
    assert_eq!(state.active_track, before.active_track);
    assert_eq!(state.streamer_power, before.streamer_power);
}

#[test]
fn system_without_streamer_is_accepted() {
    let mut state = playing_state();
    let before = state.clone();
    let events =
        connection().process_text(r#"{"type": "System", "payload": {"power": "on"}}"#, &mut state);
    assert_eq!(events, vec![Event::VibinState]);
    assert_eq!(state.power, Some("on".to_string()));
    assert_eq!(state.display, before.display);
    assert_eq!(state.source, before.source);
}

#[test]
fn system_without_power_clears_power() {
    let mut state = playing_state();
    let events = connection().process_text(r#"{"type": "System", "payload": {}}"#, &mut state);
    assert_eq!(events, vec![Event::VibinState]);
    assert_eq!(state.power, None);
}

#[test]
fn system_merges_display_line_by_line() {
    let mut state = playing_state();
    let text = r#"{"type": "System", "payload": {"power": "on",
        "streamer": {"display": {"line1": "Bill Evans", "line3": null, "art_url": "http://art"}}}}"#;
    let events = connection().process_text(text, &mut state);
    assert_eq!(events, vec![Event::VibinState]);
    assert_eq!(
        state.display,
        StreamerDisplay {
            line1: Some("Bill Evans".to_string()),
            line2: Some("So What".to_string()),
            line3: None,
            format: Some("FLAC".to_string()),
            playback_source: None,
            art_url: Some("http://art".to_string()),
        }
    );
}

#[test]
fn system_replaces_amplifier_and_source() {
    let mut state = playing_state();
    let text = r#"{"type": "System", "payload": {"power": "on",
        "amplifier": {"volume": 0.5},
        "streamer": {"sources": {"active": {"id": "AIRPLAY", "preferred_order": 2},
                                 "available": [{"id": "USB"}, {"id": "AIRPLAY"}]}}}}"#;
    let events = connection().process_text(text, &mut state);
    assert_eq!(events, vec![Event::VibinState]);
    assert_eq!(state.amplifier, Some(Amplifier { mute: None, volume: Some("0.5".to_string()) }));
    let mut expected = blank_source("AIRPLAY");
    expected.preferred_order = Some(2);
    assert_eq!(state.source, Some(expected));
}

#[test]
fn apply_system_takes_payload_values() {
    let mut state = playing_state();
    state.apply_system(SystemPayload {
        power: None,
        sources: Some(StreamerSources { active: blank_source("TV"), available: vec![] }),
        display: None,
        amplifier: None,
    });
    assert_eq!(state.power, None);
    assert_eq!(state.source, Some(blank_source("TV")));
    assert_eq!(state.display, playing_state().display);
    assert_eq!(state.amplifier, playing_state().amplifier);
}

#[test]
fn transport_state_fully_replaces_the_prior_value() {
    let mut state = playing_state();
    let before = state.clone();
    let text = r#"{"type": "TransportState", "payload": {"play_state": "pause", "active_controls": []}}"#;
    let events = connection().process_text(text, &mut state);
    assert_eq!(events, vec![Event::VibinState]);
    assert_eq!(
        state.transport,
        Some(TransportState {
            play_state: Some("pause".to_string()),
            active_controls: vec![],
            repeat: None,
            shuffle: None,
        })
    );
    assert_eq!(state.display, before.display);
    assert_eq!(state.active_track, before.active_track);
    assert_eq!(state.power, before.power);
}

#[test]
fn currently_playing_replaces_the_track() {
    let mut state = playing_state();
    let text = r#"{"type": "CurrentlyPlaying", "payload": {
        "album_media_id": "a1", "track_media_id": "t1",
        "active_track": {"title": "Blue in Green", "duration": 327},
        "format": {"codec": "FLAC", "sample_rate": 44100}, "stream": {"url": "http://s"}}}"#;
    let events = connection().process_text(text, &mut state);
    assert_eq!(events, vec![Event::VibinState]);
    assert_eq!(
        state.active_track,
        Some(ActiveTrack {
            title: Some("Blue in Green".to_string()),
            artist: None,
            album: None,
            art_url: None,
            duration: Some(327),
        })
    );
    assert_eq!(state.transport, playing_state().transport);
}

#[test]
fn position_is_published_by_itself() {
    let mut state = playing_state();
    let before = state.clone();
    let events =
        connection().process_text(r#"{"type": "Position", "payload": {"position": 17}}"#, &mut state);
    assert_eq!(events, vec![Event::Position(Position { position: 17 })]);
    assert_eq!(events[0].channel(), WeeVibinMessage::Position);
    assert_eq!(state, before);
}

#[test]
fn position_of_the_wrong_shape_is_dropped() {
    let mut state = playing_state();
    let before = state.clone();
    let events = connection()
        .process_text(r#"{"type": "Position", "payload": {"position": 1.5}}"#, &mut state);
    assert_eq!(events, vec![]);
    let events = connection().process_text(r#"{"type": "Position", "payload": {}}"#, &mut state);
    assert_eq!(events, vec![]);
    assert_eq!(state, before);
}

#[test]
fn unknown_kinds_are_ignored() {
    let mut state = playing_state();
    let before = state.clone();
    let events =
        connection().process_text(r#"{"type": "Favorites", "payload": {"x": 1}}"#, &mut state);
    assert_eq!(events, vec![]);
    let events = connection().process_text(r#"{"type": "system", "payload": {}}"#, &mut state);
    assert_eq!(events, vec![]);
    assert_eq!(state, before);
}

#[test]
fn payload_of_the_wrong_shape_is_reported_and_changes_nothing() {
    let mut state = playing_state();
    let before = state.clone();
    let events = connection()
        .process_text(r#"{"type": "System", "payload": {"power": 1}}"#, &mut state);
    assert_eq!(events, vec![error("Could not decode System payload: a member has the wrong type")]);
    assert_eq!(events[0].channel(), WeeVibinMessage::Error);
    let events =
        connection().process_text(r#"{"type": "TransportState", "payload": {}}"#, &mut state);
    assert_eq!(
        events,
        vec![error("Could not decode TransportState payload: a required member is missing")]
    );
    let events =
        connection().process_text(r#"{"type": "CurrentlyPlaying", "payload": []}"#, &mut state);
    assert_eq!(events, vec![error("Could not decode CurrentlyPlaying payload: expected an object")]);
    let events = connection().process_text(
        r#"{"type": "CurrentlyPlaying", "payload": {"active_track": {"duration": 1e30}}}"#,
        &mut state,
    );
    assert_eq!(
        events,
        vec![error("Could not decode CurrentlyPlaying payload: a member has the wrong type")]
    );
    let events = connection().process_text(
        r#"{"type": "CurrentlyPlaying", "payload": {"active_track": {"duration": 18446744073709551615}}}"#,
        &mut state,
    );
    assert_eq!(
        events,
        vec![error("Could not decode CurrentlyPlaying payload: a number is out of range")]
    );
    assert_eq!(state, before);
}

#[test]
fn text_that_is_no_json_is_reported_with_the_parsers_words() {
    let mut state = playing_state();
    let before = state.clone();
    let events = connection().process_text("{oops", &mut state);
    assert_eq!(
        events,
        vec![error(
            "Could not deserialize WebSocket message; error: Error(\"key must be a string\", line: 1, column: 2) :: message: {oops"
        )]
    );
    assert_eq!(state, before);
}

#[test]
fn json_that_is_no_message_is_reported() {
    let mut state = playing_state();
    let events = connection().process_text("[1, 2]", &mut state);
    assert_eq!(
        events,
        vec![error(
            "Could not deserialize WebSocket message; error: expected an object :: message: [1, 2]"
        )]
    );
    let events = connection().process_text(r#"{"type": "System"}"#, &mut state);
    assert_eq!(
        events,
        vec![error(
            "Could not deserialize WebSocket message; error: a required member is missing :: message: {\"type\": \"System\"}"
        )]
    );
}

#[test]
fn numbers_arrive_as_the_parser_prints_them() {
    let mut state = VibinState::new();
    let text = r#"{"type": "System", "payload": {"amplifier": {"volume": 1.50}}}"#;
    connection().process_text(text, &mut state);
    assert_eq!(state.amplifier.unwrap().volume, Some("1.5".to_string()));
    let mut state = VibinState::new();
    let text = r#"{"type": "System", "payload": {"amplifier": {"volume": 25}}}"#;
    connection().process_text(text, &mut state);
    assert_eq!(state.amplifier.unwrap().volume, Some("25".to_string()));
    let mut state = VibinState::new();
    let text = r#"{"type": "CurrentlyPlaying", "payload": {"active_track": {"duration": -0}}}"#;
    let events = connection().process_text(text, &mut state);
    assert_eq!(
        events,
        vec![error("Could not decode CurrentlyPlaying payload: a member has the wrong type")]
    );
}

#[test]
fn process_parsed_text_goes_by_what_it_is_given() {
    let mut state = VibinState::new();
    let json = Json::Object(vec![
        ("type".to_string(), Json::Text("Position".to_string())),
        (
            "payload".to_string(),
            Json::Object(vec![("position".to_string(), Json::Number("3".to_string()))]),
        ),
    ]);
    let events = connection().process_parsed_text(Ok(json), "whatever", &mut state);
    assert_eq!(events, vec![Event::Position(Position { position: 3 })]);
    let events =
        connection().process_parsed_text(Err("broken".to_string()), "the text", &mut state);
    assert_eq!(
        events,
        vec![error(
            "Could not deserialize WebSocket message; error: broken :: message: the text"
        )]
    );
}

#[test]
fn process_message_dispatches_by_kind() {
    let mut state = VibinState::new();
    let kind = "TransportState".to_string();
    let payload = Json::Object(vec![("active_controls".to_string(), Json::Array(vec![]))]);
    let message = VibinMessage { msg_type: &kind, payload: &payload };
    let events = connection().process_message(message, &mut state);
    assert_eq!(events, vec![Event::VibinState]);
    assert_eq!(
        state.transport,
        Some(TransportState {
            play_state: None,
            active_controls: vec![],
            repeat: None,
            shuffle: None,
        })
    );
}

#[test]
fn duplicate_keys_resolve_to_the_last() {
    let mut state = VibinState::new();
    let text = r#"{"type": "Position", "type": "System", "payload": {"power": "standby"}}"#;
    let events = connection().process_text(text, &mut state);
    assert_eq!(events, vec![Event::VibinState]);
    assert_eq!(state.power, Some("standby".to_string()));
}

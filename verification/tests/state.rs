use weevibin::state::{AppState, VibinConnectionState, VibinState, WeeVibinMessage};

#[test]
fn app_state_starts_disconnected_without_reason() {
    let state = AppState::new();
    assert_eq!(state.vibin_connection, VibinConnectionState::Disconnected(None));
}

#[test]
fn set_disconnected_overwrites_any_state() {
    let mut state = AppState::new();
    state.vibin_connection = VibinConnectionState::Connected("ws://vibin.local".to_string());
    state.set_disconnected(Some("gone".to_string()));
    assert_eq!(
        state.vibin_connection,
        VibinConnectionState::Disconnected(Some("gone".to_string()))
    );
    state.set_disconnected(None);
    assert_eq!(state.vibin_connection, VibinConnectionState::Disconnected(None));
}

#[test]
fn vibin_state_starts_powered_off_and_blank() {
    let state = VibinState::new();
    assert_eq!(state.power, Some("off".to_string()));
    assert_eq!(state.streamer_power, Some("off".to_string()));
    assert_eq!(state.amplifier, None);
    assert_eq!(state.display.line1, None);
    assert_eq!(state.display.line2, None);
    assert_eq!(state.display.line3, None);
    assert_eq!(state.display.format, None);
    assert_eq!(state.display.playback_source, None);
    assert_eq!(state.display.art_url, None);
    assert_eq!(state.transport, None);
    assert_eq!(state.source, None);
    assert_eq!(state.active_track, None);
}

#[test]
fn channels_are_named_after_their_variants() {
    assert_eq!(WeeVibinMessage::AppState.to_string(), "AppState");
    assert_eq!(WeeVibinMessage::VibinState.to_string(), "VibinState");
    assert_eq!(WeeVibinMessage::Position.to_string(), "Position");
    assert_eq!(WeeVibinMessage::Error.to_string(), "Error");
}

#[test]
fn lifecycle_is_published_as_state_and_message() {
    let connected = VibinConnectionState::Connected("ws://a".to_string());
    assert_eq!(connected.state_name(), "Connected");
    assert_eq!(connected.message(), Some("ws://a".to_string()));

    let connecting = VibinConnectionState::Connecting("ws://b".to_string());
    assert_eq!(connecting.state_name(), "Connecting");
    assert_eq!(connecting.message(), Some("ws://b".to_string()));

    let idle = VibinConnectionState::Disconnected(None);
    assert_eq!(idle.state_name(), "Disconnected");
    assert_eq!(idle.message(), None);

    let failed = VibinConnectionState::Disconnected(Some("why".to_string()));
    assert_eq!(failed.state_name(), "Disconnected");
    assert_eq!(failed.message(), Some("why".to_string()));

    let leaving = VibinConnectionState::Disconnecting;
    assert_eq!(leaving.state_name(), "Disconnecting");
    assert_eq!(leaving.message(), Some(String::new()));
}

#[test]
fn lifecycle_tells_connected_and_disconnected_apart() {
    assert!(VibinConnectionState::Connected("x".to_string()).is_connected());
    assert!(!VibinConnectionState::Connecting("x".to_string()).is_connected());
    assert!(!VibinConnectionState::Disconnecting.is_connected());
    assert!(VibinConnectionState::Disconnected(None).is_disconnected());
    assert!(VibinConnectionState::Disconnected(Some("r".to_string())).is_disconnected());
    assert!(!VibinConnectionState::Disconnecting.is_disconnected());
    assert!(!VibinConnectionState::Connected("x".to_string()).is_disconnected());
}

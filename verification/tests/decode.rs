use weevibin::decode::{
    decode_amplifier, decode_display, decode_envelope, decode_playing, decode_position,
    decode_source, decode_sources, decode_system, decode_track, decode_transport,
    parse_whole_number, DecodeError, MessageKind, VibinMessage,
};
use weevibin::json::Json;
use weevibin::state::Position;

fn text(s: &str) -> Json {
    Json::Text(s.to_string())
}

fn number(s: &str) -> Json {
    Json::Number(s.to_string())
}

fn object(members: Vec<(&str, Json)>) -> Json {
    Json::Object(members.into_iter().map(|(k, v)| (k.to_string(), v)).collect())
}

#[test]
fn whole_numbers_are_read_from_their_digits() {
    assert_eq!(parse_whole_number("0"), Ok(0));
    assert_eq!(parse_whole_number("7"), Ok(7));
    assert_eq!(parse_whole_number("12"), Ok(12));
    assert_eq!(parse_whole_number("-12"), Ok(-12));
    assert_eq!(parse_whole_number("007"), Ok(7));
    assert_eq!(parse_whole_number("-0"), Ok(0));
    assert_eq!(parse_whole_number("9223372036854775807"), Ok(isize::MAX));
    assert_eq!(parse_whole_number("-9223372036854775808"), Ok(isize::MIN));
}

#[test]
fn whole_numbers_beyond_isize_are_out_of_range() {
    assert_eq!(parse_whole_number("9223372036854775808"), Err(DecodeError::OutOfRange));
    assert_eq!(parse_whole_number("-9223372036854775809"), Err(DecodeError::OutOfRange));
    assert_eq!(parse_whole_number("18446744073709551615"), Err(DecodeError::OutOfRange));
    assert_eq!(parse_whole_number("18446744073709551616"), Err(DecodeError::OutOfRange));
    assert_eq!(
        parse_whole_number("100000000000000000000000000000000000000000000000000"),
        Err(DecodeError::OutOfRange)
    );
}

#[test]
fn text_that_is_no_whole_number_has_the_wrong_type() {
    for bad in ["", "-", "--1", "1-", "+1", "1.0", "1e3", " 1", "1 ", "١", "12a", "-1.5"] {
        assert_eq!(parse_whole_number(bad), Err(DecodeError::WrongType), "{:?}", bad);
    }
}

#[test]
fn a_long_number_that_ends_badly_has_the_wrong_type() {
    assert_eq!(
        parse_whole_number("99999999999999999999999999999999x"),
        Err(DecodeError::WrongType)
    );
}

#[test]
fn members_are_looked_up_from_the_front() {
    let json = object(vec![("a", number("1")), ("b", number("2")), ("a", number("3"))]);
    assert_eq!(json.member("a"), Some(&number("1")));
    assert_eq!(json.member("b"), Some(&number("2")));
    assert_eq!(json.member("c"), None);
    assert_eq!(Json::Null.member("a"), None);
    assert_eq!(Json::Array(vec![]).member("a"), None);
    assert!(json.is_object());
    assert!(!Json::Array(vec![]).is_object());
}

#[test]
fn display_lines_may_be_left_out_or_null() {
    let json = object(vec![
        ("line1", text("Artist")),
        ("line2", Json::Null),
        ("format", text("FLAC")),
        ("ignored", Json::Bool(true)),
    ]);
    let display = decode_display(&json).unwrap();
    assert_eq!(display.line1, Some("Artist".to_string()));
    assert_eq!(display.line2, None);
    assert_eq!(display.line3, None);
    assert_eq!(display.format, Some("FLAC".to_string()));
    assert_eq!(display.playback_source, None);
    assert_eq!(display.art_url, None);
}

#[test]
fn display_rejects_what_is_no_object_and_what_is_no_string() {
    assert_eq!(decode_display(&text("x")), Err(DecodeError::NotAnObject));
    assert_eq!(decode_display(&Json::Null), Err(DecodeError::NotAnObject));
    assert_eq!(decode_display(&Json::Array(vec![])), Err(DecodeError::NotAnObject));
    let json = object(vec![("line3", number("3"))]);
    assert_eq!(decode_display(&json), Err(DecodeError::WrongType));
}

#[test]
fn source_reads_all_nine_members() {
    let json = object(vec![
        ("id", text("USB")),
        ("name", text("Usb")),
        ("default_name", text("USB Audio")),
        ("class", text("digital.usb")),
        ("nameable", Json::Bool(true)),
        ("ui_selectable", Json::Bool(false)),
        ("description", text("USB")),
        ("description_locale", text("USB")),
        ("preferred_order", number("-4")),
    ]);
    let source = decode_source(&json).unwrap();
    assert_eq!(source.id, Some("USB".to_string()));
    assert_eq!(source.name, Some("Usb".to_string()));
    assert_eq!(source.default_name, Some("USB Audio".to_string()));
    assert_eq!(source.class, Some("digital.usb".to_string()));
    assert_eq!(source.nameable, Some(true));
    assert_eq!(source.ui_selectable, Some(false));
    assert_eq!(source.description, Some("USB".to_string()));
    assert_eq!(source.description_locale, Some("USB".to_string()));
    assert_eq!(source.preferred_order, Some(-4));
}

#[test]
fn source_reports_the_first_member_that_is_wrong() {
    let json = object(vec![("preferred_order", number("1.5")), ("nameable", text("yes"))]);
    assert_eq!(decode_source(&json), Err(DecodeError::WrongType));
    let json = object(vec![("preferred_order", number("99999999999999999999"))]);
    assert_eq!(decode_source(&json), Err(DecodeError::OutOfRange));
    let json = object(vec![
        ("preferred_order", number("99999999999999999999")),
        ("id", number("1")),
    ]);
    assert_eq!(decode_source(&json), Err(DecodeError::WrongType));
}

#[test]
fn sources_need_the_active_one_and_the_list() {
    let usb = object(vec![("id", text("USB"))]);
    let air = object(vec![("id", text("AIRPLAY"))]);
    let json = object(vec![
        ("active", object(vec![("id", text("USB"))])),
        ("available", Json::Array(vec![usb, air])),
    ]);
    let sources = decode_sources(&json).unwrap();
    assert_eq!(sources.active.id, Some("USB".to_string()));
    assert_eq!(sources.available.len(), 2);
    assert_eq!(sources.available[0].id, Some("USB".to_string()));
    assert_eq!(sources.available[1].id, Some("AIRPLAY".to_string()));

    let json = object(vec![("available", Json::Array(vec![]))]);
    assert_eq!(decode_sources(&json), Err(DecodeError::MissingField));
    let json = object(vec![("active", object(vec![]))]);
    assert_eq!(decode_sources(&json), Err(DecodeError::MissingField));
    let json = object(vec![("active", Json::Null), ("available", Json::Array(vec![]))]);
    assert_eq!(decode_sources(&json), Err(DecodeError::NotAnObject));
    let json = object(vec![("active", object(vec![])), ("available", object(vec![]))]);
    assert_eq!(decode_sources(&json), Err(DecodeError::WrongType));
    let json = object(vec![
        ("active", object(vec![])),
        ("available", Json::Array(vec![object(vec![]), text("x"), number("1")])),
    ]);
    assert_eq!(decode_sources(&json), Err(DecodeError::NotAnObject));
}

#[test]
fn amplifier_keeps_the_volume_as_written() {
    let json = object(vec![("mute", text("off")), ("volume", number("0.35"))]);
    let amplifier = decode_amplifier(&json).unwrap();
    assert_eq!(amplifier.mute, Some("off".to_string()));
    assert_eq!(amplifier.volume, Some("0.35".to_string()));
    let json = object(vec![("volume", text("loud"))]);
    assert_eq!(decode_amplifier(&json), Err(DecodeError::WrongType));
    let amplifier = decode_amplifier(&object(vec![])).unwrap();
    assert_eq!(amplifier.mute, None);
    assert_eq!(amplifier.volume, None);
}

#[test]
fn transport_needs_its_controls() {
    let json = object(vec![
        ("play_state", text("play")),
        ("active_controls", Json::Array(vec![text("pause"), text("next")])),
        ("repeat", text("off")),
        ("shuffle", Json::Null),
    ]);
    let transport = decode_transport(&json).unwrap();
    assert_eq!(transport.play_state, Some("play".to_string()));
    assert_eq!(transport.active_controls, vec!["pause".to_string(), "next".to_string()]);
    assert_eq!(transport.repeat, Some("off".to_string()));
    assert_eq!(transport.shuffle, None);

    let json = object(vec![("play_state", text("play"))]);
    assert_eq!(decode_transport(&json), Err(DecodeError::MissingField));
    let json = object(vec![("active_controls", Json::Null)]);
    assert_eq!(decode_transport(&json), Err(DecodeError::WrongType));
    let json = object(vec![("active_controls", Json::Array(vec![text("a"), Json::Null]))]);
    assert_eq!(decode_transport(&json), Err(DecodeError::WrongType));
}

#[test]
fn track_reads_its_duration_as_a_whole_number() {
    let json = object(vec![
        ("title", text("So What")),
        ("artist", text("Miles Davis")),
        ("album", text("Kind of Blue")),
        ("art_url", text("http://art")),
        ("duration", number("562")),
    ]);
    let track = decode_track(&json).unwrap();
    assert_eq!(track.title, Some("So What".to_string()));
    assert_eq!(track.artist, Some("Miles Davis".to_string()));
    assert_eq!(track.album, Some("Kind of Blue".to_string()));
    assert_eq!(track.art_url, Some("http://art".to_string()));
    assert_eq!(track.duration, Some(562));
    let json = object(vec![("duration", number("562.5"))]);
    assert_eq!(decode_track(&json), Err(DecodeError::WrongType));
}

#[test]
fn currently_playing_looks_at_the_track_only() {
    let json = object(vec![
        ("active_track", object(vec![("title", text("So What"))])),
        ("format", text("not even an object")),
        ("stream", number("1")),
    ]);
    let track = decode_playing(&json).unwrap();
    assert_eq!(track.title, Some("So What".to_string()));
    assert_eq!(decode_playing(&object(vec![])), Err(DecodeError::MissingField));
    assert_eq!(decode_playing(&Json::Bool(true)), Err(DecodeError::NotAnObject));
}

#[test]
fn position_must_be_given() {
    let json = object(vec![("position", number("42"))]);
    assert_eq!(decode_position(&json), Ok(Position { position: 42 }));
    assert_eq!(decode_position(&object(vec![])), Err(DecodeError::MissingField));
    let json = object(vec![("position", Json::Null)]);
    assert_eq!(decode_position(&json), Err(DecodeError::WrongType));
    let json = object(vec![("position", number("4.2"))]);
    assert_eq!(decode_position(&json), Err(DecodeError::WrongType));
    assert_eq!(decode_position(&number("42")), Err(DecodeError::NotAnObject));
}

#[test]
fn system_finds_display_and_sources_inside_streamer() {
    let json = object(vec![
        ("power", text("on")),
        (
            "streamer",
            object(vec![
                ("name", text("CXNv2")),
                ("display", object(vec![("line1", text("Hello"))])),
                (
                    "sources",
                    object(vec![
                        ("active", object(vec![("id", text("USB"))])),
                        ("available", Json::Array(vec![])),
                    ]),
                ),
            ]),
        ),
        ("amplifier", object(vec![("mute", text("on")), ("volume", number("3"))])),
    ]);
    let system = decode_system(&json).unwrap();
    assert_eq!(system.power, Some("on".to_string()));
    assert_eq!(system.display.unwrap().line1, Some("Hello".to_string()));
    assert_eq!(system.sources.unwrap().active.id, Some("USB".to_string()));
    let amplifier = system.amplifier.unwrap();
    assert_eq!(amplifier.mute, Some("on".to_string()));
    assert_eq!(amplifier.volume, Some("3".to_string()));
}

#[test]
fn system_may_leave_everything_out() {
    let system = decode_system(&object(vec![])).unwrap();
    assert_eq!(system.power, None);
    assert_eq!(system.display, None);
    assert_eq!(system.sources, None);
    assert_eq!(system.amplifier, None);
    let system = decode_system(&object(vec![("streamer", Json::Null)])).unwrap();
    assert_eq!(system.display, None);
    let system = decode_system(&object(vec![("streamer", object(vec![]))])).unwrap();
    assert_eq!(system.sources, None);
}

#[test]
fn system_rejects_a_streamer_that_is_no_object() {
    let json = object(vec![("streamer", text("CXNv2"))]);
    assert_eq!(decode_system(&json), Err(DecodeError::NotAnObject));
    let json = object(vec![("power", number("1")), ("streamer", text("CXNv2"))]);
    assert_eq!(decode_system(&json), Err(DecodeError::WrongType));
    let json = object(vec![("amplifier", Json::Array(vec![]))]);
    assert_eq!(decode_system(&json), Err(DecodeError::NotAnObject));
    assert_eq!(decode_system(&Json::Array(vec![])), Err(DecodeError::NotAnObject));
}

#[test]
fn envelope_needs_type_and_payload() {
    let json = object(vec![("type", text("System")), ("payload", Json::Null), ("id", text("1"))]);
    let message = decode_envelope(&json).unwrap();
    assert_eq!(message.msg_type, "System");
    assert_eq!(message.payload, &Json::Null);

    assert_eq!(decode_envelope(&text("System")), Err(DecodeError::NotAnObject));
    let json = object(vec![("payload", object(vec![]))]);
    assert_eq!(decode_envelope(&json), Err(DecodeError::MissingField));
    let json = object(vec![("type", text("System"))]);
    assert_eq!(decode_envelope(&json), Err(DecodeError::MissingField));
    let json = object(vec![("type", number("1")), ("payload", object(vec![]))]);
    assert_eq!(decode_envelope(&json), Err(DecodeError::WrongType));
    let json = object(vec![("type", Json::Null), ("payload", object(vec![]))]);
    assert_eq!(decode_envelope(&json), Err(DecodeError::WrongType));
}

#[test]
fn decode_errors_say_what_they_are() {
    assert_eq!(DecodeError::NotAnObject.to_string(), "expected an object");
    assert_eq!(DecodeError::MissingField.to_string(), "a required member is missing");
    assert_eq!(DecodeError::WrongType.to_string(), "a member has the wrong type");
    assert_eq!(DecodeError::OutOfRange.to_string(), "a number is out of range");
}

#[test]
fn kinds_are_told_apart_by_name() {
    let payload = Json::Null;
    let cases = [
        ("System", MessageKind::System),
        ("TransportState", MessageKind::TransportState),
        ("CurrentlyPlaying", MessageKind::CurrentlyPlaying),
        ("Position", MessageKind::Position),
        ("Favorites", MessageKind::Unknown),
        ("position", MessageKind::Unknown),
        ("System ", MessageKind::Unknown),
        ("", MessageKind::Unknown),
    ];
    for (name, kind) in cases {
        let msg_type = name.to_string();
        let message = VibinMessage { msg_type: &msg_type, payload: &payload };
        assert_eq!(message.kind(), kind, "{:?}", name);
    }
}

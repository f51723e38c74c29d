//! The shapes of the messages that the feed sends, read off JSON values.
//!
//! Every message is an object. A member that is absent and a member that is
//! `null` both count as "not given". Members that no shape names are ignored.
//! Where several members are wrong, the first in the shape's order is reported.

use vstd::prelude::*;
use crate::json::{Json, JsonValue, lemma_array_view};
use crate::state::{
    ActiveTrack, ActiveTrackView, Amplifier, AmplifierView, Position, Source, SourceView,
    StreamerDisplay, StreamerDisplayView, StreamerSources, StreamerSourcesView, TransportState,
    TransportStateView,
};

verus! {

/// Why a JSON value does not have the shape that was asked of it.
#[derive(Clone, Copy, Debug, PartialEq, Eq, Structural)]
pub enum DecodeError {
    /// An object was expected and something else was found.
    NotAnObject,
    /// A member that must be given is not.
    MissingField,
    /// A member holds a value of the wrong kind.
    WrongType,
    /// A member holds a whole number that `isize` cannot hold.
    OutOfRange,
}

impl DecodeError {
    /// The error in words.
    pub open spec fn description(self) -> Seq<char> {
        match self {
            DecodeError::NotAnObject => "expected an object"@,
            DecodeError::MissingField => "a required member is missing"@,
            DecodeError::WrongType => "a member has the wrong type"@,
            DecodeError::OutOfRange => "a number is out of range"@,
        }
    }

    /// The error in words.
    pub fn to_string(&self) -> (words: String)
        ensures
            words@ == self.description(),
    {
        match self {
            DecodeError::NotAnObject => "expected an object".to_owned(),
            DecodeError::MissingField => "a required member is missing".to_owned(),
            DecodeError::WrongType => "a member has the wrong type".to_owned(),
            DecodeError::OutOfRange => "a number is out of range".to_owned(),
        }
    }
}

// ---------------------------------------------------------------------------
// Whole numbers

/// Whether `c` is one of the ten decimal digits.
pub open spec fn is_digit(c: char) -> bool {
    '0' <= c && c <= '9'
}

/// Whether `text` is made of decimal digits only.
pub open spec fn all_digits(text: Seq<char>) -> bool {
    forall|i: int| 0 <= i < text.len() ==> is_digit(#[trigger] text[i])
}

/// The number that a run of decimal digits denotes; 0 for the empty run.
pub open spec fn digits_value(text: Seq<char>) -> nat
    decreases text.len(),
{
    if text.len() == 0 {
        0
    } else {
        digits_value(text.drop_last()) * 10 + (text.last() as nat - '0' as nat) as nat
    }
}

/// The whole number that `text` denotes: one or more decimal digits, with an
/// optional `-` in front. Any other text denotes none.
pub open spec fn whole_number(text: Seq<char>) -> Option<int> {
    if text.len() > 0 && text[0] == '-' {
        if text.len() > 1 && all_digits(text.skip(1)) {
            Some(-(digits_value(text.skip(1)) as int))
        } else {
            None
        }
    } else if text.len() > 0 && all_digits(text) {
        Some(digits_value(text) as int)
    } else {
        None
    }
}

/// The whole number that `text` denotes, as an `isize`: `WrongType` if the
/// text denotes no whole number, `OutOfRange` if it denotes one that `isize`
/// cannot hold.
pub open spec fn whole_number_in_range(text: Seq<char>) -> Result<isize, DecodeError> {
    match whole_number(text) {
        None => Err(DecodeError::WrongType),
        Some(n) => if isize::MIN <= n <= isize::MAX {
            Ok(n as isize)
        } else {
            Err(DecodeError::OutOfRange)
        },
    }
}

/// Reads the whole number that `text` denotes.
pub fn parse_whole_number(text: &str) -> (number: Result<isize, DecodeError>)
    ensures
        number == whole_number_in_range(text@),
{
    let mut negative = false;
    let mut first = true;
    let mut any_digit = false;
    let mut magnitude: u128 = 0;
    let mut too_large = false;
    let mut malformed = false;
    let cap: u128 = 0x1_0000_0000_0000_0000;
    for c in it: text.chars()
        invariant
            it.seq() == text@,
            cap == 0x1_0000_0000_0000_0000,
            first == (it.index() == 0),
            !malformed ==> {
                let start: int = if negative { 1 } else { 0 };
                let digits = text@.subrange(start, it.index() as int);
                &&& negative == (it.index() > 0 && text@[0] == '-')
                &&& any_digit == (it.index() > start)
                &&& all_digits(digits)
                &&& !too_large ==> magnitude == digits_value(digits) && magnitude <= cap
                &&& too_large ==> digits_value(digits) > cap
            },
            malformed ==> whole_number(text@).is_none(),
    {
        let ghost index = it.index() as int;
        if !malformed {
            if c == '-' && first {
                negative = true;
            } else if '0' <= c && c <= '9' {
                let ghost start: int = if negative { 1 } else { 0 };
                let ghost before = text@.subrange(start, index);
                let ghost after = text@.subrange(start, index + 1);
                assert(after.drop_last() =~= before);
                let digit: u128 = (c as u32 - '0' as u32) as u128;
                if !too_large {
                    let next: u128 = magnitude * 10 + digit;
                    if next > cap {
                        too_large = true;
                    } else {
                        magnitude = next;
                    }
                }
                any_digit = true;
            } else {
                malformed = true;
            }
        }
        first = false;
    }
    if malformed || !any_digit {
        return Err(DecodeError::WrongType);
    }
    proof {
        assert(text@.skip(0) =~= text@);
    }
    if too_large {
        return Err(DecodeError::OutOfRange);
    }
    if negative {
        if magnitude <= isize::MAX as u128 + 1 {
            Ok((-(magnitude as i128)) as isize)
        } else {
            Err(DecodeError::OutOfRange)
        }
    } else {
        if magnitude <= isize::MAX as u128 {
            Ok(magnitude as isize)
        } else {
            Err(DecodeError::OutOfRange)
        }
    }
}

// ---------------------------------------------------------------------------
// Single members

/// Whether `outcome` is what `expected` asks for: the same error, or a value
/// whose view is the expected one.
pub open spec fn agrees<T: DeepView>(
    outcome: Result<T, DecodeError>,
    expected: Result<T::V, DecodeError>,
) -> bool {
    match outcome {
        Ok(value) => expected == Ok::<T::V, DecodeError>(value.deep_view()),
        Err(error) => expected == Err::<T::V, DecodeError>(error),
    }
}

/// A member as far as the shapes care: absent and `null` are the same.
pub open spec fn given(member: Option<JsonValue>) -> Option<JsonValue> {
    match member {
        Some(JsonValue::Null) => None,
        other => other,
    }
}

/// A member that may be left out: nothing if it is not given, else what
/// `read` makes of it.
pub open spec fn optional<T>(
    member: Option<JsonValue>,
    read: spec_fn(JsonValue) -> Result<T, DecodeError>,
) -> Result<Option<T>, DecodeError> {
    match given(member) {
        None => Ok(None),
        Some(value) => match read(value) {
            Ok(v) => Ok(Some(v)),
            Err(e) => Err(e),
        },
    }
}

/// A member that must be there: what `read` makes of it, `null` included.
pub open spec fn required<T>(
    member: Option<JsonValue>,
    read: spec_fn(JsonValue) -> Result<T, DecodeError>,
) -> Result<T, DecodeError> {
    match member {
        None => Err(DecodeError::MissingField),
        Some(value) => read(value),
    }
}

/// A string.
pub open spec fn text_of(value: JsonValue) -> Result<Seq<char>, DecodeError> {
    match value {
        JsonValue::Text(text) => Ok(text),
        _ => Err(DecodeError::WrongType),
    }
}

/// `true` or `false`.
pub open spec fn flag_of(value: JsonValue) -> Result<bool, DecodeError> {
    match value {
        JsonValue::Bool(flag) => Ok(flag),
        _ => Err(DecodeError::WrongType),
    }
}

/// A whole number that `isize` holds.
pub open spec fn whole_of(value: JsonValue) -> Result<isize, DecodeError> {
    match value {
        JsonValue::Number(digits) => whole_number_in_range(digits),
        _ => Err(DecodeError::WrongType),
    }
}

/// Any number, as its text.
pub open spec fn number_of(value: JsonValue) -> Result<Seq<char>, DecodeError> {
    match value {
        JsonValue::Number(digits) => Ok(digits),
        _ => Err(DecodeError::WrongType),
    }
}

/// What `read` makes of each item in turn, up to the first that it refuses.
pub open spec fn each<T>(
    items: Seq<JsonValue>,
    read: spec_fn(JsonValue) -> Result<T, DecodeError>,
) -> Result<Seq<T>, DecodeError>
    decreases items.len(),
{
    if items.len() == 0 {
        Ok(Seq::empty())
    } else {
        match each(items.drop_last(), read) {
            Err(e) => Err(e),
            Ok(front) => match read(items.last()) {
                Err(e) => Err(e),
                Ok(item) => Ok(front.push(item)),
            },
        }
    }
}

/// An array of which `read` accepts every item.
pub open spec fn list_of<T>(
    value: JsonValue,
    read: spec_fn(JsonValue) -> Result<T, DecodeError>,
) -> Result<Seq<T>, DecodeError> {
    match value {
        JsonValue::Array(items) => each(items, read),
        _ => Err(DecodeError::WrongType),
    }
}

/// The member `key` of `json` as a string that may be left out.
pub open spec fn text_member(json: JsonValue, key: Seq<char>) -> Result<
    Option<Seq<char>>,
    DecodeError,
> {
    optional(json.member(key), |v: JsonValue| text_of(v))
}

/// The member `key` of `json` as a truth value that may be left out.
pub open spec fn flag_member(json: JsonValue, key: Seq<char>) -> Result<Option<bool>, DecodeError> {
    optional(json.member(key), |v: JsonValue| flag_of(v))
}

/// The member `key` of `json` as a whole number that may be left out.
pub open spec fn whole_member(json: JsonValue, key: Seq<char>) -> Result<
    Option<isize>,
    DecodeError,
> {
    optional(json.member(key), |v: JsonValue| whole_of(v))
}

/// The member `key` of `json` as a number that may be left out.
pub open spec fn number_member(json: JsonValue, key: Seq<char>) -> Result<
    Option<Seq<char>>,
    DecodeError,
> {
    optional(json.member(key), |v: JsonValue| number_of(v))
}

/// The member `key` of `json`, unless it is absent or `null`.
fn given_member<'a>(json: &'a Json, key: &str) -> (found: Option<&'a Json>)
    ensures
        found.is_some() == given(json@.member(key@)).is_some(),
        found matches Some(value) ==> given(json@.member(key@)) == Some(value@),
{
    match json.member(key) {
        Some(Json::Null) => None,
        other => other,
    }
}

fn read_text(value: &Json) -> (text: Result<String, DecodeError>)
    ensures
        agrees(text, text_of(value@)),
{
    match value {
        Json::Text(text) => Ok(text.clone()),
        _ => Err(DecodeError::WrongType),
    }
}

fn optional_text(json: &Json, key: &str) -> (text: Result<Option<String>, DecodeError>)
    ensures
        agrees(text, text_member(json@, key@)),
{
    match given_member(json, key) {
        None => Ok(None),
        Some(value) => Ok(Some(read_text(value)?)),
    }
}

fn optional_flag(json: &Json, key: &str) -> (flag: Result<Option<bool>, DecodeError>)
    ensures
        flag == flag_member(json@, key@),
{
    match given_member(json, key) {
        None => Ok(None),
        Some(Json::Bool(flag)) => Ok(Some(*flag)),
        Some(_) => Err(DecodeError::WrongType),
    }
}

fn read_whole(value: &Json) -> (number: Result<isize, DecodeError>)
    ensures
        number == whole_of(value@),
{
    match value {
        Json::Number(digits) => parse_whole_number(digits.as_str()),
        _ => Err(DecodeError::WrongType),
    }
}

fn optional_whole(json: &Json, key: &str) -> (number: Result<Option<isize>, DecodeError>)
    ensures
        number == whole_member(json@, key@),
{
    match given_member(json, key) {
        None => Ok(None),
        Some(value) => Ok(Some(read_whole(value)?)),
    }
}

fn optional_number(json: &Json, key: &str) -> (number: Result<Option<String>, DecodeError>)
    ensures
        agrees(number, number_member(json@, key@)),
{
    match given_member(json, key) {
        None => Ok(None),
        Some(Json::Number(digits)) => Ok(Some(digits.clone())),
        Some(_) => Err(DecodeError::WrongType),
    }
}

fn read_texts(value: &Json) -> (texts: Result<Vec<String>, DecodeError>)
    ensures
        agrees(texts, list_of(value@, |v: JsonValue| text_of(v))),
{
    match value {
        Json::Array(items) => {
            let ghost read = |v: JsonValue| text_of(v);
            let ghost all = value@->Array_0;
            let mut texts: Vec<String> = Vec::new();
            let mut i: usize = 0;
            proof {
                lemma_array_view(*items);
                assert(texts.deep_view() =~= Seq::<Seq<char>>::empty());
            }
            while i < items.len()
                invariant
                    i <= items.len(),
                    value@ == JsonValue::Array(all),
                    all.len() == items@.len(),
                    forall|k: int| 0 <= k < items@.len() ==> all[k] == #[trigger] items@[k]@,
                    read == (|v: JsonValue| text_of(v)),
                    each(all.take(i as int), read) == Ok::<Seq<Seq<char>>, DecodeError>(
                        texts.deep_view(),
                    ),
                decreases items.len() - i,
            {
                proof {
                    assert(all.take(i + 1).drop_last() =~= all.take(i as int));
                }
                match read_text(&items[i]) {
                    Ok(text) => {
                        let ghost before = texts.deep_view();
                        texts.push(text);
                        assert(texts.deep_view() =~= before.push(text@));
                    },
                    Err(e) => {
                        proof {
                            lemma_each_fails(all, read, i + 1);
                        }
                        return Err(e);
                    },
                }
                i = i + 1;
            }
            assert(all.take(i as int) =~= all);
            Ok(texts)
        },
        _ => Err(DecodeError::WrongType),
    }
}

/// Once a prefix has been refused, so is the whole, with the same error.
proof fn lemma_each_fails<T>(
    items: Seq<JsonValue>,
    read: spec_fn(JsonValue) -> Result<T, DecodeError>,
    n: int,
)
    requires
        0 <= n <= items.len(),
        each(items.take(n), read) is Err,
    ensures
        each(items, read) == each(items.take(n), read),
    decreases items.len() - n,
{
    if n < items.len() {
        assert(items.take(n + 1).drop_last() =~= items.take(n));
        lemma_each_fails(items, read, n + 1);
    } else {
        assert(items.take(n) =~= items);
    }
}

// ---------------------------------------------------------------------------
// Shapes

/// The display: six strings, each of which may be left out.
pub open spec fn display_of(json: JsonValue) -> Result<StreamerDisplayView, DecodeError> {
    let line1 = text_member(json, "line1"@);
    let line2 = text_member(json, "line2"@);
    let line3 = text_member(json, "line3"@);
    let format = text_member(json, "format"@);
    let playback_source = text_member(json, "playback_source"@);
    let art_url = text_member(json, "art_url"@);
    if !(json is Object) {
        Err(DecodeError::NotAnObject)
    } else if line1 is Err {
        Err(line1->Err_0)
    } else if line2 is Err {
        Err(line2->Err_0)
    } else if line3 is Err {
        Err(line3->Err_0)
    } else if format is Err {
        Err(format->Err_0)
    } else if playback_source is Err {
        Err(playback_source->Err_0)
    } else if art_url is Err {
        Err(art_url->Err_0)
    } else {
        Ok(
            StreamerDisplayView {
                line1: line1->Ok_0,
                line2: line2->Ok_0,
                line3: line3->Ok_0,
                format: format->Ok_0,
                playback_source: playback_source->Ok_0,
                art_url: art_url->Ok_0,
            },
        )
    }
}

/// Reads a display.
pub fn decode_display(json: &Json) -> (display: Result<StreamerDisplay, DecodeError>)
    ensures
        agrees(display, display_of(json@)),
{
    if !json.is_object() {
        return Err(DecodeError::NotAnObject);
    }
    let line1 = optional_text(json, "line1")?;
    let line2 = optional_text(json, "line2")?;
    let line3 = optional_text(json, "line3")?;
    let format = optional_text(json, "format")?;
    let playback_source = optional_text(json, "playback_source")?;
    let art_url = optional_text(json, "art_url")?;
    Ok(StreamerDisplay { line1, line2, line3, format, playback_source, art_url })
}

/// One input of the streamer: nine members, each of which may be left out.
pub open spec fn source_of(json: JsonValue) -> Result<SourceView, DecodeError> {
    let id = text_member(json, "id"@);
    let name = text_member(json, "name"@);
    let default_name = text_member(json, "default_name"@);
    let class = text_member(json, "class"@);
    let nameable = flag_member(json, "nameable"@);
    let ui_selectable = flag_member(json, "ui_selectable"@);
    let description = text_member(json, "description"@);
    let description_locale = text_member(json, "description_locale"@);
    let preferred_order = whole_member(json, "preferred_order"@);
    if !(json is Object) {
        Err(DecodeError::NotAnObject)
    } else if id is Err {
        Err(id->Err_0)
    } else if name is Err {
        Err(name->Err_0)
    } else if default_name is Err {
        Err(default_name->Err_0)
    } else if class is Err {
        Err(class->Err_0)
    } else if nameable is Err {
        Err(nameable->Err_0)
    } else if ui_selectable is Err {
        Err(ui_selectable->Err_0)
    } else if description is Err {
        Err(description->Err_0)
    } else if description_locale is Err {
        Err(description_locale->Err_0)
    } else if preferred_order is Err {
        Err(preferred_order->Err_0)
    } else {
        Ok(
            SourceView {
                id: id->Ok_0,
                name: name->Ok_0,
                default_name: default_name->Ok_0,
                class: class->Ok_0,
                nameable: nameable->Ok_0,
                ui_selectable: ui_selectable->Ok_0,
                description: description->Ok_0,
                description_locale: description_locale->Ok_0,
                preferred_order: preferred_order->Ok_0,
            },
        )
    }
}

/// Reads one input of the streamer.
pub fn decode_source(json: &Json) -> (source: Result<Source, DecodeError>)
    ensures
        agrees(source, source_of(json@)),
{
    if !json.is_object() {
        return Err(DecodeError::NotAnObject);
    }
    let id = optional_text(json, "id")?;
    let name = optional_text(json, "name")?;
    let default_name = optional_text(json, "default_name")?;
    let class = optional_text(json, "class")?;
    let nameable = optional_flag(json, "nameable")?;
    let ui_selectable = optional_flag(json, "ui_selectable")?;
    let description = optional_text(json, "description")?;
    let description_locale = optional_text(json, "description_locale")?;
    let preferred_order = optional_whole(json, "preferred_order")?;
    Ok(
        Source {
            id,
            name,
            default_name,
            class,
            nameable,
            ui_selectable,
            description,
            description_locale,
            preferred_order,
        },
    )
}

fn read_sources(value: &Json) -> (sources: Result<Vec<Source>, DecodeError>)
    ensures
        agrees(sources, list_of(value@, |v: JsonValue| source_of(v))),
{
    match value {
        Json::Array(items) => {
            let ghost read = |v: JsonValue| source_of(v);
            let ghost all = value@->Array_0;
            let mut sources: Vec<Source> = Vec::new();
            let mut i: usize = 0;
            proof {
                lemma_array_view(*items);
                assert(sources.deep_view() =~= Seq::<SourceView>::empty());
            }
            while i < items.len()
                invariant
                    i <= items.len(),
                    value@ == JsonValue::Array(all),
                    all.len() == items@.len(),
                    forall|k: int| 0 <= k < items@.len() ==> all[k] == #[trigger] items@[k]@,
                    read == (|v: JsonValue| source_of(v)),
                    each(all.take(i as int), read) == Ok::<Seq<SourceView>, DecodeError>(
                        sources.deep_view(),
                    ),
                decreases items.len() - i,
            {
                proof {
                    assert(all.take(i + 1).drop_last() =~= all.take(i as int));
                }
                match decode_source(&items[i]) {
                    Ok(source) => {
                        let ghost before = sources.deep_view();
                        sources.push(source);
                        assert(sources.deep_view() =~= before.push(source@));
                    },
                    Err(e) => {
                        proof {
                            lemma_each_fails(all, read, i + 1);
                        }
                        return Err(e);
                    },
                }
                i = i + 1;
            }
            assert(all.take(i as int) =~= all);
            Ok(sources)
        },
        _ => Err(DecodeError::WrongType),
    }
}

/// The inputs of the streamer: the one in use and the list of all, both of
/// which must be given.
pub open spec fn sources_of(json: JsonValue) -> Result<StreamerSourcesView, DecodeError> {
    let active = required(json.member("active"@), |v: JsonValue| source_of(v));
    let available = required(
        json.member("available"@),
        |v: JsonValue| list_of(v, |s: JsonValue| source_of(s)),
    );
    if !(json is Object) {
        Err(DecodeError::NotAnObject)
    } else if active is Err {
        Err(active->Err_0)
    } else if available is Err {
        Err(available->Err_0)
    } else {
        Ok(StreamerSourcesView { active: active->Ok_0, available: available->Ok_0 })
    }
}

/// Reads the inputs of the streamer.
pub fn decode_sources(json: &Json) -> (sources: Result<StreamerSources, DecodeError>)
    ensures
        agrees(sources, sources_of(json@)),
{
    if !json.is_object() {
        return Err(DecodeError::NotAnObject);
    }
    let active = match json.member("active") {
        None => { return Err(DecodeError::MissingField); },
        Some(value) => decode_source(value)?,
    };
    let available = match json.member("available") {
        None => { return Err(DecodeError::MissingField); },
        Some(value) => read_sources(value)?,
    };
    Ok(StreamerSources { active, available })
}

/// The amplifier: a mute state and a volume, each of which may be left out.
pub open spec fn amplifier_of(json: JsonValue) -> Result<AmplifierView, DecodeError> {
    let mute = text_member(json, "mute"@);
    let volume = number_member(json, "volume"@);
    if !(json is Object) {
        Err(DecodeError::NotAnObject)
    } else if mute is Err {
        Err(mute->Err_0)
    } else if volume is Err {
        Err(volume->Err_0)
    } else {
        Ok(AmplifierView { mute: mute->Ok_0, volume: volume->Ok_0 })
    }
}

/// Reads the amplifier.
pub fn decode_amplifier(json: &Json) -> (amplifier: Result<Amplifier, DecodeError>)
    ensures
        agrees(amplifier, amplifier_of(json@)),
{
    if !json.is_object() {
        return Err(DecodeError::NotAnObject);
    }
    let mute = optional_text(json, "mute")?;
    let volume = optional_number(json, "volume")?;
    Ok(Amplifier { mute, volume })
}

/// The transport: the list of active controls must be given, the rest may
/// be left out.
pub open spec fn transport_of(json: JsonValue) -> Result<TransportStateView, DecodeError> {
    let play_state = text_member(json, "play_state"@);
    let active_controls = required(
        json.member("active_controls"@),
        |v: JsonValue| list_of(v, |c: JsonValue| text_of(c)),
    );
    let repeat = text_member(json, "repeat"@);
    let shuffle = text_member(json, "shuffle"@);
    if !(json is Object) {
        Err(DecodeError::NotAnObject)
    } else if play_state is Err {
        Err(play_state->Err_0)
    } else if active_controls is Err {
        Err(active_controls->Err_0)
    } else if repeat is Err {
        Err(repeat->Err_0)
    } else if shuffle is Err {
        Err(shuffle->Err_0)
    } else {
        Ok(
            TransportStateView {
                play_state: play_state->Ok_0,
                active_controls: active_controls->Ok_0,
                repeat: repeat->Ok_0,
                shuffle: shuffle->Ok_0,
            },
        )
    }
}

/// Reads the transport.
pub fn decode_transport(json: &Json) -> (transport: Result<TransportState, DecodeError>)
    ensures
        agrees(transport, transport_of(json@)),
{
    if !json.is_object() {
        return Err(DecodeError::NotAnObject);
    }
    let play_state = optional_text(json, "play_state")?;
    let active_controls = match json.member("active_controls") {
        None => { return Err(DecodeError::MissingField); },
        Some(value) => read_texts(value)?,
    };
    let repeat = optional_text(json, "repeat")?;
    let shuffle = optional_text(json, "shuffle")?;
    Ok(TransportState { play_state, active_controls, repeat, shuffle })
}

/// A track: four strings and a duration, each of which may be left out.
pub open spec fn track_of(json: JsonValue) -> Result<ActiveTrackView, DecodeError> {
    let title = text_member(json, "title"@);
    let artist = text_member(json, "artist"@);
    let album = text_member(json, "album"@);
    let art_url = text_member(json, "art_url"@);
    let duration = whole_member(json, "duration"@);
    if !(json is Object) {
        Err(DecodeError::NotAnObject)
    } else if title is Err {
        Err(title->Err_0)
    } else if artist is Err {
        Err(artist->Err_0)
    } else if album is Err {
        Err(album->Err_0)
    } else if art_url is Err {
        Err(art_url->Err_0)
    } else if duration is Err {
        Err(duration->Err_0)
    } else {
        Ok(
            ActiveTrackView {
                title: title->Ok_0,
                artist: artist->Ok_0,
                album: album->Ok_0,
                art_url: art_url->Ok_0,
                duration: duration->Ok_0,
            },
        )
    }
}

/// Reads a track.
pub fn decode_track(json: &Json) -> (track: Result<ActiveTrack, DecodeError>)
    ensures
        agrees(track, track_of(json@)),
{
    if !json.is_object() {
        return Err(DecodeError::NotAnObject);
    }
    let title = optional_text(json, "title")?;
    let artist = optional_text(json, "artist")?;
    let album = optional_text(json, "album")?;
    let art_url = optional_text(json, "art_url")?;
    let duration = optional_whole(json, "duration")?;
    Ok(ActiveTrack { title, artist, album, art_url, duration })
}

// ---------------------------------------------------------------------------
// Messages

/// What a `System` message carries. The display and the inputs sit inside the
/// message's `streamer` member.
#[derive(Clone, Debug, PartialEq, Eq)]
pub struct SystemPayload {
    pub power: Option<String>,
    pub sources: Option<StreamerSources>,
    pub display: Option<StreamerDisplay>,
    pub amplifier: Option<Amplifier>,
}

/// The view of a [`SystemPayload`].
pub struct SystemPayloadView {
    pub power: Option<Seq<char>>,
    pub sources: Option<StreamerSourcesView>,
    pub display: Option<StreamerDisplayView>,
    pub amplifier: Option<AmplifierView>,
}

impl View for SystemPayload {
    type V = SystemPayloadView;

    open spec fn view(&self) -> SystemPayloadView {
        SystemPayloadView {
            power: self.power.deep_view(),
            sources: self.sources.deep_view(),
            display: self.display.deep_view(),
            amplifier: self.amplifier.deep_view(),
        }
    }
}

impl DeepView for SystemPayload {
    type V = SystemPayloadView;

    open spec fn deep_view(&self) -> SystemPayloadView {
        self@
    }
}

/// The member `key` of the `streamer` member of `json`, which may be left
/// out, as may `streamer` itself.
pub open spec fn streamer_member<T>(
    json: JsonValue,
    key: Seq<char>,
    read: spec_fn(JsonValue) -> Result<T, DecodeError>,
) -> Result<Option<T>, DecodeError> {
    match given(json.member("streamer"@)) {
        None => Ok(None),
        Some(streamer) => if streamer is Object {
            optional(streamer.member(key), read)
        } else {
            Err(DecodeError::NotAnObject)
        },
    }
}

/// A `System` message: every member may be left out.
pub open spec fn system_of(json: JsonValue) -> Result<SystemPayloadView, DecodeError> {
    let power = text_member(json, "power"@);
    let sources = streamer_member(json, "sources"@, |v: JsonValue| sources_of(v));
    let display = streamer_member(json, "display"@, |v: JsonValue| display_of(v));
    let amplifier = optional(json.member("amplifier"@), |v: JsonValue| amplifier_of(v));
    if !(json is Object) {
        Err(DecodeError::NotAnObject)
    } else if power is Err {
        Err(power->Err_0)
    } else if sources is Err {
        Err(sources->Err_0)
    } else if display is Err {
        Err(display->Err_0)
    } else if amplifier is Err {
        Err(amplifier->Err_0)
    } else {
        Ok(
            SystemPayloadView {
                power: power->Ok_0,
                sources: sources->Ok_0,
                display: display->Ok_0,
                amplifier: amplifier->Ok_0,
            },
        )
    }
}

/// Reads a `System` message.
pub fn decode_system(json: &Json) -> (payload: Result<SystemPayload, DecodeError>)
    ensures
        agrees(payload, system_of(json@)),
{
    if !json.is_object() {
        return Err(DecodeError::NotAnObject);
    }
    let power = optional_text(json, "power")?;
    let streamer = given_member(json, "streamer");
    if let Some(inner) = streamer {
        if !inner.is_object() {
            return Err(DecodeError::NotAnObject);
        }
    }
    let sources = match streamer {
        None => None,
        Some(inner) => match given_member(inner, "sources") {
            None => None,
            Some(value) => Some(decode_sources(value)?),
        },
    };
    let display = match streamer {
        None => None,
        Some(inner) => match given_member(inner, "display") {
            None => None,
            Some(value) => Some(decode_display(value)?),
        },
    };
    let amplifier = match given_member(json, "amplifier") {
        None => None,
        Some(value) => Some(decode_amplifier(value)?),
    };
    Ok(SystemPayload { power, sources, display, amplifier })
}

/// A `CurrentlyPlaying` message: the track must be given; whatever else the
/// message holds is not looked at.
pub open spec fn playing_of(json: JsonValue) -> Result<ActiveTrackView, DecodeError> {
    if !(json is Object) {
        Err(DecodeError::NotAnObject)
    } else {
        required(json.member("active_track"@), |v: JsonValue| track_of(v))
    }
}

/// Reads a `CurrentlyPlaying` message.
pub fn decode_playing(json: &Json) -> (track: Result<ActiveTrack, DecodeError>)
    ensures
        agrees(track, playing_of(json@)),
{
    if !json.is_object() {
        return Err(DecodeError::NotAnObject);
    }
    match json.member("active_track") {
        None => Err(DecodeError::MissingField),
        Some(value) => decode_track(value),
    }
}

/// A `Position` message: the position must be given.
pub open spec fn position_of(json: JsonValue) -> Result<Position, DecodeError> {
    if !(json is Object) {
        Err(DecodeError::NotAnObject)
    } else {
        match required(json.member("position"@), |v: JsonValue| whole_of(v)) {
            Ok(position) => Ok(Position { position }),
            Err(e) => Err(e),
        }
    }
}

/// Reads a `Position` message.
pub fn decode_position(json: &Json) -> (position: Result<Position, DecodeError>)
    ensures
        position == position_of(json@),
{
    if !json.is_object() {
        return Err(DecodeError::NotAnObject);
    }
    match json.member("position") {
        None => Err(DecodeError::MissingField),
        Some(value) => Ok(Position { position: read_whole(value)? }),
    }
}

/// The kinds of message that the feed sends.
#[derive(Clone, Copy, Debug, PartialEq, Eq, Structural)]
pub enum MessageKind {
    System,
    TransportState,
    CurrentlyPlaying,
    Position,
    /// Any kind that this library does not know.
    Unknown,
}

/// The kind that a message of type `msg_type` is of.
pub open spec fn kind_of(msg_type: Seq<char>) -> MessageKind {
    if msg_type == "System"@ {
        MessageKind::System
    } else if msg_type == "TransportState"@ {
        MessageKind::TransportState
    } else if msg_type == "CurrentlyPlaying"@ {
        MessageKind::CurrentlyPlaying
    } else if msg_type == "Position"@ {
        MessageKind::Position
    } else {
        MessageKind::Unknown
    }
}

/// A message as it arrives: its type by name, and a payload whose shape
/// depends on the type.
#[derive(Debug, PartialEq, Eq)]
pub struct VibinMessage<'a> {
    pub msg_type: &'a String,
    pub payload: &'a Json,
}

impl<'a> VibinMessage<'a> {
    /// The kind of the message.
    pub fn kind(&self) -> (kind: MessageKind)
        ensures
            kind == kind_of(self.msg_type@),
    {
        if *self.msg_type == "System".to_owned() {
            MessageKind::System
        } else if *self.msg_type == "TransportState".to_owned() {
            MessageKind::TransportState
        } else if *self.msg_type == "CurrentlyPlaying".to_owned() {
            MessageKind::CurrentlyPlaying
        } else if *self.msg_type == "Position".to_owned() {
            MessageKind::Position
        } else {
            MessageKind::Unknown
        }
    }
}

/// The envelope of every message: a `type`, which is a string, and a
/// `payload`, which is any value; both must be given.
pub open spec fn envelope_of(json: JsonValue) -> Result<(Seq<char>, JsonValue), DecodeError> {
    let msg_type = required(json.member("type"@), |v: JsonValue| text_of(v));
    if !(json is Object) {
        Err(DecodeError::NotAnObject)
    } else if msg_type is Err {
        Err(msg_type->Err_0)
    } else {
        match json.member("payload"@) {
            None => Err(DecodeError::MissingField),
            Some(payload) => Ok((msg_type->Ok_0, payload)),
        }
    }
}

/// Reads the envelope of a message.
pub fn decode_envelope<'a>(json: &'a Json) -> (message: Result<VibinMessage<'a>, DecodeError>)
    ensures
        match message {
            Ok(m) => envelope_of(json@) == Ok::<(Seq<char>, JsonValue), DecodeError>(
                (m.msg_type@, m.payload@),
            ),
            Err(e) => envelope_of(json@) == Err::<(Seq<char>, JsonValue), DecodeError>(e),
        },
{
    if !json.is_object() {
        return Err(DecodeError::NotAnObject);
    }
    let msg_type = match json.member("type") {
        None => { return Err(DecodeError::MissingField); },
        Some(Json::Text(text)) => text,
        Some(_) => { return Err(DecodeError::WrongType); },
    };
    match json.member("payload") {
        None => Err(DecodeError::MissingField),
        Some(payload) => Ok(VibinMessage { msg_type, payload }),
    }
}

} // verus!

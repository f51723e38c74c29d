//! What is published to observers: the connection lifecycle, the aggregated
//! player state, and the names of the channels they travel on.
//!
//! Every type has a view (`@`) that replaces strings by `Seq<char>` and vectors
//! by `Seq`, so that contracts can speak of contents rather than allocations.

use vstd::prelude::*;

verus! {

// ---------------------------------------------------------------------------
// Channels

/// The four channels on which observers are notified.
#[derive(Clone, Copy, Debug, PartialEq, Eq, Structural)]
pub enum WeeVibinMessage {
    AppState,
    VibinState,
    Position,
    Error,
}

impl WeeVibinMessage {
    /// The channel's name as a sequence of characters.
    pub open spec fn name(self) -> Seq<char> {
        match self {
            WeeVibinMessage::AppState => "AppState"@,
            WeeVibinMessage::VibinState => "VibinState"@,
            WeeVibinMessage::Position => "Position"@,
            WeeVibinMessage::Error => "Error"@,
        }
    }

    /// The channel's name: the variant's own name.
    pub fn to_string(&self) -> (name: String)
        ensures
            name@ == self.name(),
    {
        match self {
            WeeVibinMessage::AppState => "AppState".to_owned(),
            WeeVibinMessage::VibinState => "VibinState".to_owned(),
            WeeVibinMessage::Position => "Position".to_owned(),
            WeeVibinMessage::Error => "Error".to_owned(),
        }
    }
}

// ---------------------------------------------------------------------------
// Connection lifecycle

/// Where the single logical connection stands. Exactly one variant holds at
/// any instant, and whether a start or a stop is admissible is read off it.
#[derive(Clone, Debug, PartialEq, Eq)]
pub enum VibinConnectionState {
    /// A handshake succeeded; the string is the configured endpoint.
    Connected(String),
    /// A handshake is under way; the string is the configured endpoint.
    Connecting(String),
    /// No connection; the string, if any, says why the last one ended.
    Disconnected(Option<String>),
    /// A stop was requested and the connection has not wound down yet.
    Disconnecting,
}

/// The view of a [`VibinConnectionState`].
pub enum Lifecycle {
    Connected(Seq<char>),
    Connecting(Seq<char>),
    Disconnected(Option<Seq<char>>),
    Disconnecting,
}

impl Lifecycle {
    /// The value of the `state` field when the lifecycle is published.
    pub open spec fn state_name(self) -> Seq<char> {
        match self {
            Lifecycle::Connected(_) => "Connected"@,
            Lifecycle::Connecting(_) => "Connecting"@,
            Lifecycle::Disconnected(_) => "Disconnected"@,
            Lifecycle::Disconnecting => "Disconnecting"@,
        }
    }

    /// The value of the `message` field when the lifecycle is published;
    /// `None` stands for an absent (null) message.
    pub open spec fn message(self) -> Option<Seq<char>> {
        match self {
            Lifecycle::Connected(target) => Some(target),
            Lifecycle::Connecting(target) => Some(target),
            Lifecycle::Disconnected(reason) => reason,
            Lifecycle::Disconnecting => Some(Seq::empty()),
        }
    }
}

impl View for VibinConnectionState {
    type V = Lifecycle;

    open spec fn view(&self) -> Lifecycle {
        match self {
            VibinConnectionState::Connected(target) => Lifecycle::Connected(target@),
            VibinConnectionState::Connecting(target) => Lifecycle::Connecting(target@),
            VibinConnectionState::Disconnected(reason) => Lifecycle::Disconnected(
                reason.deep_view(),
            ),
            VibinConnectionState::Disconnecting => Lifecycle::Disconnecting,
        }
    }
}

impl VibinConnectionState {
    /// The `state` field of the published form: the variant's name.
    pub fn state_name(&self) -> (name: String)
        ensures
            name@ == self@.state_name(),
    {
        match self {
            VibinConnectionState::Connected(_) => "Connected".to_owned(),
            VibinConnectionState::Connecting(_) => "Connecting".to_owned(),
            VibinConnectionState::Disconnected(_) => "Disconnected".to_owned(),
            VibinConnectionState::Disconnecting => "Disconnecting".to_owned(),
        }
    }

    /// The `message` field of the published form: the endpoint while
    /// connecting or connected, the reason once disconnected (absent if there
    /// is none), and the empty string while disconnecting.
    pub fn message(&self) -> (message: Option<String>)
        ensures
            message.deep_view() == self@.message(),
    {
        match self {
            VibinConnectionState::Connected(target) => Some(target.clone()),
            VibinConnectionState::Connecting(target) => Some(target.clone()),
            VibinConnectionState::Disconnected(reason) => match reason {
                Some(text) => Some(text.clone()),
                None => None,
            },
            VibinConnectionState::Disconnecting => Some(String::new()),
        }
    }

    /// Whether this is `Disconnected`, with or without a reason.
    pub fn is_disconnected(&self) -> (b: bool)
        ensures
            b == (self@ is Disconnected),
    {
        match self {
            VibinConnectionState::Disconnected(_) => true,
            _ => false,
        }
    }

    /// Whether this is `Connected`.
    pub fn is_connected(&self) -> (b: bool)
        ensures
            b == (self@ is Connected),
    {
        match self {
            VibinConnectionState::Connected(_) => true,
            _ => false,
        }
    }
}

/// The application state that observers see: the connection lifecycle.
#[derive(Clone, Debug, PartialEq, Eq)]
pub struct AppState {
    pub vibin_connection: VibinConnectionState,
}

impl View for AppState {
    type V = Lifecycle;

    open spec fn view(&self) -> Lifecycle {
        self.vibin_connection@
    }
}

impl AppState {
    /// A fresh application state: disconnected, with no reason.
    pub fn new() -> (state: AppState)
        ensures
            state@ == Lifecycle::Disconnected(None),
    {
        AppState { vibin_connection: VibinConnectionState::Disconnected(None) }
    }

    /// Moves the lifecycle to `Disconnected` with the given reason, whatever
    /// it was before.
    pub fn set_disconnected(&mut self, message: Option<String>)
        ensures
            final(self)@ == Lifecycle::Disconnected(message.deep_view()),
    {
        self.vibin_connection = VibinConnectionState::Disconnected(message);
    }
}

// ---------------------------------------------------------------------------
// Player state

/// What the streamer shows on its display.
#[derive(Clone, Debug, PartialEq, Eq)]
pub struct StreamerDisplay {
    pub line1: Option<String>,
    pub line2: Option<String>,
    pub line3: Option<String>,
    pub format: Option<String>,
    pub playback_source: Option<String>,
    pub art_url: Option<String>,
}

/// The view of a [`StreamerDisplay`].
pub struct StreamerDisplayView {
    pub line1: Option<Seq<char>>,
    pub line2: Option<Seq<char>>,
    pub line3: Option<Seq<char>>,
    pub format: Option<Seq<char>>,
    pub playback_source: Option<Seq<char>>,
    pub art_url: Option<Seq<char>>,
}

impl View for StreamerDisplay {
    type V = StreamerDisplayView;

    open spec fn view(&self) -> StreamerDisplayView {
        StreamerDisplayView {
            line1: self.line1.deep_view(),
            line2: self.line2.deep_view(),
            line3: self.line3.deep_view(),
            format: self.format.deep_view(),
            playback_source: self.playback_source.deep_view(),
            art_url: self.art_url.deep_view(),
        }
    }
}

impl DeepView for StreamerDisplay {
    type V = StreamerDisplayView;

    open spec fn deep_view(&self) -> StreamerDisplayView {
        self@
    }
}

impl StreamerDisplayView {
    /// A display on which nothing is shown.
    pub open spec fn blank() -> StreamerDisplayView {
        StreamerDisplayView {
            line1: None,
            line2: None,
            line3: None,
            format: None,
            playback_source: None,
            art_url: None,
        }
    }
}

/// One input of the streamer.
#[derive(Clone, Debug, PartialEq, Eq)]
pub struct Source {
    pub id: Option<String>,
    pub name: Option<String>,
    pub default_name: Option<String>,
    pub class: Option<String>,
    pub nameable: Option<bool>,
    pub ui_selectable: Option<bool>,
    pub description: Option<String>,
    pub description_locale: Option<String>,
    pub preferred_order: Option<isize>,
}

/// The view of a [`Source`].
pub struct SourceView {
    pub id: Option<Seq<char>>,
    pub name: Option<Seq<char>>,
    pub default_name: Option<Seq<char>>,
    pub class: Option<Seq<char>>,
    pub nameable: Option<bool>,
    pub ui_selectable: Option<bool>,
    pub description: Option<Seq<char>>,
    pub description_locale: Option<Seq<char>>,
    pub preferred_order: Option<isize>,
}

impl View for Source {
    type V = SourceView;

    open spec fn view(&self) -> SourceView {
        SourceView {
            id: self.id.deep_view(),
            name: self.name.deep_view(),
            default_name: self.default_name.deep_view(),
            class: self.class.deep_view(),
            nameable: self.nameable,
            ui_selectable: self.ui_selectable,
            description: self.description.deep_view(),
            description_locale: self.description_locale.deep_view(),
            preferred_order: self.preferred_order,
        }
    }
}

impl DeepView for Source {
    type V = SourceView;

    open spec fn deep_view(&self) -> SourceView {
        self@
    }
}

/// The inputs of the streamer: the one in use and all that can be chosen.
#[derive(Clone, Debug, PartialEq, Eq)]
pub struct StreamerSources {
    pub active: Source,
    pub available: Vec<Source>,
}

/// The view of a [`StreamerSources`].
pub struct StreamerSourcesView {
    pub active: SourceView,
    pub available: Seq<SourceView>,
}

impl View for StreamerSources {
    type V = StreamerSourcesView;

    open spec fn view(&self) -> StreamerSourcesView {
        StreamerSourcesView { active: self.active@, available: self.available.deep_view() }
    }
}

impl DeepView for StreamerSources {
    type V = StreamerSourcesView;

    open spec fn deep_view(&self) -> StreamerSourcesView {
        self@
    }
}

/// The amplifier's mute state and volume. The volume is kept as the decimal
/// text of the number that was received; this library never computes with it.
#[derive(Clone, Debug, PartialEq, Eq)]
pub struct Amplifier {
    pub mute: Option<String>,
    pub volume: Option<String>,
}

/// The view of an [`Amplifier`].
pub struct AmplifierView {
    pub mute: Option<Seq<char>>,
    pub volume: Option<Seq<char>>,
}

impl View for Amplifier {
    type V = AmplifierView;

    open spec fn view(&self) -> AmplifierView {
        AmplifierView { mute: self.mute.deep_view(), volume: self.volume.deep_view() }
    }
}

impl DeepView for Amplifier {
    type V = AmplifierView;

    open spec fn deep_view(&self) -> AmplifierView {
        self@
    }
}

/// What the transport is doing and which controls it offers.
#[derive(Clone, Debug, PartialEq, Eq)]
pub struct TransportState {
    pub play_state: Option<String>,
    pub active_controls: Vec<String>,
    pub repeat: Option<String>,
    pub shuffle: Option<String>,
}

/// The view of a [`TransportState`].
pub struct TransportStateView {
    pub play_state: Option<Seq<char>>,
    pub active_controls: Seq<Seq<char>>,
    pub repeat: Option<Seq<char>>,
    pub shuffle: Option<Seq<char>>,
}

impl View for TransportState {
    type V = TransportStateView;

    open spec fn view(&self) -> TransportStateView {
        TransportStateView {
            play_state: self.play_state.deep_view(),
            active_controls: self.active_controls.deep_view(),
            repeat: self.repeat.deep_view(),
            shuffle: self.shuffle.deep_view(),
        }
    }
}

impl DeepView for TransportState {
    type V = TransportStateView;

    open spec fn deep_view(&self) -> TransportStateView {
        self@
    }
}

/// The track that is playing.
#[derive(Clone, Debug, PartialEq, Eq)]
pub struct ActiveTrack {
    pub title: Option<String>,
    pub artist: Option<String>,
    pub album: Option<String>,
    pub art_url: Option<String>,
    pub duration: Option<isize>,
}

/// The view of an [`ActiveTrack`].
pub struct ActiveTrackView {
    pub title: Option<Seq<char>>,
    pub artist: Option<Seq<char>>,
    pub album: Option<Seq<char>>,
    pub art_url: Option<Seq<char>>,
    pub duration: Option<isize>,
}

impl View for ActiveTrack {
    type V = ActiveTrackView;

    open spec fn view(&self) -> ActiveTrackView {
        ActiveTrackView {
            title: self.title.deep_view(),
            artist: self.artist.deep_view(),
            album: self.album.deep_view(),
            art_url: self.art_url.deep_view(),
            duration: self.duration,
        }
    }
}

impl DeepView for ActiveTrack {
    type V = ActiveTrackView;

    open spec fn deep_view(&self) -> ActiveTrackView {
        self@
    }
}

/// Everything known of the player, gathered from the frames received so far.
/// Each part is filled by the kind of frame that carries it and left alone by
/// all others.
#[derive(Clone, Debug, PartialEq, Eq)]
pub struct VibinState {
    pub power: Option<String>,
    pub streamer_power: Option<String>,
    pub amplifier: Option<Amplifier>,
    pub display: StreamerDisplay,
    pub transport: Option<TransportState>,
    pub source: Option<Source>,
    pub active_track: Option<ActiveTrack>,
}

/// The view of a [`VibinState`].
pub struct VibinStateView {
    pub power: Option<Seq<char>>,
    pub streamer_power: Option<Seq<char>>,
    pub amplifier: Option<AmplifierView>,
    pub display: StreamerDisplayView,
    pub transport: Option<TransportStateView>,
    pub source: Option<SourceView>,
    pub active_track: Option<ActiveTrackView>,
}

impl View for VibinState {
    type V = VibinStateView;

    open spec fn view(&self) -> VibinStateView {
        VibinStateView {
            power: self.power.deep_view(),
            streamer_power: self.streamer_power.deep_view(),
            amplifier: self.amplifier.deep_view(),
            display: self.display@,
            transport: self.transport.deep_view(),
            source: self.source.deep_view(),
            active_track: self.active_track.deep_view(),
        }
    }
}

impl VibinStateView {
    /// The state before any frame has arrived: both power fields `"off"`,
    /// a blank display, nothing else known.
    pub open spec fn initial() -> VibinStateView {
        VibinStateView {
            power: Some("off"@),
            streamer_power: Some("off"@),
            amplifier: None,
            display: StreamerDisplayView::blank(),
            transport: None,
            source: None,
            active_track: None,
        }
    }
}

impl VibinState {
    /// The state before any frame has arrived.
    pub fn new() -> (state: VibinState)
        ensures
            state@ == VibinStateView::initial(),
    {
        VibinState {
            power: Some("off".to_owned()),
            streamer_power: Some("off".to_owned()),
            amplifier: None,
            display: StreamerDisplay {
                line1: None,
                line2: None,
                line3: None,
                format: None,
                playback_source: None,
                art_url: None,
            },
            transport: None,
            source: None,
            active_track: None,
        }
    }
}

// ---------------------------------------------------------------------------
// Position

/// The playhead, in whole seconds. It is published on its own channel each
/// time it arrives and is never part of [`VibinState`].
#[derive(Clone, Copy, Debug, PartialEq, Eq, Structural)]
pub struct Position {
    pub position: isize,
}

} // verus!

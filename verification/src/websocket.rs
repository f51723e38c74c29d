//! The connection manager: one logical connection to the feed, from the
//! request to start it to the decision to retry or give up.
//!
//! Nothing here touches a socket, a clock or a lock. Each function takes the
//! state it decides on and what has just happened, changes the state, and
//! says what is to be published and what is to be done next. The caller does
//! the waiting: for the handshake, for the next frame or tick, before a
//! retry, and between two looks at a connection that was asked to stop.

use vstd::prelude::*;
use crate::endpoint::{parse_url, parsed_url};
use crate::events::{
    error_report, no_event, one_event, report, two_events, websocket_error, AppError, Event,
    EventView,
};
use crate::json::parsed_json;
use crate::dispatch::text_outcome;
use crate::liveness::{
    gaps_after_keepalive, silence_exceeds, Timestamp, Watchdog, PING_WINDOW,
};
use crate::state::{AppState, Lifecycle, VibinConnectionState, VibinState, VibinStateView};
use crate::text::{debug_form, debug_quoted, joined, strip_escaped_quotes, without_escaped_quotes};

verus! {

/// How long a handshake may take, in seconds.
pub const CONNECT_TIMEOUT_SECS: u64 = 5;

/// The time between two ticks of an open connection, in seconds.
pub const TICK_SECS: u64 = 2;

/// The time between the end of an attempt and the next one, in seconds.
pub const RETRY_DELAY_SECS: u64 = 5;

/// The time between two looks at a connection that was asked to stop, in
/// milliseconds.
pub const STOP_POLL_MILLIS: u64 = 100;

// ---------------------------------------------------------------------------
// What happens to a connection

/// An error of the socket, in the words of whoever met it.
#[derive(Clone, Debug, PartialEq, Eq)]
pub enum SocketError {
    /// The operating system refused or broke the connection.
    Io(String),
    /// Anything else: the protocol, the handshake, the encoding.
    Other(String),
}

/// The view of a [`SocketError`].
pub enum SocketErrorView {
    Io(Seq<char>),
    Other(Seq<char>),
}

impl View for SocketError {
    type V = SocketErrorView;

    open spec fn view(&self) -> SocketErrorView {
        match self {
            SocketError::Io(text) => SocketErrorView::Io(text@),
            SocketError::Other(text) => SocketErrorView::Other(text@),
        }
    }
}

impl DeepView for SocketError {
    type V = SocketErrorView;

    open spec fn deep_view(&self) -> SocketErrorView {
        self@
    }
}

/// How a handshake ended.
#[derive(Clone, Debug, PartialEq, Eq)]
pub enum Handshake {
    /// The socket is open.
    Connected,
    /// The handshake failed. For [`SocketError::Io`] the text is the error
    /// as it displays; for [`SocketError::Other`] it is its `Debug` form.
    Failed(SocketError),
    /// Nothing came of it within [`CONNECT_TIMEOUT_SECS`].
    TimedOut,
}

/// The view of a [`Handshake`].
pub enum HandshakeView {
    Connected,
    Failed(SocketErrorView),
    TimedOut,
}

impl View for Handshake {
    type V = HandshakeView;

    open spec fn view(&self) -> HandshakeView {
        match self {
            Handshake::Connected => HandshakeView::Connected,
            Handshake::Failed(error) => HandshakeView::Failed(error@),
            Handshake::TimedOut => HandshakeView::TimedOut,
        }
    }
}

/// What came off the socket.
#[derive(Clone, Debug, PartialEq, Eq)]
pub enum Frame {
    /// The peer's keepalive.
    Ping,
    /// The peer closes the connection.
    Close,
    /// A text, which should hold a message.
    Text(String),
    /// A frame of any other kind.
    Other,
}

/// The view of a [`Frame`].
pub enum FrameView {
    Ping,
    Close,
    Text(Seq<char>),
    Other,
}

impl View for Frame {
    type V = FrameView;

    open spec fn view(&self) -> FrameView {
        match self {
            Frame::Ping => FrameView::Ping,
            Frame::Close => FrameView::Close,
            Frame::Text(text) => FrameView::Text(text@),
            Frame::Other => FrameView::Other,
        }
    }
}

/// Why an attempt failed.
#[derive(Clone, Debug, PartialEq, Eq)]
pub enum VibinWebSocketError {
    /// Reading from the open socket failed; the texts are `Debug` forms.
    WebSocketError(SocketError),
    /// The connection could not be made; the message says why.
    CustomError(String),
    /// The peer went quiet without closing.
    ClientLostConnectionError,
    /// The peer closed the connection.
    ServerClosedConnectionError,
}

/// The view of a [`VibinWebSocketError`].
pub enum FailureView {
    WebSocketError(SocketErrorView),
    CustomError(Seq<char>),
    ClientLostConnectionError,
    ServerClosedConnectionError,
}

impl View for VibinWebSocketError {
    type V = FailureView;

    open spec fn view(&self) -> FailureView {
        match self {
            VibinWebSocketError::WebSocketError(error) => FailureView::WebSocketError(error@),
            VibinWebSocketError::CustomError(message) => FailureView::CustomError(message@),
            VibinWebSocketError::ClientLostConnectionError => FailureView::ClientLostConnectionError,
            VibinWebSocketError::ServerClosedConnectionError =>
                FailureView::ServerClosedConnectionError,
        }
    }
}

impl DeepView for VibinWebSocketError {
    type V = FailureView;

    open spec fn deep_view(&self) -> FailureView {
        self@
    }
}

/// What to do once an attempt has been opened.
#[derive(Clone, Debug, PartialEq, Eq)]
pub enum Opening {
    /// Shake hands with this URL, within [`CONNECT_TIMEOUT_SECS`].
    Connect(String),
    /// Do not connect: the attempt was refused, and ends as
    /// [`Ending::Abandoned`].
    Abandon,
}

/// The view of an [`Opening`].
pub enum OpeningView {
    Connect(Seq<char>),
    Abandon,
}

impl View for Opening {
    type V = OpeningView;

    open spec fn view(&self) -> OpeningView {
        match self {
            Opening::Connect(url) => OpeningView::Connect(url@),
            Opening::Abandon => OpeningView::Abandon,
        }
    }
}

/// What to do after a tick or a frame of an open connection.
#[derive(Clone, Debug, PartialEq, Eq)]
pub enum Flow {
    /// Wait for the next tick or frame, whichever comes first.
    Continue,
    /// Leave the socket: a stop was asked for. The attempt did not fail.
    Stopped,
    /// Leave the socket: the attempt failed.
    Failed(VibinWebSocketError),
}

/// The view of a [`Flow`].
pub enum FlowView {
    Continue,
    Stopped,
    Failed(FailureView),
}

impl View for Flow {
    type V = FlowView;

    open spec fn view(&self) -> FlowView {
        match self {
            Flow::Continue => FlowView::Continue,
            Flow::Stopped => FlowView::Stopped,
            Flow::Failed(error) => FlowView::Failed(error@),
        }
    }
}

/// How an attempt ended.
#[derive(Clone, Debug, PartialEq, Eq)]
pub enum Ending {
    /// It was refused when it was to be opened, and never touched the socket.
    Abandoned,
    /// A stop was asked for, and the socket was left.
    Stopped,
    /// It failed, at the handshake or on the open socket.
    Failed(VibinWebSocketError),
}

/// The view of an [`Ending`].
pub enum EndingView {
    Abandoned,
    Stopped,
    Failed(FailureView),
}

impl View for Ending {
    type V = EndingView;

    open spec fn view(&self) -> EndingView {
        match self {
            Ending::Abandoned => EndingView::Abandoned,
            Ending::Stopped => EndingView::Stopped,
            Ending::Failed(failure) => EndingView::Failed(failure@),
        }
    }
}

/// What to do once an attempt is over.
#[derive(Clone, Copy, Debug, PartialEq, Eq, Structural)]
pub enum Next {
    /// Wait [`RETRY_DELAY_SECS`], then open the next attempt.
    Retry,
    /// Make no further attempt.
    Finish,
}

// ---------------------------------------------------------------------------
// The messages

/// The lifecycle was not `Disconnected` when an attempt was to be opened.
pub open spec fn not_disconnected_message() -> Seq<char> {
    "Connection state is not Disconnected; not proceeding with Vibin WebSocket connection"@
}

/// The endpoint is no URL, for the reason named.
pub open spec fn bad_host_message(reason: Seq<char>) -> Seq<char> {
    "Vibin host URL parsing error: "@ + reason
}

/// The handshake failed; the description is quoted as `{:?}` quotes.
pub open spec fn connection_error_message(description: Seq<char>) -> Seq<char> {
    "Connection error: "@ + debug_form(description)
}

/// The handshake took too long.
pub open spec fn timeout_message(url: Seq<char>) -> Seq<char> {
    "Timed out connecting to: "@ + url
}

/// Reading from the socket failed.
pub open spec fn read_error_message(error: SocketErrorView) -> Seq<char> {
    match error {
        SocketErrorView::Io(text) => "IO error: "@ + text,
        SocketErrorView::Other(text) => "Unknown error: "@ + text,
    }
}

/// The peer went quiet.
pub open spec fn lost_message() -> Seq<char> {
    "Client lost connection to WebSocket server"@
}

/// The peer closed the connection.
pub open spec fn closed_message() -> Seq<char> {
    "WebSocket server closed the connection"@
}

// ---------------------------------------------------------------------------
// The rules of one attempt

/// Opening an attempt. `lifecycle` is where the connection stands, `host`
/// the endpoint as configured, `parsed` what the URL parser made of it.
/// Gives the lifecycle afterwards, what is published, and what to do.
///
/// Unless the lifecycle is `Disconnected`, and the endpoint a URL, an error
/// is published and the attempt abandoned with the lifecycle as it was.
/// Otherwise the lifecycle becomes `Connecting` and is published.
pub open spec fn attempt_opening(
    lifecycle: Lifecycle,
    host: Seq<char>,
    parsed: Result<Seq<char>, Seq<char>>,
) -> (Lifecycle, Seq<EventView>, OpeningView) {
    if !(lifecycle is Disconnected) {
        (lifecycle, error_report(not_disconnected_message()), OpeningView::Abandon)
    } else {
        match parsed {
            Err(reason) => (lifecycle, error_report(bad_host_message(reason)), OpeningView::Abandon),
            Ok(url) => (
                Lifecycle::Connecting(host),
                seq![EventView::AppState],
                OpeningView::Connect(url),
            ),
        }
    }
}

/// The message with which a handshake that did not succeed is reported.
pub open spec fn handshake_failure_message(outcome: HandshakeView, url: Seq<char>) -> Seq<char> {
    match outcome {
        HandshakeView::Failed(SocketErrorView::Io(text)) => connection_error_message(
            without_escaped_quotes(text),
        ),
        HandshakeView::Failed(SocketErrorView::Other(text)) => connection_error_message(text),
        _ => timeout_message(url),
    }
}

/// The end of a handshake. Gives the lifecycle afterwards, whether a
/// handshake has ever succeeded, what is published, and the failure if the
/// attempt is over.
///
/// On success the lifecycle becomes `Connected` and is published, and it is
/// noted that a handshake has succeeded. Otherwise an error is published,
/// and the attempt has failed with the same message; nothing else changes.
pub open spec fn handshake_end(
    lifecycle: Lifecycle,
    have_connected: bool,
    host: Seq<char>,
    url: Seq<char>,
    outcome: HandshakeView,
) -> (Lifecycle, bool, Seq<EventView>, Option<FailureView>) {
    match outcome {
        HandshakeView::Connected => (
            Lifecycle::Connected(host),
            true,
            seq![EventView::AppState],
            None,
        ),
        _ => {
            let message = handshake_failure_message(outcome, url);
            (
                lifecycle,
                have_connected,
                error_report(message),
                Some(FailureView::CustomError(message)),
            )
        },
    }
}

/// A tick of an open connection. `stop` says whether a stop was asked for,
/// `silent` whether the peer has been quiet for too long. Gives the
/// lifecycle afterwards, what is published, and what to do.
///
/// A stop comes first: the lifecycle becomes `Disconnected` without a reason
/// and is published. Failing that, silence fails the attempt.
pub open spec fn tick_outcome(lifecycle: Lifecycle, stop: bool, silent: bool) -> (
    Lifecycle,
    Seq<EventView>,
    FlowView,
) {
    if stop {
        (Lifecycle::Disconnected(None), seq![EventView::AppState], FlowView::Stopped)
    } else if silent {
        (lifecycle, Seq::empty(), FlowView::Failed(FailureView::ClientLostConnectionError))
    } else {
        (lifecycle, Seq::empty(), FlowView::Continue)
    }
}

/// The reason with which the lifecycle becomes `Disconnected` when an
/// attempt has failed, which is also the message that is published.
pub open spec fn failure_message(failure: FailureView) -> Seq<char> {
    match failure {
        FailureView::WebSocketError(error) => read_error_message(error),
        FailureView::CustomError(message) => message,
        FailureView::ClientLostConnectionError => lost_message(),
        FailureView::ServerClosedConnectionError => closed_message(),
    }
}

/// The end of an attempt. `lifecycle` is where the connection stands,
/// `ending` how the attempt ended, `have_connected` whether a handshake has
/// succeeded since the manager was started, `stop` whether a stop is asked
/// for. Gives the lifecycle afterwards, whether a stop is still asked for,
/// what is published, and what to do.
///
/// An attempt that was refused changes nothing and publishes nothing; the
/// error that refused it has been published already. An attempt that was
/// stopped leaves the lifecycle `Disconnected` without a reason and
/// withdraws the request to stop. Neither is followed by another.
///
/// A failed attempt leaves the lifecycle `Disconnected` with the failure's
/// message, and has the lifecycle published and then the message as an
/// error. It is followed by another exactly if a handshake has succeeded
/// before and no stop is asked for.
pub open spec fn attempt_end(
    lifecycle: Lifecycle,
    ending: EndingView,
    have_connected: bool,
    stop: bool,
) -> (Lifecycle, bool, Seq<EventView>, Next) {
    match ending {
        EndingView::Abandoned => (lifecycle, stop, Seq::empty(), Next::Finish),
        EndingView::Stopped => (Lifecycle::Disconnected(None), false, Seq::empty(), Next::Finish),
        EndingView::Failed(failure) => {
            let message = failure_message(failure);
            (
                Lifecycle::Disconnected(Some(message)),
                stop,
                seq![EventView::AppState, EventView::Error(websocket_error(message))],
                if have_connected && !stop {
                    Next::Retry
                } else {
                    Next::Finish
                },
            )
        },
    }
}

/// One connection attempt after another, against one endpoint.
#[derive(Clone, Debug, PartialEq, Eq)]
pub struct WebSocketConnection {
    /// The endpoint as it was configured.
    pub vibin_host: String,
}

impl WebSocketConnection {
    /// A connection that has no endpoint yet.
    pub fn new() -> (connection: WebSocketConnection)
        ensures
            connection.vibin_host@ == Seq::<char>::empty(),
    {
        WebSocketConnection { vibin_host: String::new() }
    }

    /// Makes the connection ready for its attempts against `vibin_host`, and
    /// withdraws any request to stop.
    pub fn start(&mut self, vibin_host: &str, stop_flag: &mut bool)
        ensures
            final(self).vibin_host@ == vibin_host@,
            !*final(stop_flag),
    {
        self.vibin_host = vibin_host.to_owned();
        *stop_flag = false;
    }

    /// Opens an attempt, given what the URL parser made of the endpoint.
    pub fn begin_attempt_with(
        &self,
        parsed: Result<String, String>,
        app_state: &mut AppState,
    ) -> (step: (Vec<Event>, Opening))
        ensures
            (final(app_state)@, step.0.deep_view(), step.1@) == attempt_opening(
                old(app_state)@,
                self.vibin_host@,
                url_view(parsed),
            ),
    {
        if !app_state.vibin_connection.is_disconnected() {
            let message =
                "Connection state is not Disconnected; not proceeding with Vibin WebSocket connection".to_owned();
            return (report(message), Opening::Abandon);
        }
        match parsed {
            Err(reason) => {
                let message = joined("Vibin host URL parsing error: ", reason.as_str());
                (report(message), Opening::Abandon)
            },
            Ok(url) => {
                app_state.vibin_connection = VibinConnectionState::Connecting(
                    self.vibin_host.clone(),
                );
                (one_event(Event::AppState), Opening::Connect(url))
            },
        }
    }

    /// Opens an attempt: checks that the lifecycle allows one and that the
    /// endpoint is a URL.
    pub fn begin_attempt(&self, app_state: &mut AppState) -> (step: (Vec<Event>, Opening))
        ensures
            (final(app_state)@, step.0.deep_view(), step.1@) == attempt_opening(
                old(app_state)@,
                self.vibin_host@,
                parsed_url(self.vibin_host@),
            ),
    {
        let parsed = parse_url(self.vibin_host.as_str());
        self.begin_attempt_with(parsed, app_state)
    }

    /// Takes in the end of the handshake with `url`. On success the watch
    /// over the peer's keepalives begins at `now`.
    pub fn handshake_finished(
        &self,
        outcome: Handshake,
        url: &str,
        now: Timestamp,
        app_state: &mut AppState,
        have_connected: &mut bool,
    ) -> (step: (Vec<Event>, Result<Watchdog, VibinWebSocketError>))
        ensures
            (
                final(app_state)@,
                *final(have_connected),
                step.0.deep_view(),
                match step.1 {
                    Ok(_) => None::<FailureView>,
                    Err(failure) => Some(failure@),
                },
            ) == handshake_end(
                old(app_state)@,
                *old(have_connected),
                self.vibin_host@,
                url@,
                outcome@,
            ),
            step.1 matches Ok(watchdog) ==> watchdog.samples() == Seq::<u64>::empty()
                && watchdog.last_keepalive() == now && !watchdog.seen_keepalive(),
    {
        let message = match outcome {
            Handshake::Connected => {
                app_state.vibin_connection = VibinConnectionState::Connected(
                    self.vibin_host.clone(),
                );
                *have_connected = true;
                return (one_event(Event::AppState), Ok(Watchdog::new(now)));
            },
            Handshake::Failed(SocketError::Io(text)) => {
                let description = strip_escaped_quotes(text.as_str());
                joined("Connection error: ", debug_quoted(description.as_str()).as_str())
            },
            Handshake::Failed(SocketError::Other(text)) => joined(
                "Connection error: ",
                debug_quoted(text.as_str()).as_str(),
            ),
            Handshake::TimedOut => joined("Timed out connecting to: ", url),
        };
        (report(message.clone()), Err(VibinWebSocketError::CustomError(message)))
    }

    /// Takes in a tick of the open connection at `now`.
    pub fn on_tick(
        &self,
        watchdog: &Watchdog,
        now: Timestamp,
        stop_flag: bool,
        app_state: &mut AppState,
    ) -> (step: (Vec<Event>, Flow))
        ensures
            (final(app_state)@, step.0.deep_view(), step.1@) == tick_outcome(
                old(app_state)@,
                stop_flag,
                match now.elapsed_since(watchdog.last_keepalive()) {
                    Some(elapsed) => silence_exceeds(watchdog.samples(), elapsed),
                    None => false,
                },
            ),
    {
        if stop_flag {
            app_state.set_disconnected(None);
            (one_event(Event::AppState), Flow::Stopped)
        } else if watchdog.is_silent(now) {
            (no_event(), Flow::Failed(VibinWebSocketError::ClientLostConnectionError))
        } else {
            (no_event(), Flow::Continue)
        }
    }

    /// Takes in what came off the open socket at `now`: a frame, or the
    /// error with which reading failed.
    ///
    /// A keepalive is noted by the watchdog. A text is dispatched as the
    /// message it holds. A close, and a read error, fail the attempt. Any
    /// other frame is passed over.
    pub fn on_frame(
        &self,
        frame: Result<Frame, SocketError>,
        watchdog: &mut Watchdog,
        now: Timestamp,
        vibin_state: &mut VibinState,
    ) -> (step: (Vec<Event>, Flow))
        ensures
            match frame {
                Ok(Frame::Ping) => {
                    &&& final(watchdog).samples() == gaps_after_keepalive(
                        old(watchdog).samples(),
                        old(watchdog).last_keepalive(),
                        old(watchdog).seen_keepalive(),
                        now,
                    )
                    &&& final(watchdog).samples().len() <= PING_WINDOW
                    &&& final(watchdog).last_keepalive() == now
                    &&& final(watchdog).seen_keepalive()
                    &&& final(vibin_state)@ == old(vibin_state)@
                    &&& step.0.deep_view() == Seq::<EventView>::empty()
                    &&& step.1@ == FlowView::Continue
                },
                Ok(Frame::Text(text)) => {
                    &&& *final(watchdog) == *old(watchdog)
                    &&& (final(vibin_state)@, step.0.deep_view()) == text_outcome(
                        old(vibin_state)@,
                        parsed_json(text@),
                        text@,
                    )
                    &&& step.1@ == FlowView::Continue
                },
                other => {
                    &&& *final(watchdog) == *old(watchdog)
                    &&& final(vibin_state)@ == old(vibin_state)@
                    &&& step.0.deep_view() == Seq::<EventView>::empty()
                    &&& step.1@ == match other {
                        Ok(Frame::Close) => FlowView::Failed(
                            FailureView::ServerClosedConnectionError,
                        ),
                        Err(error) => FlowView::Failed(FailureView::WebSocketError(error@)),
                        _ => FlowView::Continue,
                    }
                },
            },
    {
        match frame {
            Ok(Frame::Ping) => {
                watchdog.keepalive(now);
                (no_event(), Flow::Continue)
            },
            Ok(Frame::Close) => (
                no_event(),
                Flow::Failed(VibinWebSocketError::ServerClosedConnectionError),
            ),
            Ok(Frame::Text(text)) => {
                let events = self.process_text(text.as_str(), vibin_state);
                (events, Flow::Continue)
            },
            Ok(Frame::Other) => (no_event(), Flow::Continue),
            Err(error) => (no_event(), Flow::Failed(VibinWebSocketError::WebSocketError(error))),
        }
    }

    /// Takes in the end of an attempt and decides whether another follows.
    pub fn attempt_ended(
        &self,
        ending: Ending,
        have_connected: bool,
        app_state: &mut AppState,
        stop_flag: &mut bool,
    ) -> (step: (Vec<Event>, Next))
        ensures
            (final(app_state)@, *final(stop_flag), step.0.deep_view(), step.1) == attempt_end(
                old(app_state)@,
                ending@,
                have_connected,
                *old(stop_flag),
            ),
    {
        let failure = match ending {
            Ending::Abandoned => {
                return (no_event(), Next::Finish);
            },
            Ending::Stopped => {
                app_state.set_disconnected(None);
                *stop_flag = false;
                return (no_event(), Next::Finish);
            },
            Ending::Failed(failure) => failure,
        };
        let message = match &failure {
            VibinWebSocketError::WebSocketError(SocketError::Io(text)) => joined(
                "IO error: ",
                text.as_str(),
            ),
            VibinWebSocketError::WebSocketError(SocketError::Other(text)) => joined(
                "Unknown error: ",
                text.as_str(),
            ),
            VibinWebSocketError::CustomError(message) => message.clone(),
            VibinWebSocketError::ClientLostConnectionError =>
                "Client lost connection to WebSocket server".to_owned(),
            VibinWebSocketError::ServerClosedConnectionError =>
                "WebSocket server closed the connection".to_owned(),
        };
        app_state.set_disconnected(Some(message.clone()));
        let events = two_events(Event::AppState, Event::Error(AppError::websocket(message)));
        let next = if have_connected && !*stop_flag {
            Next::Retry
        } else {
            Next::Finish
        };
        (events, next)
    }
}

/// The view of what the URL parser handed back.
pub open spec fn url_view(parsed: Result<String, String>) -> Result<Seq<char>, Seq<char>> {
    match parsed {
        Ok(url) => Ok(url@),
        Err(reason) => Err(reason@),
    }
}

// ---------------------------------------------------------------------------
// The manager

/// What to do about a request to start.
#[derive(Clone, Debug, PartialEq, Eq)]
pub enum StartDecision {
    /// Nothing: the manager is started already.
    AlreadyStarted,
    /// Nothing: no endpoint is configured.
    NotConfigured,
    /// Run the connection against this endpoint, as a task of its own, and
    /// tell the manager when it has finished.
    Launch(String),
}

/// The view of a [`StartDecision`].
pub enum StartView {
    AlreadyStarted,
    NotConfigured,
    Launch(Seq<char>),
}

impl View for StartDecision {
    type V = StartView;

    open spec fn view(&self) -> StartView {
        match self {
            StartDecision::AlreadyStarted => StartView::AlreadyStarted,
            StartDecision::NotConfigured => StartView::NotConfigured,
            StartDecision::Launch(host) => StartView::Launch(host@),
        }
    }
}

/// What to do about a request to stop.
#[derive(Clone, Copy, Debug, PartialEq, Eq, Structural)]
pub enum StopDecision {
    /// Nothing: there is no connection to stop.
    Ignored,
    /// Look again every [`STOP_POLL_MILLIS`] until the connection is seen to
    /// have wound down.
    AwaitDisconnected,
}

/// The controller of the one logical connection, with all that it and the
/// connection decide on.
#[derive(Clone, Debug, PartialEq, Eq)]
pub struct WebSocketManager {
    /// The endpoint; `None` while none is configured.
    pub vibin_host: Option<String>,
    /// Whether the running connection is asked to stop.
    pub stop_flag: bool,
    /// The connection lifecycle, as observers see it.
    pub app_state: AppState,
    /// The player state, as observers see it.
    pub vibin_state: VibinState,
    /// The connection that makes the attempts.
    pub connection: WebSocketConnection,
    /// Whether a connection is running for this manager.
    pub is_started: bool,
    /// Whether a handshake has succeeded since the manager was started.
    pub have_connected: bool,
}

/// The view of a [`WebSocketManager`].
pub struct ManagerView {
    pub vibin_host: Option<Seq<char>>,
    pub stop_flag: bool,
    pub lifecycle: Lifecycle,
    pub vibin_state: VibinStateView,
    pub connection_host: Seq<char>,
    pub is_started: bool,
    pub have_connected: bool,
}

impl View for WebSocketManager {
    type V = ManagerView;

    open spec fn view(&self) -> ManagerView {
        ManagerView {
            vibin_host: self.vibin_host.deep_view(),
            stop_flag: self.stop_flag,
            lifecycle: self.app_state@,
            vibin_state: self.vibin_state@,
            connection_host: self.connection.vibin_host@,
            is_started: self.is_started,
            have_connected: self.have_connected,
        }
    }
}

impl ManagerView {
    /// A request to start. Gives the manager afterwards and what to do.
    ///
    /// A manager that is started, or has no endpoint, stays as it is and
    /// launches nothing. Any other becomes started, forgets that it was ever
    /// connected or asked to stop, and launches the connection.
    pub open spec fn started(self) -> (ManagerView, StartView) {
        if self.is_started {
            (self, StartView::AlreadyStarted)
        } else {
            match self.vibin_host {
                None => (self, StartView::NotConfigured),
                Some(host) => (
                    ManagerView {
                        is_started: true,
                        have_connected: false,
                        stop_flag: false,
                        ..self
                    },
                    StartView::Launch(host),
                ),
            }
        }
    }

    /// The launched connection has finished. Gives the manager afterwards
    /// and what is published: the manager is no longer started, and the
    /// lifecycle is published as it stands.
    pub open spec fn finished(self) -> (ManagerView, Seq<EventView>) {
        (ManagerView { is_started: false, ..self }, seq![EventView::AppState])
    }

    /// A request to stop. Gives the manager afterwards, what is published,
    /// and what to do.
    ///
    /// Unless the lifecycle is `Connected` nothing changes and nothing is
    /// published. Otherwise the lifecycle becomes `Disconnecting` and is
    /// published, and the connection is asked to stop.
    pub open spec fn stop_requested(self) -> (ManagerView, Seq<EventView>, StopDecision) {
        if self.lifecycle is Connected {
            (
                ManagerView { lifecycle: Lifecycle::Disconnecting, stop_flag: true, ..self },
                seq![EventView::AppState],
                StopDecision::AwaitDisconnected,
            )
        } else {
            (self, Seq::empty(), StopDecision::Ignored)
        }
    }

    /// A look at a connection that was asked to stop. Gives the manager
    /// afterwards and whether the wait is over.
    ///
    /// It is over once the lifecycle is `Disconnected`: the reason is then
    /// dropped, and the manager is neither started nor ever connected.
    pub open spec fn stop_polled(self) -> (ManagerView, bool) {
        if self.lifecycle is Disconnected {
            (
                ManagerView {
                    lifecycle: Lifecycle::Disconnected(None),
                    is_started: false,
                    have_connected: false,
                    ..self
                },
                true,
            )
        } else {
            (self, false)
        }
    }

    /// A new endpoint, of which it is known whether it was accepted as a
    /// URL. Gives the manager afterwards and what to do, if anything.
    ///
    /// An address that was accepted becomes the endpoint, and the manager is
    /// asked to start. One that was not changes nothing.
    pub open spec fn with_server(self, server: Seq<char>, accepted: bool) -> (
        ManagerView,
        Option<StartView>,
    ) {
        if accepted {
            let started = (ManagerView { vibin_host: Some(server), ..self }).started();
            (started.0, Some(started.1))
        } else {
            (self, None)
        }
    }
}

/// What a request for a new endpoint is answered with, given what the URL
/// parser made of the address: `OK` for a URL, else a complaint, which is
/// also published as an error.
pub open spec fn server_check(parsed: Result<Seq<char>, Seq<char>>) -> (
    Seq<EventView>,
    Result<Seq<char>, Seq<char>>,
) {
    match parsed {
        Ok(_) => (Seq::empty(), Ok("OK"@)),
        Err(reason) => (
            seq![EventView::ErrorText("Invalid URL: "@ + reason)],
            Err("Invalid URL: "@ + reason),
        ),
    }
}

/// Answers a request for a new endpoint, given what the URL parser made of
/// the address.
pub fn check_vibin_server_with(parsed: Result<String, String>) -> (step: (
    Vec<Event>,
    Result<String, String>,
))
    ensures
        (step.0.deep_view(), url_view(step.1)) == server_check(url_view(parsed)),
{
    match parsed {
        Ok(_) => (no_event(), Ok("OK".to_owned())),
        Err(reason) => {
            let error = joined("Invalid URL: ", reason.as_str());
            (one_event(Event::ErrorText(error.clone())), Err(error))
        },
    }
}

/// Answers a request for the new endpoint `vibin_server`. The manager is
/// to be stopped and given the endpoint only if the answer is `Ok`.
pub fn check_vibin_server(vibin_server: &str) -> (step: (Vec<Event>, Result<String, String>))
    ensures
        (step.0.deep_view(), url_view(step.1)) == server_check(parsed_url(vibin_server@)),
{
    check_vibin_server_with(parse_url(vibin_server))
}

impl WebSocketManager {
    /// A manager that is not started, around a connection that has no
    /// endpoint yet.
    pub fn new(
        vibin_host: Option<String>,
        stop_flag: bool,
        app_state: AppState,
        vibin_state: VibinState,
    ) -> (manager: WebSocketManager)
        ensures
            manager@ == (ManagerView {
                vibin_host: vibin_host.deep_view(),
                stop_flag,
                lifecycle: app_state@,
                vibin_state: vibin_state@,
                connection_host: Seq::<char>::empty(),
                is_started: false,
                have_connected: false,
            }),
    {
        WebSocketManager {
            vibin_host,
            stop_flag,
            app_state,
            vibin_state,
            connection: WebSocketConnection::new(),
            is_started: false,
            have_connected: false,
        }
    }

    /// Notes whether a handshake has succeeded.
    pub fn set_have_connected(&mut self, have_connected: bool)
        ensures
            final(self)@ == (ManagerView { have_connected, ..old(self)@ }),
    {
        self.have_connected = have_connected;
    }

    /// Takes in a request to start.
    pub fn start(&mut self) -> (decision: StartDecision)
        ensures
            (final(self)@, decision@) == old(self)@.started(),
    {
        if self.is_started {
            return StartDecision::AlreadyStarted;
        }
        let host = match &self.vibin_host {
            None => { return StartDecision::NotConfigured; },
            Some(host) => host.clone(),
        };
        self.is_started = true;
        self.have_connected = false;
        self.stop_flag = false;
        StartDecision::Launch(host)
    }

    /// Takes in that the launched connection has finished, for whatever
    /// reason.
    pub fn connection_finished(&mut self) -> (events: Vec<Event>)
        ensures
            (final(self)@, events.deep_view()) == old(self)@.finished(),
    {
        self.is_started = false;
        one_event(Event::AppState)
    }

    /// Takes in a request to stop.
    pub fn stop(&mut self) -> (step: (Vec<Event>, StopDecision))
        ensures
            (final(self)@, step.0.deep_view(), step.1) == old(self)@.stop_requested(),
    {
        if !self.app_state.vibin_connection.is_connected() {
            return (no_event(), StopDecision::Ignored);
        }
        self.app_state.vibin_connection = VibinConnectionState::Disconnecting;
        self.stop_flag = true;
        (one_event(Event::AppState), StopDecision::AwaitDisconnected)
    }

    /// Looks whether the connection that was asked to stop has wound down.
    /// While the answer is `false`, look again after [`STOP_POLL_MILLIS`].
    pub fn poll_stopped(&mut self) -> (done: bool)
        ensures
            (final(self)@, done) == old(self)@.stop_polled(),
    {
        if self.app_state.vibin_connection.is_disconnected() {
            self.app_state.set_disconnected(None);
            self.is_started = false;
            self.have_connected = false;
            true
        } else {
            false
        }
    }

    /// Takes the endpoint `vibin_server` and starts, provided that `answer`,
    /// which is what [`check_vibin_server`] said of the address, is `Ok`.
    /// After any other answer nothing changes and nothing is decided.
    pub fn set_vibin_server(
        &mut self,
        vibin_server: String,
        answer: &Result<String, String>,
    ) -> (decision: Option<StartDecision>)
        ensures
            (
                final(self)@,
                match decision {
                    Some(decision) => Some(decision@),
                    None => None::<StartView>,
                },
            ) == old(self)@.with_server(vibin_server@, answer is Ok),
    {
        match answer {
            Ok(_) => {
                self.vibin_host = Some(vibin_server);
                Some(self.start())
            },
            Err(_) => None,
        }
    }

    /// Takes in that an observer is ready: the lifecycle and the player
    /// state are published as they stand, and the manager is asked to start.
    pub fn on_ui_ready(&mut self) -> (step: (Vec<Event>, StartDecision))
        ensures
            step.0.deep_view() == seq![EventView::AppState, EventView::VibinState],
            (final(self)@, step.1@) == old(self)@.started(),
    {
        let events = two_events(Event::AppState, Event::VibinState);
        (events, self.start())
    }
}

} // verus!

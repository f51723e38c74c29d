//! What the connection manager asks its caller to publish.

use vstd::prelude::*;
use crate::state::{Position, WeeVibinMessage};

verus! {

/// The part of the application that an error came from.
#[derive(Clone, Copy, Debug, PartialEq, Eq, Structural)]
pub enum AppErrorCategory {
    WebSocket,
}

/// A diagnostic for observers. It is never fatal by itself.
#[derive(Clone, Debug, PartialEq, Eq)]
pub struct AppError {
    pub category: AppErrorCategory,
    pub message: String,
}

/// The view of an [`AppError`].
pub struct AppErrorView {
    pub category: AppErrorCategory,
    pub message: Seq<char>,
}

impl View for AppError {
    type V = AppErrorView;

    open spec fn view(&self) -> AppErrorView {
        AppErrorView { category: self.category, message: self.message@ }
    }
}

impl DeepView for AppError {
    type V = AppErrorView;

    open spec fn deep_view(&self) -> AppErrorView {
        self@
    }
}

impl AppError {
    /// An error of the connection, with the given message.
    pub fn websocket(message: String) -> (error: AppError)
        ensures
            error@ == websocket_error(message@),
    {
        AppError { category: AppErrorCategory::WebSocket, message }
    }
}

/// The view of an error of the connection with the given message.
pub open spec fn websocket_error(message: Seq<char>) -> AppErrorView {
    AppErrorView { category: AppErrorCategory::WebSocket, message }
}

/// One notification for observers. The lifecycle and the player state are
/// published as they stand when the function that asked for it returns.
#[derive(Clone, Debug, PartialEq, Eq)]
pub enum Event {
    /// Publish the connection lifecycle.
    AppState,
    /// Publish the player state.
    VibinState,
    /// Publish this position.
    Position(Position),
    /// Publish this error.
    Error(AppError),
    /// Publish this text as an error.
    ErrorText(String),
}

/// The view of an [`Event`].
pub enum EventView {
    AppState,
    VibinState,
    Position(Position),
    Error(AppErrorView),
    ErrorText(Seq<char>),
}

impl View for Event {
    type V = EventView;

    open spec fn view(&self) -> EventView {
        match self {
            Event::AppState => EventView::AppState,
            Event::VibinState => EventView::VibinState,
            Event::Position(position) => EventView::Position(*position),
            Event::Error(error) => EventView::Error(error@),
            Event::ErrorText(text) => EventView::ErrorText(text@),
        }
    }
}

impl DeepView for Event {
    type V = EventView;

    open spec fn deep_view(&self) -> EventView {
        self@
    }
}

impl EventView {
    /// The channel on which the event goes out.
    pub open spec fn channel(self) -> WeeVibinMessage {
        match self {
            EventView::AppState => WeeVibinMessage::AppState,
            EventView::VibinState => WeeVibinMessage::VibinState,
            EventView::Position(_) => WeeVibinMessage::Position,
            EventView::Error(_) => WeeVibinMessage::Error,
            EventView::ErrorText(_) => WeeVibinMessage::Error,
        }
    }
}

impl Event {
    /// The channel on which the event goes out.
    pub fn channel(&self) -> (channel: WeeVibinMessage)
        ensures
            channel == self@.channel(),
    {
        match self {
            Event::AppState => WeeVibinMessage::AppState,
            Event::VibinState => WeeVibinMessage::VibinState,
            Event::Position(_) => WeeVibinMessage::Position,
            Event::Error(_) => WeeVibinMessage::Error,
            Event::ErrorText(_) => WeeVibinMessage::Error,
        }
    }
}

/// The events that go out when a connection error with this message is
/// reported: the one error.
pub open spec fn error_report(message: Seq<char>) -> Seq<EventView> {
    seq![EventView::Error(websocket_error(message))]
}

/// Nothing to publish.
pub(crate) fn no_event() -> (events: Vec<Event>)
    ensures
        events.deep_view() == Seq::<EventView>::empty(),
{
    let events = Vec::new();
    events
}

/// One thing to publish.
pub(crate) fn one_event(event: Event) -> (events: Vec<Event>)
    ensures
        events.deep_view() == seq![event@],
{
    let mut events = Vec::new();
    events.push(event);
    events
}

/// Two things to publish, in this order.
pub(crate) fn two_events(first: Event, second: Event) -> (events: Vec<Event>)
    ensures
        events.deep_view() == seq![first@, second@],
{
    let mut events = Vec::new();
    events.push(first);
    events.push(second);
    events
}

/// A connection error with this message, ready to be published.
pub(crate) fn report(message: String) -> (events: Vec<Event>)
    ensures
        events.deep_view() == error_report(message@),
{
    one_event(Event::Error(AppError::websocket(message)))
}

} // verus!

//! What holds of the manager and its connection whatever they are fed.

use vstd::prelude::*;
use crate::average::sum_of;
use crate::decode::{
    kind_of, playing_of, system_of, transport_of, MessageKind, SystemPayloadView,
};
use crate::dispatch::dispatched;
use crate::events::{error_report, EventView};
use crate::json::JsonValue;
use crate::liveness::silence_exceeds;
use crate::state::{Lifecycle, TransportStateView, VibinStateView};
use crate::websocket::{
    attempt_end, attempt_opening, closed_message, handshake_end, lost_message, tick_outcome,
    timeout_message, EndingView, FailureView, FlowView, HandshakeView, ManagerView, Next,
    OpeningView, StartView, StopDecision,
};

verus! {

// ---------------------------------------------------------------------------
// The lifecycle

/// Whether the lifecycle may go from `from` to `to` in one step: along
/// `Disconnected`, `Connecting`, `Connected`, `Disconnecting`,
/// `Disconnected`; from any state straight to `Disconnected`; or nowhere.
pub open spec fn may_follow(from: Lifecycle, to: Lifecycle) -> bool {
    ||| to == from
    ||| to is Disconnected
    ||| from is Disconnected && to is Connecting
    ||| from is Connecting && to is Connected
    ||| from is Connected && to is Disconnecting
}

/// Every step takes the lifecycle along the allowed ways only, provided
/// that the end of a handshake finds it `Connecting`.
pub proof fn lemma_lifecycle_keeps_to_its_ways(
    manager: ManagerView,
    host: Seq<char>,
    url: Seq<char>,
    parsed: Result<Seq<char>, Seq<char>>,
    handshake: HandshakeView,
    stop: bool,
    silent: bool,
    ending: EndingView,
)
    ensures
        may_follow(manager.lifecycle, attempt_opening(manager.lifecycle, host, parsed).0),
        manager.lifecycle is Connecting ==> may_follow(
            manager.lifecycle,
            handshake_end(manager.lifecycle, manager.have_connected, host, url, handshake).0,
        ),
        may_follow(manager.lifecycle, tick_outcome(manager.lifecycle, stop, silent).0),
        may_follow(
            manager.lifecycle,
            attempt_end(manager.lifecycle, ending, manager.have_connected, stop).0,
        ),
        may_follow(manager.lifecycle, manager.started().0.lifecycle),
        may_follow(manager.lifecycle, manager.finished().0.lifecycle),
        may_follow(manager.lifecycle, manager.stop_requested().0.lifecycle),
        may_follow(manager.lifecycle, manager.stop_polled().0.lifecycle),
{
}

/// A request to stop a manager whose lifecycle is not `Connected`, a
/// `Disconnected` one in particular, changes nothing and publishes nothing.
pub proof fn lemma_stop_without_connection_does_nothing(manager: ManagerView)
    requires
        !(manager.lifecycle is Connected),
    ensures
        manager.stop_requested() == (manager, Seq::<EventView>::empty(), StopDecision::Ignored),
{
}

/// A request to start a manager that is started changes nothing and
/// launches nothing. So of two requests in a row at most the first
/// launches a connection.
pub proof fn lemma_start_launches_once(manager: ManagerView)
    ensures
        manager.is_started ==> manager.started() == (manager, StartView::AlreadyStarted),
        manager.started().1 is Launch ==> manager.started().0.started() == (
            manager.started().0,
            StartView::AlreadyStarted,
        ),
        manager.started().1 is Launch <==> !manager.is_started && manager.vibin_host is Some,
{
}

// ---------------------------------------------------------------------------
// Whole attempts

/// An attempt that finds the lifecycle `Disconnected` and an endpoint that
/// is a URL, and whose handshake succeeds, takes the lifecycle to
/// `Connecting` and then to `Connected`, publishes it both times, and notes
/// that a handshake has succeeded.
pub proof fn lemma_attempt_that_connects(
    reason: Option<Seq<char>>,
    host: Seq<char>,
    url: Seq<char>,
    have_connected: bool,
)
    ensures
        ({
            let opened = attempt_opening(Lifecycle::Disconnected(reason), host, Ok(url));
            let shaken = handshake_end(opened.0, have_connected, host, url, HandshakeView::Connected);
            &&& opened == (
                Lifecycle::Connecting(host),
                seq![EventView::AppState],
                OpeningView::Connect(url),
            )
            &&& shaken == (
                Lifecycle::Connected(host),
                true,
                seq![EventView::AppState],
                None::<FailureView>,
            )
        }),
{
}

/// An attempt whose handshake times out, when none has succeeded before,
/// takes the lifecycle from `Connecting` to `Disconnected` with the timeout
/// as the reason, and no attempt follows.
pub proof fn lemma_attempt_that_times_out(host: Seq<char>, url: Seq<char>, stop: bool)
    ensures
        ({
            let shaken = handshake_end(
                Lifecycle::Connecting(host),
                false,
                host,
                url,
                HandshakeView::TimedOut,
            );
            let ended = attempt_end(
                shaken.0,
                EndingView::Failed(shaken.3->Some_0),
                shaken.1,
                stop,
            );
            &&& shaken == (
                Lifecycle::Connecting(host),
                false,
                error_report(timeout_message(url)),
                Some(FailureView::CustomError(timeout_message(url))),
            )
            &&& ended == (
                Lifecycle::Disconnected(Some(timeout_message(url))),
                stop,
                seq![EventView::AppState] + error_report(timeout_message(url)),
                Next::Finish,
            )
        }),
{
}

/// A connection on which the peer goes quiet, with no stop asked for, fails
/// at the next tick; the lifecycle goes from `Connected` to `Disconnected`
/// with the loss as the reason and is published, and another attempt
/// follows, since this one had connected.
pub proof fn lemma_attempt_that_goes_quiet(host: Seq<char>)
    ensures
        ({
            let tick = tick_outcome(Lifecycle::Connected(host), false, true);
            let ended = attempt_end(tick.0, EndingView::Failed(tick.2->Failed_0), true, false);
            &&& tick == (
                Lifecycle::Connected(host),
                Seq::<EventView>::empty(),
                FlowView::Failed(FailureView::ClientLostConnectionError),
            )
            &&& ended == (
                Lifecycle::Disconnected(Some(lost_message())),
                false,
                seq![EventView::AppState] + error_report(lost_message()),
                Next::Retry,
            )
        }),
{
}

/// An attempt is followed by another exactly if it failed, a handshake has
/// succeeded before, and no stop is asked for. So a connection that the peer
/// closes is tried again, unless a stop is under way; an attempt that was
/// stopped or refused never is.
pub proof fn lemma_retry_needs_a_past_connection(
    lifecycle: Lifecycle,
    ending: EndingView,
    have_connected: bool,
    stop: bool,
)
    ensures
        attempt_end(lifecycle, ending, have_connected, stop).3 == Next::Retry <==> ending is Failed
            && have_connected && !stop,
        !(ending is Abandoned) ==> attempt_end(lifecycle, ending, have_connected, stop).0
            is Disconnected,
        attempt_end(
            lifecycle,
            EndingView::Failed(FailureView::ServerClosedConnectionError),
            have_connected,
            stop,
        ).0 == Lifecycle::Disconnected(Some(closed_message())),
{
}

/// While a stop is asked for, no attempt is followed by another, however it
/// ended.
pub proof fn lemma_stop_ends_the_retries(
    lifecycle: Lifecycle,
    ending: EndingView,
    have_connected: bool,
)
    ensures
        attempt_end(lifecycle, ending, have_connected, true).3 == Next::Finish,
{
}

/// An attempt that is refused, because the lifecycle is not `Disconnected`
/// or because the endpoint is no URL, is a no-op that reports an error: from
/// its opening to its end the lifecycle and the request to stop stay as
/// they were, exactly one error is published and nothing else, and no
/// attempt follows.
pub proof fn lemma_refused_attempt_changes_nothing(
    lifecycle: Lifecycle,
    host: Seq<char>,
    parsed: Result<Seq<char>, Seq<char>>,
    have_connected: bool,
    stop: bool,
)
    requires
        !(lifecycle is Disconnected) || parsed is Err,
    ensures
        ({
            let opened = attempt_opening(lifecycle, host, parsed);
            let ended = attempt_end(opened.0, EndingView::Abandoned, have_connected, stop);
            &&& opened.0 == lifecycle
            &&& opened.1.len() == 1
            &&& opened.1[0] is Error
            &&& opened.2 == OpeningView::Abandon
            &&& ended == (lifecycle, stop, Seq::<EventView>::empty(), Next::Finish)
        }),
{
}

/// An attempt is refused exactly if the lifecycle is not `Disconnected` or
/// the endpoint is no URL; any other is told to connect.
pub proof fn lemma_attempt_is_refused_or_connects(
    lifecycle: Lifecycle,
    host: Seq<char>,
    parsed: Result<Seq<char>, Seq<char>>,
)
    ensures
        attempt_opening(lifecycle, host, parsed).2 == OpeningView::Abandon <==> !(lifecycle
            is Disconnected) || parsed is Err,
{
}

/// However an attempt fails, the lifecycle is `Disconnected` with a reason
/// afterwards, and it is published, ahead of the error, before anything is
/// done about a retry.
pub proof fn lemma_failure_is_seen(
    lifecycle: Lifecycle,
    failure: FailureView,
    have_connected: bool,
    stop: bool,
)
    ensures
        ({
            let ended = attempt_end(lifecycle, EndingView::Failed(failure), have_connected, stop);
            &&& ended.0 matches Lifecycle::Disconnected(Some(reason))
            &&& ended.2.len() == 2
            &&& ended.2[0] == EventView::AppState
            &&& ended.2[1] matches EventView::Error(error) && Some(error.message) == ended.0->Disconnected_0
        }),
{
}

/// A stop of a connected manager runs its course: the lifecycle becomes
/// `Disconnecting` at once, `Disconnected` at the connection's next tick,
/// whatever the watchdog thinks, and the manager, once it has seen that, is
/// no longer started and launches a connection at the next request. Should
/// the connection fail before that tick, it ends `Disconnected` all the
/// same and is not tried again.
pub proof fn lemma_stop_runs_its_course(manager: ManagerView, silent: bool, failure: FailureView)
    requires
        manager.lifecycle is Connected,
        manager.vibin_host is Some,
    ensures
        ({
            let asked = manager.stop_requested().0;
            let tick = tick_outcome(asked.lifecycle, asked.stop_flag, silent);
            let ended = attempt_end(
                tick.0,
                EndingView::Stopped,
                asked.have_connected,
                asked.stop_flag,
            );
            let failed = attempt_end(
                asked.lifecycle,
                EndingView::Failed(failure),
                asked.have_connected,
                asked.stop_flag,
            );
            let wound_down = ManagerView { lifecycle: ended.0, stop_flag: ended.1, ..asked };
            let seen = wound_down.stop_polled();
            &&& manager.stop_requested().1 == seq![EventView::AppState]
            &&& manager.stop_requested().2 == StopDecision::AwaitDisconnected
            &&& asked.lifecycle == Lifecycle::Disconnecting
            &&& !asked.stop_polled().1
            &&& tick == (
                Lifecycle::Disconnected(None),
                seq![EventView::AppState],
                FlowView::Stopped,
            )
            &&& ended.0 == Lifecycle::Disconnected(None)
            &&& ended.3 == Next::Finish
            &&& failed.0 is Disconnected
            &&& failed.3 == Next::Finish
            &&& (ManagerView { lifecycle: failed.0, stop_flag: failed.1, ..asked }).stop_polled().1
            &&& seen.1
            &&& !seen.0.is_started
            &&& seen.0.started().1 == StartView::Launch(manager.vibin_host->Some_0)
        }),
{
}

/// An address that was not accepted as a URL never becomes the endpoint:
/// the manager stays as it was and nothing is started. One that was
/// accepted becomes the endpoint of a manager that is then started, unless
/// it was started already.
pub proof fn lemma_only_accepted_servers_are_taken(manager: ManagerView, server: Seq<char>)
    ensures
        manager.with_server(server, false) == (manager, None::<StartView>),
        manager.with_server(server, true).0.vibin_host == Some(server),
        manager.with_server(server, true).0.is_started,
        !manager.is_started ==> manager.with_server(server, true).1 == Some(
            StartView::Launch(server),
        ),
{
}

// ---------------------------------------------------------------------------
// Messages and the player state

/// A `System` message that gives nothing but `power`, or not even that,
/// overwrites `power` and leaves everything else as it was.
pub proof fn lemma_system_with_power_only(state: VibinStateView, power: Option<Seq<char>>)
    ensures
        state.with_system(
            SystemPayloadView { power, sources: None, display: None, amplifier: None },
        ) == (VibinStateView { power, ..state }),
{
}

/// A `System` message never touches the transport or the track, and a
/// display that it gives replaces only the lines that it gives.
pub proof fn lemma_system_merges(state: VibinStateView, payload: SystemPayloadView)
    ensures
        state.with_system(payload).transport == state.transport,
        state.with_system(payload).active_track == state.active_track,
        state.with_system(payload).streamer_power == state.streamer_power,
        payload.display matches Some(update) ==> {
            &&& update.line1 is None ==> state.with_system(payload).display.line1
                == state.display.line1
            &&& update.line1 is Some ==> state.with_system(payload).display.line1 == update.line1
            &&& update.line2 is None ==> state.with_system(payload).display.line2
                == state.display.line2
            &&& update.line3 is None ==> state.with_system(payload).display.line3
                == state.display.line3
            &&& update.format is None ==> state.with_system(payload).display.format
                == state.display.format
            &&& update.playback_source is None ==> state.with_system(
                payload,
            ).display.playback_source == state.display.playback_source
            &&& update.art_url is None ==> state.with_system(payload).display.art_url
                == state.display.art_url
        },
{
}

/// A `TransportState` message replaces the transport as a whole: what was
/// held before leaves no trace, and nothing else changes.
pub proof fn lemma_transport_replaces(
    state: VibinStateView,
    other: VibinStateView,
    transport: TransportStateView,
)
    ensures
        state.with_transport(transport).transport == Some(transport),
        state.with_transport(transport) == (VibinStateView {
            transport: other.transport,
            ..state
        }).with_transport(transport),
        (VibinStateView { transport: state.transport, ..state.with_transport(transport) })
            == state,
{
}

/// Whatever a message is, the player state changes only if its payload has
/// the shape of a `System`, `TransportState` or `CurrentlyPlaying` message,
/// and then the state is published exactly once and nothing else is. A
/// `Position` message in particular never changes the state.
pub proof fn lemma_dispatch_publishes_what_it_changes(
    state: VibinStateView,
    msg_type: Seq<char>,
    payload: JsonValue,
)
    ensures
        ({
            let outcome = dispatched(state, msg_type, payload);
            let takes_effect = match kind_of(msg_type) {
                MessageKind::System => system_of(payload) is Ok,
                MessageKind::TransportState => transport_of(payload) is Ok,
                MessageKind::CurrentlyPlaying => playing_of(payload) is Ok,
                _ => false,
            };
            &&& takes_effect ==> outcome.1 == seq![EventView::VibinState]
            &&& !takes_effect ==> outcome.0 == state && !outcome.1.contains(EventView::VibinState)
            &&& outcome.1.len() <= 1
            &&& kind_of(msg_type) == MessageKind::Position ==> outcome.0 == state
        }),
{
}

/// The four names by which the feed calls its kinds of message are told
/// apart, letter for letter, and every other name is of an unknown kind.
pub proof fn lemma_kinds_by_name()
    ensures
        kind_of("System"@) == MessageKind::System,
        kind_of("TransportState"@) == MessageKind::TransportState,
        kind_of("CurrentlyPlaying"@) == MessageKind::CurrentlyPlaying,
        kind_of("Position"@) == MessageKind::Position,
        kind_of("system"@) == MessageKind::Unknown,
        kind_of(Seq::<char>::empty()) == MessageKind::Unknown,
{
    reveal_strlit("System");
    reveal_strlit("TransportState");
    reveal_strlit("CurrentlyPlaying");
    reveal_strlit("Position");
    reveal_strlit("system");
    assert("Position"@[0] == 'P' && "system"@[0] == 's');
    assert("System"@.len() == 6 && "TransportState"@.len() == 14);
    assert("CurrentlyPlaying"@.len() == 16 && "Position"@.len() == 8);
}

// ---------------------------------------------------------------------------
// Liveness

/// `count` gaps of the length `gap` each add up to `count * gap`.
pub proof fn lemma_sum_of_equal_gaps(samples: Seq<u64>, gap: u64)
    requires
        forall|i: int| 0 <= i < samples.len() ==> samples[i] == gap,
    ensures
        sum_of(samples) == samples.len() * gap,
    decreases samples.len(),
{
    if samples.len() > 0 {
        lemma_sum_of_equal_gaps(samples.drop_last(), gap);
        assert(samples.len() * gap == (samples.len() - 1) * gap + gap) by (nonlinear_arith);
    }
}

/// Of a peer whose last gaps, three or more, were all of the length `gap`, a
/// silence is too long exactly if it is more than five quarters of `gap`.
pub proof fn lemma_steady_peer(samples: Seq<u64>, gap: u64, elapsed: u64)
    requires
        samples.len() >= 3,
        forall|i: int| 0 <= i < samples.len() ==> samples[i] == gap,
    ensures
        silence_exceeds(samples, elapsed) <==> 4 * elapsed > 5 * gap,
{
    lemma_sum_of_equal_gaps(samples, gap);
    let n = samples.len() as int;
    assert(4 * n * elapsed > 5 * (n * gap) <==> 4 * elapsed > 5 * gap) by (nonlinear_arith)
        requires
            n >= 3,
    ;
}

/// Time is not rounded before it is compared. Of a peer whose last gaps,
/// three or more, were all `gap` nanoseconds, with `gap` a multiple of
/// four, a silence of five quarters of `gap` is allowed and one nanosecond
/// more is not. While fewer than three gaps are known, sixty seconds are
/// allowed and one nanosecond more is not.
pub proof fn lemma_silence_is_not_rounded(samples: Seq<u64>, gap: u64, few: Seq<u64>)
    requires
        samples.len() >= 3,
        forall|i: int| 0 <= i < samples.len() ==> samples[i] == gap,
        gap % 4 == 0,
        gap / 4 * 5 + 1 <= u64::MAX,
        few.len() < 3,
    ensures
        !silence_exceeds(samples, (gap / 4 * 5) as u64),
        silence_exceeds(samples, (gap / 4 * 5 + 1) as u64),
        !silence_exceeds(few, 60_000_000_000),
        silence_exceeds(few, 60_000_000_001),
{
    lemma_steady_peer(samples, gap, (gap / 4 * 5) as u64);
    lemma_steady_peer(samples, gap, (gap / 4 * 5 + 1) as u64);
}

} // verus!

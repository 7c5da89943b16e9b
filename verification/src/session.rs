//! The life cycle of a loopback session: `Configured`, then `Streaming`,
//! then `Stopped`. The controller decides; its caller activates and stops the
//! streams and reports back what happened.

use vstd::prelude::*;
use crate::config::{prepare_queue, ConfigError, LatencyConfig};
use crate::handles::{CaptureFeeder, PlaybackDrainer};
use crate::model::silence;

verus! {

/// Where a session stands.
#[derive(Clone, Copy, Debug, PartialEq, Eq, Structural)]
pub enum SessionState {
    /// The queue is sized and pre-filled; no stream is active.
    Configured,
    /// Both streams are active.
    Streaming,
    /// No stream is active, and none will be again.
    Stopped,
}

/// The streams the caller has to stop.
#[derive(Clone, Copy, Debug, PartialEq, Eq, Structural)]
pub struct Teardown {
    pub stop_input: bool,
    pub stop_output: bool,
}

/// A session could not be started. Every stream that did come up is named in
/// `teardown` and has to be stopped, so that none is left dangling.
#[derive(Clone, Copy, Debug, PartialEq, Eq, Structural)]
pub struct StreamStartError {
    pub teardown: Teardown,
}

/// Whether a start succeeds: only from `Configured`, and only when both
/// streams came up.
pub open spec fn start_succeeds(
    state: SessionState,
    input_started: bool,
    output_started: bool,
) -> bool {
    state == SessionState::Configured && input_started && output_started
}

/// The state after a start: `Streaming` on success; a failed start ends a
/// configured session, and leaves a session that was not `Configured` where
/// it was.
pub open spec fn state_after_start(
    state: SessionState,
    input_started: bool,
    output_started: bool,
) -> SessionState {
    if start_succeeds(state, input_started, output_started) {
        SessionState::Streaming
    } else if state == SessionState::Configured {
        SessionState::Stopped
    } else {
        state
    }
}

/// The streams to stop when a session stops: both while streaming, none
/// otherwise.
pub open spec fn teardown_on_stop(state: SessionState) -> Teardown {
    Teardown {
        stop_input: state == SessionState::Streaming,
        stop_output: state == SessionState::Streaming,
    }
}

/// The state machine of one session.
pub struct SessionController {
    state: SessionState,
}

impl SessionController {
    /// The state the controller is in.
    pub closed spec fn current(&self) -> SessionState {
        self.state
    }

    /// A controller for a freshly configured session.
    pub fn new() -> (controller: SessionController)
        ensures
            controller.current() == SessionState::Configured,
    {
        SessionController { state: SessionState::Configured }
    }

    /// The state the controller is in.
    pub fn state(&self) -> (state: SessionState)
        ensures
            state == self.current(),
    {
        self.state
    }

    /// Whether the streams may be activated: only a configured session
    /// starts.
    pub fn can_start(&self) -> (b: bool)
        ensures
            b == (self.current() == SessionState::Configured),
    {
        self.state == SessionState::Configured
    }

    /// Takes the outcome of activating the two streams. With both up, a
    /// configured session goes on to `Streaming`. Otherwise the start fails,
    /// and the error names every stream that did come up, for the caller to
    /// stop before it reports the failure.
    pub fn start(&mut self, input_started: bool, output_started: bool) -> (r: Result<
        (),
        StreamStartError,
    >)
        ensures
            final(self).current() == state_after_start(
                old(self).current(),
                input_started,
                output_started,
            ),
            r is Ok <==> start_succeeds(old(self).current(), input_started, output_started),
            r matches Err(e) ==> e.teardown == (Teardown {
                stop_input: input_started,
                stop_output: output_started,
            }),
    {
        if self.state == SessionState::Configured {
            if input_started && output_started {
                self.state = SessionState::Streaming;
                return Ok(());
            }
            self.state = SessionState::Stopped;
        }
        Err(
            StreamStartError {
                teardown: Teardown { stop_input: input_started, stop_output: output_started },
            },
        )
    }

    /// Stops the session. The result names the streams to stop: both when
    /// the session was streaming, none otherwise, so a second stop does
    /// nothing.
    pub fn stop(&mut self) -> (teardown: Teardown)
        ensures
            final(self).current() == SessionState::Stopped,
            teardown == teardown_on_stop(old(self).current()),
    {
        let streaming = self.state == SessionState::Streaming;
        self.state = SessionState::Stopped;
        Teardown { stop_input: streaming, stop_output: streaming }
    }
}

/// Sets a session up: sizes the queue for the configuration, fills it with
/// the latency's worth of silence and splits it. The result is the
/// controller, in `Configured`, and the two ends for the capture and the
/// playback callback: the drainer with the silence as its backlog, the
/// feeder with as many slots of room. A configuration that comes to no queue
/// is refused.
pub fn configure(config: &LatencyConfig) -> (r: Result<
    (SessionController, CaptureFeeder, PlaybackDrainer),
    ConfigError,
>)
    ensures
        match r {
            Ok(parts) => config.refusal() is None && parts.0.current()
                == SessionState::Configured && parts.1.room() == config.samples()
                && parts.1.offers() == Seq::<(u32, bool)>::empty() && parts.2.backlog()
                == silence(config.samples()) && parts.2.pops() == Seq::<Option<u32>>::empty(),
            Err(e) => config.refusal() == Some(e),
        },
{
    match prepare_queue(config) {
        Ok(queue) => {
            let (feeder, drainer) = queue.split();
            Ok((SessionController::new(), feeder, drainer))
        },
        Err(e) => Err(e),
    }
}

/// `Stopped` is terminal: neither a start nor a stop leaves it, and a stop
/// there asks for nothing to be stopped.
pub proof fn lemma_stopped_is_terminal(input_started: bool, output_started: bool)
    ensures
        state_after_start(SessionState::Stopped, input_started, output_started)
            == SessionState::Stopped,
        !start_succeeds(SessionState::Stopped, input_started, output_started),
        teardown_on_stop(SessionState::Stopped) == (Teardown {
            stop_input: false,
            stop_output: false,
        }),
{
}

/// A start never leaves a stream dangling: it succeeds only with both
/// streams up, and after a failed start the session is not streaming unless
/// it was before.
pub proof fn lemma_failed_start_is_not_streaming(
    state: SessionState,
    input_started: bool,
    output_started: bool,
)
    requires
        !start_succeeds(state, input_started, output_started),
        state != SessionState::Streaming,
    ensures
        state_after_start(state, input_started, output_started) != SessionState::Streaming,
{
}

} // verus!

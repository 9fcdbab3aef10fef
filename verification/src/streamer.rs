//! The streaming control loop: a three-state protocol (waiting for start,
//! running, stopped) that gates the sensor array and decides, tick by tick,
//! whether a frame is read and sent, the array is reset, or the session
//! ends. The loop's decisions are verified here; the transports that carry
//! signals in and frames out run outside the library and hand the loop
//! plain values.

use vstd::prelude::*;

use glam::Quat;

use crate::config::ConfigError;
use crate::sensor::SensorArray;
use crate::SENSOR_COUNT;

verus! {

/// A signal from the remote consumer, arriving over the control transport.
#[derive(Clone, Copy, Debug, PartialEq, Eq, Structural)]
pub enum ControlSignal {
    Start,
    Stop,
    Reset,
}

/// The phase the control loop is in.
#[derive(Clone, Copy, Debug, PartialEq, Eq, Structural)]
pub enum ControlState {
    /// Initial: no sampling yet; every signal but `Start` is ignored.
    WaitingStart,
    /// The array runs and one frame is sent per tick.
    Running,
    /// Terminal: the loop has returned; nothing is sent any more.
    Stopped,
}

/// What one tick of the loop does, decided from the state and the polled
/// signal.
#[derive(Clone, Copy, Debug, PartialEq, Eq, Structural)]
pub enum ControlAction {
    /// Nothing: the loop is not running and the signal does not start it.
    Ignore,
    /// Release the sensor array into its sampling loops.
    StartSampling,
    /// Read one frame from the array and send it.
    EmitFrame,
    /// Reset the array, then read and send one frame.
    ResetAndEmit,
    /// Terminate the session with success.
    Finish,
}

/// Why the streamer could not be built.
#[derive(Clone, Copy, Debug, PartialEq, Eq, Structural)]
pub enum StreamerError {
    /// The configuration was rejected; the inner error says why.
    ConfigInvalid(ConfigError),
    /// Fewer devices bound than the array needs.
    DevicesInvalid,
}

impl StreamerError {
    /// The operator-facing description of the failure.
    pub fn message(&self) -> (r: &'static str)
        ensures
            r@ == match self {
                StreamerError::ConfigInvalid(ConfigError::NoValidSocketAddrs) => "config error: config contains no address that the streamer can connect to"@,
                StreamerError::ConfigInvalid(ConfigError::TooManyDevices) => "config error: config contains too many devices"@,
                StreamerError::ConfigInvalid(ConfigError::NotEnoughDevices) => "config error: config does not contain enough devices"@,
                StreamerError::ConfigInvalid(ConfigError::FrequencyIsZero) => "config error: frequency cannot be zero"@,
                StreamerError::DevicesInvalid => "not all devices in config are valid"@,
            },
    {
        match self {
            StreamerError::ConfigInvalid(ConfigError::NoValidSocketAddrs) => {
                "config error: config contains no address that the streamer can connect to"
            },
            StreamerError::ConfigInvalid(ConfigError::TooManyDevices) => {
                "config error: config contains too many devices"
            },
            StreamerError::ConfigInvalid(ConfigError::NotEnoughDevices) => {
                "config error: config does not contain enough devices"
            },
            StreamerError::ConfigInvalid(ConfigError::FrequencyIsZero) => {
                "config error: frequency cannot be zero"
            },
            StreamerError::DevicesInvalid => "not all devices in config are valid",
        }
    }
}

/// The transition table of the control protocol: next state and action for
/// one polled signal (`None` when the transport had nothing pending).
pub open spec fn spec_step(state: ControlState, sig: Option<ControlSignal>) -> (
    ControlState,
    ControlAction,
) {
    match state {
        ControlState::WaitingStart => match sig {
            Some(ControlSignal::Start) => (ControlState::Running, ControlAction::StartSampling),
            _ => (ControlState::WaitingStart, ControlAction::Ignore),
        },
        ControlState::Running => match sig {
            None => (ControlState::Running, ControlAction::EmitFrame),
            // A duplicate `Start` is a logic error of the consumer,
            // suppressed rather than propagated: the tick goes on as if
            // nothing was polled.
            Some(ControlSignal::Start) => (ControlState::Running, ControlAction::EmitFrame),
            Some(ControlSignal::Reset) => (ControlState::Running, ControlAction::ResetAndEmit),
            Some(ControlSignal::Stop) => (ControlState::Stopped, ControlAction::Finish),
        },
        ControlState::Stopped => (ControlState::Stopped, ControlAction::Ignore),
    }
}

/// One transition of the control protocol, exactly as `spec_step` gives it.
pub fn control_step(state: ControlState, sig: Option<ControlSignal>) -> (r: (
    ControlState,
    ControlAction,
))
    ensures
        r == spec_step(state, sig),
{
    match state {
        ControlState::WaitingStart => match sig {
            Some(ControlSignal::Start) => (ControlState::Running, ControlAction::StartSampling),
            _ => (ControlState::WaitingStart, ControlAction::Ignore),
        },
        ControlState::Running => match sig {
            None => (ControlState::Running, ControlAction::EmitFrame),
            Some(ControlSignal::Start) => (ControlState::Running, ControlAction::EmitFrame),
            Some(ControlSignal::Reset) => (ControlState::Running, ControlAction::ResetAndEmit),
            Some(ControlSignal::Stop) => (ControlState::Stopped, ControlAction::Finish),
        },
        ControlState::Stopped => (ControlState::Stopped, ControlAction::Ignore),
    }
}

/// The streaming loop bound to its sensor array: the verified model of one
/// streaming session.
pub struct EpsilonStreamer<const N: usize> {
    pub state: ControlState,
    pub array: SensorArray<N>,
}

impl<const N: usize> EpsilonStreamer<N> {
    /// The array is complete, and it has started exactly when the loop has
    /// left its waiting phase.
    pub open spec fn wf(&self) -> bool {
        &&& self.array.wf()
        &&& (self.state is WaitingStart <==> !self.array.started)
    }

    /// A fresh streamer waits for `Start` over an array that has not
    /// started.
    pub fn new(array: SensorArray<N>) -> (s: EpsilonStreamer<N>)
        requires
            array.wf(),
            !array.started,
        ensures
            s.wf(),
            s.state is WaitingStart,
            s.array == array,
    {
        EpsilonStreamer { state: ControlState::WaitingStart, array }
    }

    /// One tick of the loop: step the protocol on the polled signal and
    /// perform the action on the array. Returns the frame sent this tick,
    /// if one was.
    pub fn tick(&mut self, sig: Option<ControlSignal>) -> (frame: Option<Vec<Quat>>)
        requires
            old(self).wf(),
        ensures
            final(self).wf(),
            final(self).state == spec_step(old(self).state, sig).0,
            final(self).array.homes() == old(self).array.homes(),
            match spec_step(old(self).state, sig).1 {
                ControlAction::Ignore => {
                    &&& final(self).array == old(self).array
                    &&& frame is None
                },
                ControlAction::Finish => {
                    &&& final(self).array == old(self).array
                    &&& frame is None
                },
                ControlAction::StartSampling => {
                    &&& final(self).array.orientations() == old(self).array.orientations()
                    &&& final(self).array.started
                    &&& frame is None
                },
                ControlAction::EmitFrame => {
                    &&& final(self).array == old(self).array
                    &&& frame matches Some(f) && f@ == old(self).array.orientations()
                },
                ControlAction::ResetAndEmit => {
                    &&& final(self).array.orientations() == old(self).array.homes()
                    &&& final(self).array.started == old(self).array.started
                    &&& frame matches Some(f) && f@ == old(self).array.homes()
                },
            },
    {
        let (next, action) = control_step(self.state, sig);
        self.state = next;
        match action {
            ControlAction::Ignore => None,
            ControlAction::Finish => None,
            ControlAction::StartSampling => {
                self.array.start();
                None
            },
            ControlAction::EmitFrame => Some(self.array.read()),
            ControlAction::ResetAndEmit => {
                self.array.reset();
                Some(self.array.read())
            },
        }
    }

    /// Drive a whole session from a script of polled signals, one tick per
    /// entry, collecting every frame that was sent. The frames, the end
    /// state and the end orientations are exactly those of the session
    /// functions, so the protocol laws below apply to what this returns.
    pub fn run(&mut self, script: &Vec<Option<ControlSignal>>) -> (frames: Vec<Vec<Quat>>)
        requires
            old(self).wf(),
        ensures
            final(self).wf(),
            final(self).state == run_state(old(self).state, script@),
            final(self).array.homes() == old(self).array.homes(),
            final(self).array.orientations() == session_orients(
                old(self).state,
                old(self).array.orientations(),
                old(self).array.homes(),
                script@,
            ),
            frame_views(frames@) == session_frames(
                old(self).state,
                old(self).array.orientations(),
                old(self).array.homes(),
                script@,
            ),
    {
        let ghost state0 = self.state;
        let ghost orients0 = self.array.orientations();
        let ghost homes0 = self.array.homes();
        let mut frames: Vec<Vec<Quat>> = Vec::new();
        let mut i: usize = 0;
        proof {
            assert(script@.skip(0) =~= script@);
            assert(frame_views(frames@) =~= Seq::<Seq<Quat>>::empty());
            assert(Seq::<Seq<Quat>>::empty() + session_frames(state0, orients0, homes0, script@)
                =~= session_frames(state0, orients0, homes0, script@));
        }
        while i < script.len()
            invariant
                self.wf(),
                i <= script@.len(),
                self.array.homes() == homes0,
                run_state(state0, script@) == run_state(self.state, script@.skip(i as int)),
                session_orients(state0, orients0, homes0, script@) == session_orients(
                    self.state,
                    self.array.orientations(),
                    homes0,
                    script@.skip(i as int),
                ),
                session_frames(state0, orients0, homes0, script@) =~= frame_views(frames@)
                    + session_frames(
                    self.state,
                    self.array.orientations(),
                    homes0,
                    script@.skip(i as int),
                ),
            decreases script@.len() - i,
        {
            let ghost pre_state = self.state;
            let ghost pre_orients = self.array.orientations();
            let ghost pre_frames = frames@;
            let ghost suffix = script@.skip(i as int);
            let sig = script[i];
            proof {
                assert(suffix[0] == script@[i as int]);
                assert(suffix.drop_first() =~= script@.skip(i as int + 1));
            }
            let frame = self.tick(sig);
            match frame {
                Some(f) => {
                    proof {
                        assert(frame_views(pre_frames.push(f)) =~= frame_views(pre_frames).push(
                            f@,
                        ));
                    }
                    frames.push(f);
                },
                None => {},
            }
            i = i + 1;
            proof {
                let next = spec_step(pre_state, sig).0;
                let act = spec_step(pre_state, sig).1;
                let rest = script@.skip(i as int);
                assert(run_state(pre_state, suffix) == run_state(next, rest));
                if act is EmitFrame {
                    assert(session_orients(pre_state, pre_orients, homes0, suffix)
                        == session_orients(next, pre_orients, homes0, rest));
                    assert(session_frames(pre_state, pre_orients, homes0, suffix) =~= seq![
                        pre_orients,
                    ] + session_frames(next, pre_orients, homes0, rest));
                    assert(frame_views(frames@) =~= frame_views(pre_frames).push(pre_orients));
                    assert(frame_views(pre_frames) + (seq![pre_orients] + session_frames(
                        next,
                        pre_orients,
                        homes0,
                        rest,
                    )) =~= frame_views(frames@) + session_frames(next, pre_orients, homes0, rest));
                } else if act is ResetAndEmit {
                    assert(session_orients(pre_state, pre_orients, homes0, suffix)
                        == session_orients(next, homes0, homes0, rest));
                    assert(session_frames(pre_state, pre_orients, homes0, suffix) =~= seq![
                        homes0,
                    ] + session_frames(next, homes0, homes0, rest));
                    assert(frame_views(frames@) =~= frame_views(pre_frames).push(homes0));
                    assert(frame_views(pre_frames) + (seq![homes0] + session_frames(
                        next,
                        homes0,
                        homes0,
                        rest,
                    )) =~= frame_views(frames@) + session_frames(next, homes0, homes0, rest));
                } else {
                    assert(session_orients(pre_state, pre_orients, homes0, suffix)
                        == session_orients(next, pre_orients, homes0, rest));
                    assert(session_frames(pre_state, pre_orients, homes0, suffix)
                        =~= session_frames(next, pre_orients, homes0, rest));
                    assert(frames@ == pre_frames);
                }
            }
        }
        proof {
            assert(script@.skip(script@.len() as int) =~= Seq::<Option<ControlSignal>>::empty());
            assert(session_frames(
                self.state,
                self.array.orientations(),
                homes0,
                Seq::empty(),
            ) =~= Seq::<Seq<Quat>>::empty());
            assert(frame_views(frames@) + Seq::<Seq<Quat>>::empty() =~= frame_views(frames@));
        }
        frames
    }
}

/// The wire form of a control signal, as the control transport carries it:
/// one byte; a byte that names no signal decodes to nothing.
pub open spec fn spec_decode_signal(b: u8) -> Option<ControlSignal> {
    if b == 0 {
        Some(ControlSignal::Start)
    } else if b == 1 {
        Some(ControlSignal::Stop)
    } else if b == 2 {
        Some(ControlSignal::Reset)
    } else {
        None
    }
}

/// Read one control-transport byte as a signal; an unknown byte is no
/// signal.
pub fn decode_signal(b: u8) -> (r: Option<ControlSignal>)
    ensures
        r == spec_decode_signal(b),
{
    if b == 0 {
        Some(ControlSignal::Start)
    } else if b == 1 {
        Some(ControlSignal::Stop)
    } else if b == 2 {
        Some(ControlSignal::Reset)
    } else {
        None
    }
}

/// The byte a signal travels as; decoding it gives the signal back.
pub fn encode_signal(sig: ControlSignal) -> (b: u8)
    ensures
        spec_decode_signal(b) == Some(sig),
{
    match sig {
        ControlSignal::Start => 0,
        ControlSignal::Stop => 1,
        ControlSignal::Reset => 2,
    }
}

/// The state of the control loop after polling the signals of `script` in
/// order.
pub open spec fn run_state(state: ControlState, script: Seq<Option<ControlSignal>>) -> ControlState
    decreases script.len(),
{
    if script.len() == 0 {
        state
    } else {
        run_state(spec_step(state, script[0]).0, script.drop_first())
    }
}

/// The orientations the array holds after a session that polls `script`: a
/// reset tick returns every worker to its home orientation, and nothing
/// else in a session moves them.
pub open spec fn session_orients(
    state: ControlState,
    orients: Seq<Quat>,
    homes: Seq<Quat>,
    script: Seq<Option<ControlSignal>>,
) -> Seq<Quat>
    decreases script.len(),
{
    if script.len() == 0 {
        orients
    } else {
        let next = spec_step(state, script[0]).0;
        if spec_step(state, script[0]).1 is ResetAndEmit {
            session_orients(next, homes, homes, script.drop_first())
        } else {
            session_orients(next, orients, homes, script.drop_first())
        }
    }
}

/// The frames a session sends, in order: one per running tick, holding the
/// array's orientations at that tick — its homes on the tick of a reset.
pub open spec fn session_frames(
    state: ControlState,
    orients: Seq<Quat>,
    homes: Seq<Quat>,
    script: Seq<Option<ControlSignal>>,
) -> Seq<Seq<Quat>>
    decreases script.len(),
{
    if script.len() == 0 {
        Seq::empty()
    } else {
        let next = spec_step(state, script[0]).0;
        match spec_step(state, script[0]).1 {
            ControlAction::EmitFrame => seq![orients] + session_frames(
                next,
                orients,
                homes,
                script.drop_first(),
            ),
            ControlAction::ResetAndEmit => seq![homes] + session_frames(
                next,
                homes,
                homes,
                script.drop_first(),
            ),
            _ => session_frames(next, orients, homes, script.drop_first()),
        }
    }
}

/// The views of the frames an executable session collected.
pub open spec fn frame_views(frames: Seq<Vec<Quat>>) -> Seq<Seq<Quat>> {
    frames.map_values(|f: Vec<Quat>| f@)
}

/// Law: while the loop waits for `Start`, a script without a `Start` has
/// no effect — the state stays `WaitingStart`, no frame is sent, and the
/// orientations are untouched.
pub proof fn lemma_waiting_ignores_until_start(
    orients: Seq<Quat>,
    homes: Seq<Quat>,
    script: Seq<Option<ControlSignal>>,
)
    requires
        forall|i: int| 0 <= i < script.len() ==> script[i] != Some(ControlSignal::Start),
    ensures
        run_state(ControlState::WaitingStart, script) == ControlState::WaitingStart,
        session_frames(ControlState::WaitingStart, orients, homes, script).len() == 0,
        session_orients(ControlState::WaitingStart, orients, homes, script) == orients,
    decreases script.len(),
{
    if script.len() > 0 {
        assert(script[0] != Some(ControlSignal::Start));
        assert forall|i: int|
            0 <= i < script.drop_first().len() implies script.drop_first()[i] != Some(
            ControlSignal::Start,
        ) by {
            assert(script.drop_first()[i] == script[i + 1]);
        }
        lemma_waiting_ignores_until_start(orients, homes, script.drop_first());
    }
}

/// Law: `Stopped` is terminal — no later signal restarts the loop, no
/// frame is sent after it, and the orientations are untouched.
pub proof fn lemma_stopped_is_terminal(
    orients: Seq<Quat>,
    homes: Seq<Quat>,
    script: Seq<Option<ControlSignal>>,
)
    ensures
        run_state(ControlState::Stopped, script) == ControlState::Stopped,
        session_frames(ControlState::Stopped, orients, homes, script).len() == 0,
        session_orients(ControlState::Stopped, orients, homes, script) == orients,
    decreases script.len(),
{
    if script.len() > 0 {
        lemma_stopped_is_terminal(orients, homes, script.drop_first());
    }
}

/// Law: while running, every tick whose polled signal is not `Stop` sends
/// exactly one frame, and every frame holds one orientation per worker.
pub proof fn lemma_running_emits_every_tick(
    orients: Seq<Quat>,
    homes: Seq<Quat>,
    script: Seq<Option<ControlSignal>>,
)
    requires
        homes.len() == orients.len(),
        forall|i: int| 0 <= i < script.len() ==> script[i] != Some(ControlSignal::Stop),
    ensures
        run_state(ControlState::Running, script) == ControlState::Running,
        session_frames(ControlState::Running, orients, homes, script).len() == script.len(),
        forall|k: int|
            0 <= k < script.len() ==> session_frames(
                ControlState::Running,
                orients,
                homes,
                script,
            )[k].len() == orients.len(),
        session_orients(ControlState::Running, orients, homes, script).len() == orients.len(),
    decreases script.len(),
{
    if script.len() > 0 {
        assert(script[0] != Some(ControlSignal::Stop));
        assert forall|i: int|
            0 <= i < script.drop_first().len() implies script.drop_first()[i] != Some(
            ControlSignal::Stop,
        ) by {
            assert(script.drop_first()[i] == script[i + 1]);
        }
        if spec_step(ControlState::Running, script[0]).1 is ResetAndEmit {
            lemma_running_emits_every_tick(homes, homes, script.drop_first());
        } else {
            lemma_running_emits_every_tick(orients, homes, script.drop_first());
        }
    }
}

/// Law: a session splits — polling `s1 + s2` is polling `s1`, then `s2`
/// from the state and the orientations that `s1` left behind.
pub proof fn lemma_session_append(
    state: ControlState,
    orients: Seq<Quat>,
    homes: Seq<Quat>,
    s1: Seq<Option<ControlSignal>>,
    s2: Seq<Option<ControlSignal>>,
)
    ensures
        run_state(state, s1 + s2) == run_state(run_state(state, s1), s2),
        session_orients(state, orients, homes, s1 + s2) == session_orients(
            run_state(state, s1),
            session_orients(state, orients, homes, s1),
            homes,
            s2,
        ),
        session_frames(state, orients, homes, s1 + s2) =~= session_frames(
            state,
            orients,
            homes,
            s1,
        ) + session_frames(
            run_state(state, s1),
            session_orients(state, orients, homes, s1),
            homes,
            s2,
        ),
    decreases s1.len(),
{
    if s1.len() == 0 {
        assert(s1 + s2 =~= s2);
        assert(session_frames(state, orients, homes, s1) + session_frames(
            state,
            orients,
            homes,
            s2,
        ) =~= session_frames(state, orients, homes, s2));
    } else {
        assert((s1 + s2)[0] == s1[0]);
        assert((s1 + s2).drop_first() =~= s1.drop_first() + s2);
        let next = spec_step(state, s1[0]).0;
        let act = spec_step(state, s1[0]).1;
        if act is ResetAndEmit {
            lemma_session_append(next, homes, homes, s1.drop_first(), s2);
            assert(seq![homes] + (session_frames(next, homes, homes, s1.drop_first())
                + session_frames(
                run_state(next, s1.drop_first()),
                session_orients(next, homes, homes, s1.drop_first()),
                homes,
                s2,
            )) =~= (seq![homes] + session_frames(next, homes, homes, s1.drop_first()))
                + session_frames(
                run_state(next, s1.drop_first()),
                session_orients(next, homes, homes, s1.drop_first()),
                homes,
                s2,
            ));
        } else {
            lemma_session_append(next, orients, homes, s1.drop_first(), s2);
            if act is EmitFrame {
                assert(seq![orients] + (session_frames(next, orients, homes, s1.drop_first())
                    + session_frames(
                    run_state(next, s1.drop_first()),
                    session_orients(next, orients, homes, s1.drop_first()),
                    homes,
                    s2,
                )) =~= (seq![orients] + session_frames(next, orients, homes, s1.drop_first()))
                    + session_frames(
                    run_state(next, s1.drop_first()),
                    session_orients(next, orients, homes, s1.drop_first()),
                    homes,
                    s2,
                ));
            }
        }
    }
}

/// A session of a single tick does exactly what `spec_step` says for it.
proof fn lemma_session_one(
    state: ControlState,
    orients: Seq<Quat>,
    homes: Seq<Quat>,
    sig: Option<ControlSignal>,
)
    ensures
        run_state(state, seq![sig]) == spec_step(state, sig).0,
        session_orients(state, orients, homes, seq![sig]) == (if spec_step(state, sig).1
            is ResetAndEmit {
            homes
        } else {
            orients
        }),
        session_frames(state, orients, homes, seq![sig]).len() == (if spec_step(state, sig).1
            is EmitFrame || spec_step(state, sig).1 is ResetAndEmit {
            1int
        } else {
            0int
        }),
{
    let s = seq![sig];
    let next = spec_step(state, sig).0;
    assert(s.drop_first() =~= Seq::<Option<ControlSignal>>::empty());
    assert(run_state(next, Seq::<Option<ControlSignal>>::empty()) == next);
    assert(session_orients(next, orients, homes, Seq::<Option<ControlSignal>>::empty())
        == orients);
    assert(session_orients(next, homes, homes, Seq::<Option<ControlSignal>>::empty()) == homes);
    assert(session_frames(next, orients, homes, Seq::<Option<ControlSignal>>::empty()).len()
        == 0);
    assert(session_frames(next, homes, homes, Seq::<Option<ControlSignal>>::empty()).len() == 0);
}

/// Law: the whole control protocol. A session that polls `pre` (none of
/// it `Start`), then `Start`, then `mid` (none of it `Stop`), then `Stop`,
/// then anything at all, ends `Stopped` and sends exactly one frame per
/// `mid` tick — none before the `Start` and none after the `Stop`.
pub proof fn lemma_control_protocol(
    orients: Seq<Quat>,
    homes: Seq<Quat>,
    pre: Seq<Option<ControlSignal>>,
    mid: Seq<Option<ControlSignal>>,
    post: Seq<Option<ControlSignal>>,
)
    requires
        homes.len() == orients.len(),
        forall|i: int| 0 <= i < pre.len() ==> pre[i] != Some(ControlSignal::Start),
        forall|i: int| 0 <= i < mid.len() ==> mid[i] != Some(ControlSignal::Stop),
    ensures
        ({
            let script = pre + seq![Some(ControlSignal::Start)] + mid + seq![
                Some(ControlSignal::Stop),
            ] + post;
            &&& run_state(ControlState::WaitingStart, script) == ControlState::Stopped
            &&& session_frames(ControlState::WaitingStart, orients, homes, script).len()
                == mid.len()
            &&& forall|k: int|
                0 <= k < mid.len() ==> session_frames(
                    ControlState::WaitingStart,
                    orients,
                    homes,
                    script,
                )[k].len() == orients.len()
        }),
{
    let start1 = seq![Some(ControlSignal::Start)];
    let stop1 = seq![Some(ControlSignal::Stop)];
    let a2 = pre + start1;
    let a3 = a2 + mid;
    let a4 = a3 + stop1;

    lemma_waiting_ignores_until_start(orients, homes, pre);
    lemma_session_append(ControlState::WaitingStart, orients, homes, pre, start1);
    lemma_session_one(ControlState::WaitingStart, orients, homes, Some(ControlSignal::Start));
    assert(run_state(ControlState::WaitingStart, start1) == ControlState::Running);
    assert(session_frames(ControlState::WaitingStart, orients, homes, start1).len() == 0);
    assert(session_orients(ControlState::WaitingStart, orients, homes, start1) == orients);
    assert(run_state(ControlState::WaitingStart, a2) == ControlState::Running);
    assert(session_frames(ControlState::WaitingStart, orients, homes, a2).len() == 0);
    assert(session_orients(ControlState::WaitingStart, orients, homes, a2) == orients);

    lemma_session_append(ControlState::WaitingStart, orients, homes, a2, mid);
    lemma_running_emits_every_tick(orients, homes, mid);
    let o3 = session_orients(ControlState::Running, orients, homes, mid);
    assert(run_state(ControlState::WaitingStart, a3) == ControlState::Running);
    assert(session_frames(ControlState::WaitingStart, orients, homes, a3) =~= session_frames(
        ControlState::Running,
        orients,
        homes,
        mid,
    ));
    assert(session_frames(ControlState::WaitingStart, orients, homes, a3).len() == mid.len());
    assert(session_orients(ControlState::WaitingStart, orients, homes, a3) == o3);

    lemma_session_append(ControlState::WaitingStart, orients, homes, a3, stop1);
    lemma_session_one(ControlState::Running, o3, homes, Some(ControlSignal::Stop));
    assert(run_state(ControlState::Running, stop1) == ControlState::Stopped);
    assert(session_frames(ControlState::Running, o3, homes, stop1).len() == 0);
    assert(run_state(ControlState::WaitingStart, a4) == ControlState::Stopped);
    assert(session_frames(ControlState::WaitingStart, orients, homes, a4).len() == mid.len());
    let o4 = session_orients(ControlState::WaitingStart, orients, homes, a4);

    lemma_session_append(ControlState::WaitingStart, orients, homes, a4, post);
    lemma_stopped_is_terminal(o4, homes, post);
    assert(run_state(ControlState::WaitingStart, a4 + post) == ControlState::Stopped);
    assert(session_frames(ControlState::WaitingStart, orients, homes, a4) =~= session_frames(
        ControlState::Running,
        orients,
        homes,
        mid,
    ));
    assert(session_frames(ControlState::WaitingStart, orients, homes, a4 + post) =~= session_frames(
        ControlState::Running,
        orients,
        homes,
        mid,
    ));
}

/// The devices among `candidates` that actually bound, in configuration
/// order.
pub open spec fn bound_devices<T>(candidates: Seq<Option<T>>) -> Seq<T>
    decreases candidates.len(),
{
    if candidates.len() == 0 {
        Seq::empty()
    } else {
        match candidates[0] {
            Some(d) => seq![d] + bound_devices(candidates.drop_first()),
            None => bound_devices(candidates.drop_first()),
        }
    }
}

/// Keep the first `SENSOR_COUNT` devices that bound, in configuration
/// order; fewer than `SENSOR_COUNT` valid devices is fatal to startup.
pub fn select_devices<T>(candidates: Vec<Option<T>>) -> (r: Result<Vec<T>, StreamerError>)
    ensures
        match r {
            Ok(devices) => {
                &&& bound_devices(candidates@).len() >= SENSOR_COUNT
                &&& devices@ == bound_devices(candidates@).take(SENSOR_COUNT as int)
            },
            Err(e) => {
                &&& e == StreamerError::DevicesInvalid
                &&& bound_devices(candidates@).len() < SENSOR_COUNT
            },
        },
{
    let ghost all = candidates@;
    let mut rest = candidates;
    let mut devices: Vec<T> = Vec::new();
    while devices.len() < SENSOR_COUNT && rest.len() > 0
        invariant
            devices@.len() <= SENSOR_COUNT,
            bound_devices(all) =~= devices@ + bound_devices(rest@),
        decreases rest@.len(),
    {
        let ghost prev = rest@;
        let candidate = rest.remove(0);
        proof {
            assert(prev.drop_first() =~= rest@);
            assert(bound_devices(prev) == match prev[0] {
                Some(d) => seq![d] + bound_devices(prev.drop_first()),
                None => bound_devices(prev.drop_first()),
            });
        }
        match candidate {
            Some(device) => {
                devices.push(device);
                proof {
                    assert(bound_devices(all) =~= devices@ + bound_devices(rest@));
                }
            },
            None => {},
        }
    }
    if devices.len() < SENSOR_COUNT {
        proof {
            assert(bound_devices(rest@).len() == 0);
            assert(bound_devices(all) =~= devices@);
        }
        Err(StreamerError::DevicesInvalid)
    } else {
        proof {
            assert(devices@ =~= bound_devices(all).take(SENSOR_COUNT as int));
        }
        Ok(devices)
    }
}

} // verus!

use glam::Quat;

use epsilon::config::ConfigError;
use epsilon::remaining_sleep;
use epsilon::sensor::SensorArray;
use epsilon::streamer::{
    control_step, decode_signal, encode_signal, select_devices, ControlAction, ControlSignal,
    ControlState, EpsilonStreamer, StreamerError,
};

#[test]
fn step_table_while_waiting() {
    assert_eq!(
        control_step(ControlState::WaitingStart, Some(ControlSignal::Start)),
        (ControlState::Running, ControlAction::StartSampling)
    );
    assert_eq!(
        control_step(ControlState::WaitingStart, Some(ControlSignal::Stop)),
        (ControlState::WaitingStart, ControlAction::Ignore)
    );
    assert_eq!(
        control_step(ControlState::WaitingStart, Some(ControlSignal::Reset)),
        (ControlState::WaitingStart, ControlAction::Ignore)
    );
    assert_eq!(
        control_step(ControlState::WaitingStart, None),
        (ControlState::WaitingStart, ControlAction::Ignore)
    );
}

#[test]
fn step_table_while_running() {
    assert_eq!(
        control_step(ControlState::Running, None),
        (ControlState::Running, ControlAction::EmitFrame)
    );
    assert_eq!(
        control_step(ControlState::Running, Some(ControlSignal::Start)),
        (ControlState::Running, ControlAction::EmitFrame)
    );
    assert_eq!(
        control_step(ControlState::Running, Some(ControlSignal::Reset)),
        (ControlState::Running, ControlAction::ResetAndEmit)
    );
    assert_eq!(
        control_step(ControlState::Running, Some(ControlSignal::Stop)),
        (ControlState::Stopped, ControlAction::Finish)
    );
}

#[test]
fn step_table_once_stopped() {
    for sig in [
        None,
        Some(ControlSignal::Start),
        Some(ControlSignal::Stop),
        Some(ControlSignal::Reset),
    ] {
        assert_eq!(
            control_step(ControlState::Stopped, sig),
            (ControlState::Stopped, ControlAction::Ignore)
        );
    }
}

#[test]
fn signal_bytes_round_trip() {
    for sig in [ControlSignal::Start, ControlSignal::Stop, ControlSignal::Reset] {
        assert_eq!(decode_signal(encode_signal(sig)), Some(sig));
    }
    assert_eq!(decode_signal(3), None);
    assert_eq!(decode_signal(255), None);
}

#[test]
fn signals_before_start_have_no_effect() {
    let mut streamer: EpsilonStreamer<3> =
        EpsilonStreamer::new(SensorArray::new(vec![Quat::IDENTITY; 3]));
    // Reset, an idle tick, and Stop all arrive before Start: nothing is
    // sent and the loop keeps waiting.
    let script = vec![
        Some(ControlSignal::Reset),
        None,
        Some(ControlSignal::Stop),
    ];
    let frames = streamer.run(&script);
    assert!(frames.is_empty());
    assert_eq!(streamer.state, ControlState::WaitingStart);
}

#[test]
fn one_frame_is_sent_between_start_and_stop() {
    let mut streamer: EpsilonStreamer<3> =
        EpsilonStreamer::new(SensorArray::new(vec![Quat::IDENTITY; 3]));
    let script = vec![
        Some(ControlSignal::Reset),
        None,
        Some(ControlSignal::Stop),
        Some(ControlSignal::Start),
        None,
        Some(ControlSignal::Stop),
        None,
        Some(ControlSignal::Reset),
    ];
    let frames = streamer.run(&script);
    // Only the tick between Start and Stop sent a frame; the ticks after
    // Stop sent none.
    assert_eq!(frames.len(), 1);
    assert_eq!(frames[0].len(), 3);
    assert_eq!(streamer.state, ControlState::Stopped);
}

#[test]
fn stop_on_first_running_tick_sends_nothing() {
    let mut streamer: EpsilonStreamer<3> =
        EpsilonStreamer::new(SensorArray::new(vec![Quat::IDENTITY; 3]));
    let script = vec![Some(ControlSignal::Start), Some(ControlSignal::Stop)];
    let frames = streamer.run(&script);
    assert!(frames.is_empty());
    assert_eq!(streamer.state, ControlState::Stopped);
}

#[test]
fn duplicate_start_is_suppressed_and_the_tick_still_sends() {
    let mut streamer: EpsilonStreamer<3> =
        EpsilonStreamer::new(SensorArray::new(vec![Quat::IDENTITY; 3]));
    let script = vec![
        Some(ControlSignal::Start),
        Some(ControlSignal::Start),
        Some(ControlSignal::Stop),
    ];
    let frames = streamer.run(&script);
    assert_eq!(frames.len(), 1);
    assert_eq!(streamer.state, ControlState::Stopped);
}

#[test]
fn reset_tick_sends_the_home_frame() {
    let mut array: SensorArray<2> = SensorArray::new(vec![Quat::IDENTITY; 2]);
    array.start();
    array.apply_sample(0, Quat::from_xyzw(0.0, 1.0, 0.0, 0.0));
    array.apply_sample(1, Quat::from_xyzw(1.0, 0.0, 0.0, 0.0));
    let mut streamer = EpsilonStreamer::<2> {
        state: ControlState::Running,
        array,
    };
    let script = vec![None, Some(ControlSignal::Reset), None];
    let frames = streamer.run(&script);
    assert_eq!(frames.len(), 3);
    // The first frame still holds the perturbed orientations.
    assert_eq!(frames[0][0], Quat::from_xyzw(0.0, 1.0, 0.0, 0.0));
    // The reset tick and every later one hold the home orientations.
    assert_eq!(frames[1], vec![Quat::IDENTITY; 2]);
    assert_eq!(frames[2], vec![Quat::IDENTITY; 2]);
}

#[test]
fn seven_device_session_streams_full_frames() {
    let mut streamer: EpsilonStreamer<7> =
        EpsilonStreamer::new(SensorArray::new(vec![Quat::IDENTITY; 7]));
    let mut script = vec![Some(ControlSignal::Start)];
    for _ in 0..5 {
        script.push(None);
    }
    script.push(Some(ControlSignal::Stop));
    let frames = streamer.run(&script);
    assert_eq!(frames.len(), 5);
    for frame in &frames {
        assert_eq!(frame.len(), 7);
        for q in frame {
            assert_eq!(*q, Quat::IDENTITY);
        }
    }
    assert_eq!(streamer.state, ControlState::Stopped);
}

#[test]
fn select_devices_keeps_the_bound_ones_in_order() {
    let candidates: Vec<Option<u32>> = vec![
        Some(10),
        None,
        Some(11),
        Some(12),
        Some(13),
        None,
        Some(14),
        Some(15),
        Some(16),
    ];
    let devices = select_devices(candidates).unwrap();
    assert_eq!(devices, vec![10, 11, 12, 13, 14, 15, 16]);
}

#[test]
fn select_devices_takes_an_exact_fit() {
    let candidates: Vec<Option<u32>> = (0..7).map(Some).collect();
    assert_eq!(select_devices(candidates).unwrap(), vec![0, 1, 2, 3, 4, 5, 6]);
}

#[test]
fn select_devices_fails_on_an_empty_list() {
    let candidates: Vec<Option<u32>> = Vec::new();
    assert_eq!(
        select_devices(candidates),
        Err(StreamerError::DevicesInvalid)
    );
}

#[test]
fn select_devices_fails_when_too_few_bind() {
    let candidates: Vec<Option<u32>> = vec![Some(1), None, Some(2), None, Some(3), Some(4)];
    assert_eq!(
        select_devices(candidates),
        Err(StreamerError::DevicesInvalid)
    );
}

#[test]
fn streamer_error_messages_name_the_fault() {
    assert_eq!(
        StreamerError::DevicesInvalid.message(),
        "not all devices in config are valid"
    );
    assert_eq!(
        StreamerError::ConfigInvalid(ConfigError::FrequencyIsZero).message(),
        "config error: frequency cannot be zero"
    );
}

#[test]
fn sleep_fills_the_period_and_never_underflows() {
    assert_eq!(remaining_sleep(10_000_000, 4_000_000), 6_000_000);
    assert_eq!(remaining_sleep(10_000_000, 10_000_000), 0);
    assert_eq!(remaining_sleep(10_000_000, 25_000_000), 0);
    assert_eq!(remaining_sleep(0, 0), 0);
}

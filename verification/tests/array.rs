use glam::Quat;

use epsilon::sensor::{Command, SensorArray, WorkerAction, WorkerCore};

fn distinct_quats(n: usize) -> Vec<Quat> {
    let mut v = Vec::new();
    for i in 0..n {
        v.push(Quat::from_xyzw(0.0, 0.0, 0.0, 1.0 + i as f32));
    }
    v
}

#[test]
fn worker_starts_at_home() {
    let home = Quat::from_xyzw(0.5, 0.5, 0.5, 0.5);
    let w = WorkerCore::new(home);
    assert_eq!(w.orientation(), home);
}

#[test]
fn worker_update_replaces_orientation() {
    let mut w = WorkerCore::new(Quat::IDENTITY);
    let q = Quat::from_xyzw(0.1, 0.2, 0.3, 0.9);
    w.update(q);
    assert_eq!(w.orientation(), q);
}

#[test]
fn worker_read_command_publishes_current_orientation() {
    let mut w = WorkerCore::new(Quat::IDENTITY);
    let q = Quat::from_xyzw(0.1, 0.2, 0.3, 0.9);
    w.update(q);
    let action = w.handle_command(Some(Command::Read));
    assert_eq!(action, WorkerAction::Publish(q));
    assert_eq!(w.orientation(), q);
}

#[test]
fn worker_reset_command_recalibrates_and_goes_home() {
    let mut w = WorkerCore::new(Quat::IDENTITY);
    w.update(Quat::from_xyzw(0.1, 0.2, 0.3, 0.9));
    let action = w.handle_command(Some(Command::Reset));
    assert_eq!(action, WorkerAction::Recalibrate);
    assert_eq!(w.orientation(), Quat::IDENTITY);
}

#[test]
fn worker_without_command_proceeds_unchanged() {
    let mut w = WorkerCore::new(Quat::IDENTITY);
    let q = Quat::from_xyzw(0.1, 0.2, 0.3, 0.9);
    w.update(q);
    let action = w.handle_command(None);
    assert_eq!(action, WorkerAction::Proceed);
    assert_eq!(w.orientation(), q);
}

#[test]
fn read_returns_distinct_orientations_in_device_order() {
    let quats = distinct_quats(3);
    let mut array: SensorArray<3> = SensorArray::new(vec![Quat::IDENTITY; 3]);
    array.start();
    for (i, q) in quats.iter().enumerate() {
        array.apply_sample(i, *q);
    }
    let frame = array.read();
    assert_eq!(frame.len(), 3);
    for i in 0..3 {
        assert_eq!(frame[i], quats[i]);
    }
}

#[test]
fn read_is_repeatable_between_samples() {
    let mut array: SensorArray<3> = SensorArray::new(distinct_quats(3));
    array.start();
    let first = array.read();
    let second = array.read();
    assert_eq!(first, second);
}

#[test]
fn reset_returns_every_worker_to_identity() {
    let homes = vec![Quat::IDENTITY; 3];
    let mut array: SensorArray<3> = SensorArray::new(homes);
    array.start();
    for (i, q) in distinct_quats(3).into_iter().enumerate() {
        array.apply_sample(i, q);
    }
    array.reset();
    let frame = array.read();
    for i in 0..3 {
        assert_eq!(frame[i], Quat::IDENTITY);
    }
}

#[test]
fn reset_spares_no_perturbed_worker() {
    let mut array: SensorArray<2> = SensorArray::new(vec![Quat::IDENTITY; 2]);
    array.start();
    array.apply_sample(1, Quat::from_xyzw(0.0, 1.0, 0.0, 0.0));
    array.reset();
    let frame = array.read();
    assert_eq!(frame[0], Quat::IDENTITY);
    assert_eq!(frame[1], Quat::IDENTITY);
}

//! The sensor side of the system: the command protocol between the
//! controlling thread and its workers, the verified state of one worker,
//! and the sensor array at the level the barriers guarantee — between
//! commands every worker holds one orientation, a `read` observes all of
//! them at one instant in device-index order, and a `reset` returns every
//! worker to its home orientation.
//!
//! The sampling loop around this state — device reads, the floating-point
//! filter, channels, barriers and sleeps — runs outside the library and
//! drives it through `WorkerCore::update` and `WorkerCore::handle_command`.

use vstd::prelude::*;

use glam::Quat;

use crate::config::Device;

verus! {

/// A command sent from the array's controlling thread to exactly one
/// worker.
#[derive(Clone, Copy, Debug, PartialEq, Eq, Structural)]
pub enum Command {
    /// Report the current orientation, then wait at the collective barrier.
    Read,
    /// Recalibrate, return to the home orientation, then wait at the
    /// collective barrier.
    Reset,
}

/// What the sampling loop must do right after its worker handled a polled
/// command.
#[derive(Clone, Copy, Debug, PartialEq)]
pub enum WorkerAction {
    /// Send this orientation on the output channel, then arrive at the
    /// collective barrier.
    Publish(Quat),
    /// Re-run calibration, then arrive at the collective barrier.
    Recalibrate,
    /// No command was pending: go on sampling without blocking.
    Proceed,
}

/// An attempt to bind a physical device failed.
#[derive(Clone, Copy, Debug, PartialEq, Eq, Structural)]
pub struct DeviceBindError;

/// Builds a device handle from one configuration entry. Implemented
/// outside the library by the actual driver; binding touches the bus and
/// may fail.
pub trait FromDevice: Sized {
    fn from_device(device: Device) -> Result<Self, DeviceBindError>;
}

/// The verified state of one sensor worker: the orientation its filter
/// currently reports, and the home orientation it was constructed with and
/// returns to on reset.
pub struct WorkerCore {
    pub home: Quat,
    pub orientation: Quat,
}

impl WorkerCore {
    /// A fresh worker reports its home orientation until a sample arrives.
    pub fn new(home: Quat) -> (w: WorkerCore)
        ensures
            w.home == home,
            w.orientation == home,
    {
        let orientation = home.clone();
        WorkerCore { home, orientation }
    }

    /// Store the orientation the filter produced for the newest sample.
    pub fn update(&mut self, orientation: Quat)
        ensures
            final(self).orientation == orientation,
            final(self).home == old(self).home,
    {
        self.orientation = orientation;
    }

    /// The current orientation estimate; read-only.
    pub fn orientation(&self) -> (r: Quat)
        ensures
            r == self.orientation,
    {
        self.orientation.clone()
    }

    /// Dispatch one polled command: `Read` publishes the current
    /// orientation and leaves the state alone, `Reset` returns the worker
    /// to its home orientation and asks for recalibration, no command lets
    /// the loop proceed unchanged.
    pub fn handle_command(&mut self, cmd: Option<Command>) -> (a: WorkerAction)
        ensures
            final(self).home == old(self).home,
            match cmd {
                None => {
                    &&& a == WorkerAction::Proceed
                    &&& final(self).orientation == old(self).orientation
                },
                Some(Command::Read) => {
                    &&& a == WorkerAction::Publish(old(self).orientation)
                    &&& final(self).orientation == old(self).orientation
                },
                Some(Command::Reset) => {
                    &&& a == WorkerAction::Recalibrate
                    &&& final(self).orientation == old(self).home
                },
            },
    {
        match cmd {
            None => WorkerAction::Proceed,
            Some(Command::Read) => WorkerAction::Publish(self.orientation.clone()),
            Some(Command::Reset) => {
                self.orientation = self.home.clone();
                WorkerAction::Recalibrate
            },
        }
    }
}

/// The sensor array: `N` workers in device-index order plus the started
/// flag of the start barrier. Array-wide operations are lock-step: the
/// barriers let no worker run ahead while one is observed, so a frame is a
/// snapshot of all `N` orientations at one instant.
pub struct SensorArray<const N: usize> {
    pub workers: Vec<WorkerCore>,
    pub started: bool,
}

impl<const N: usize> SensorArray<N> {
    /// One worker per device index, none missing.
    pub open spec fn wf(&self) -> bool {
        self.workers@.len() == N
    }

    /// The orientations the workers currently hold, in device-index order.
    pub open spec fn orientations(&self) -> Seq<Quat> {
        self.workers@.map_values(|w: WorkerCore| w.orientation)
    }

    /// The home orientations the workers were constructed with.
    pub open spec fn homes(&self) -> Seq<Quat> {
        self.workers@.map_values(|w: WorkerCore| w.home)
    }

    /// Build the array: worker `i` gets `homes[i]` as its home orientation.
    /// The array has not started; `start` must come before the first read
    /// or reset.
    pub fn new(homes: Vec<Quat>) -> (a: SensorArray<N>)
        requires
            homes@.len() == N,
        ensures
            a.wf(),
            !a.started,
            a.orientations() == homes@,
            a.homes() == homes@,
    {
        let mut workers: Vec<WorkerCore> = Vec::new();
        let mut i: usize = 0;
        while i < homes.len()
            invariant
                homes@.len() == N,
                i <= N,
                workers@.len() == i,
                forall|j: int| 0 <= j < i ==> workers@[j].home == homes@[j],
                forall|j: int| 0 <= j < i ==> workers@[j].orientation == homes@[j],
            decreases N - i,
        {
            workers.push(WorkerCore::new(homes[i].clone()));
            i = i + 1;
        }
        let a = SensorArray { workers, started: false };
        assert(a.orientations() =~= homes@);
        assert(a.homes() =~= homes@);
        a
    }

    /// Release all workers into their sampling loops at once. Happens
    /// exactly once.
    pub fn start(&mut self)
        requires
            !old(self).started,
        ensures
            final(self).started,
            final(self).workers == old(self).workers,
    {
        self.started = true;
    }

    /// One lock-step read: every worker reports, and the frame holds
    /// worker `i`'s orientation at index `i`.
    pub fn read(&self) -> (frame: Vec<Quat>)
        requires
            self.wf(),
            self.started,
        ensures
            frame@.len() == N,
            frame@ == self.orientations(),
    {
        let mut frame: Vec<Quat> = Vec::new();
        let mut i: usize = 0;
        while i < self.workers.len()
            invariant
                self.wf(),
                i <= N,
                frame@.len() == i,
                forall|j: int| 0 <= j < i ==> frame@[j] == self.workers@[j].orientation,
            decreases N - i,
        {
            frame.push(self.workers[i].orientation());
            i = i + 1;
        }
        assert(frame@ =~= self.orientations());
        frame
    }

    /// Array-wide reset: every worker handles a `Reset` command, so all of
    /// them recalibrate and return to their home orientations.
    pub fn reset(&mut self)
        requires
            old(self).wf(),
            old(self).started,
        ensures
            final(self).wf(),
            final(self).started,
            final(self).homes() == old(self).homes(),
            final(self).orientations() == old(self).homes(),
    {
        let n = self.workers.len();
        let mut i: usize = 0;
        while i < n
            invariant
                n == N,
                self.workers@.len() == N,
                self.started == old(self).started,
                i <= N,
                forall|j: int| 0 <= j < i ==> self.workers@[j].home == old(self).workers@[j].home,
                forall|j: int| 0 <= j < i ==> self.workers@[j].orientation == old(self).workers@[j].home,
                forall|j: int| i <= j < N ==> self.workers@[j] == old(self).workers@[j],
            decreases N - i,
        {
            let _ = self.workers[i].handle_command(Some(Command::Reset));
            i = i + 1;
        }
        assert(self.homes() =~= old(self).homes());
        assert(self.orientations() =~= old(self).homes());
    }

    /// Record the orientation the sampling loop computed for worker `i`.
    pub fn apply_sample(&mut self, i: usize, orientation: Quat)
        requires
            old(self).wf(),
            old(self).started,
            i < N,
        ensures
            final(self).wf(),
            final(self).started,
            final(self).homes() == old(self).homes(),
            final(self).orientations() == old(self).orientations().update(i as int, orientation),
    {
        self.workers[i].update(orientation);
        assert(self.homes() =~= old(self).homes());
        assert(self.orientations() =~= old(self).orientations().update(i as int, orientation));
    }
}

} // verus!

//! Device telemetry: the live metrics, the recording flag and the recorded
//! history.
//!
//! Sensor readings are single-precision IEEE-754 numbers. They are stored and
//! passed around as their 32-bit patterns, which this module never interprets:
//! it only moves them.

use vstd::prelude::*;
use vstd::rwlock::{RwLock, RwLockPredicate};

verus! {

/// Bit pattern of `25.0`, the temperature reported before any reading arrives.
pub const INITIAL_TEMPERATURE: u32 = 0x41C8_0000;

/// Bit pattern of `100.0`, the battery level reported before any reading
/// arrives.
pub const INITIAL_BATTERY_LEVEL: u32 = 0x42C8_0000;

/// One snapshot of the device's sensors.
///
/// Every numeric field holds the bit pattern of a single-precision float.
/// Equality is equality of bit patterns.
#[derive(Clone, Copy, Debug, PartialEq, Eq)]
pub struct HardwareMetrics {
    pub cpu_load: u32,
    pub temperature: u32,
    pub battery_level: u32,
    pub rotation: [u32; 3],
    pub acceleration: [u32; 3],
    pub display_on: bool,
}

impl HardwareMetrics {
    /// The metrics of a device that has not reported anything yet: no load,
    /// 25 degrees, a full battery, no rotation, no acceleration, display on.
    pub open spec fn initial() -> HardwareMetrics {
        HardwareMetrics {
            cpu_load: 0,
            temperature: INITIAL_TEMPERATURE,
            battery_level: INITIAL_BATTERY_LEVEL,
            rotation: [0u32, 0u32, 0u32],
            acceleration: [0u32, 0u32, 0u32],
            display_on: true,
        }
    }

    /// These metrics with the rotation replaced by `(x, y, z)`.
    pub open spec fn with_rotation(self, x: u32, y: u32, z: u32) -> HardwareMetrics {
        HardwareMetrics { rotation: [x, y, z], ..self }
    }

    /// `other` differs from these metrics in nothing but, possibly, the
    /// rotation and the display flag.
    pub open spec fn same_fixed_readings(self, other: HardwareMetrics) -> bool {
        other == HardwareMetrics { rotation: other.rotation, display_on: other.display_on, ..self }
    }

    /// These metrics with the display flag flipped.
    pub open spec fn with_display_toggled(self) -> HardwareMetrics {
        HardwareMetrics { display_on: !self.display_on, ..self }
    }
}

/// Mathematical model of a telemetry store: the live metrics, whether a
/// recording session is open, and the snapshots recorded so far, oldest first.
pub struct Telemetry {
    pub metrics: HardwareMetrics,
    pub recording: bool,
    pub history: Seq<HardwareMetrics>,
}

impl Telemetry {
    /// The store of a device that has just been switched on.
    pub open spec fn initial() -> Telemetry {
        Telemetry { metrics: HardwareMetrics::initial(), recording: false, history: Seq::empty() }
    }

    /// The store after the rotation was set to `(x, y, z)`: the live metrics
    /// carry the new rotation and, while a session is open, the history gains
    /// the metrics as they are after the change.
    pub open spec fn update_rotation(self, x: u32, y: u32, z: u32) -> Telemetry {
        let metrics = self.metrics.with_rotation(x, y, z);
        Telemetry {
            metrics,
            recording: self.recording,
            history: if self.recording {
                self.history.push(metrics)
            } else {
                self.history
            },
        }
    }

    /// The store after the display was toggled.
    pub open spec fn toggle_display(self) -> Telemetry {
        Telemetry { metrics: self.metrics.with_display_toggled(), ..self }
    }

    /// The store after a recording session was opened: whatever was recorded
    /// before is gone.
    pub open spec fn start_recording(self) -> Telemetry {
        Telemetry { metrics: self.metrics, recording: true, history: Seq::empty() }
    }

    /// The store after the recording session was closed: the history stays.
    pub open spec fn stop_recording(self) -> Telemetry {
        Telemetry { recording: false, ..self }
    }

    /// The live metrics as they are once the rotation is set to `rotation`:
    /// nothing but the rotation differs.
    pub open spec fn snapshot(self, rotation: [u32; 3]) -> HardwareMetrics {
        self.metrics.with_rotation(rotation[0], rotation[1], rotation[2])
    }

    /// The store after the rotation was set to each element of `rotations` in
    /// turn, first element first.
    pub open spec fn update_rotations(self, rotations: Seq<[u32; 3]>) -> Telemetry
        decreases rotations.len(),
    {
        if rotations.len() == 0 {
            self
        } else {
            let last = rotations.last();
            self.update_rotations(rotations.drop_last()).update_rotation(last[0], last[1], last[2])
        }
    }
}

/// While a session is open, setting the rotation `n` times adds exactly `n`
/// snapshots to the history, in call order: each is the live metrics with the
/// rotation of its call, and what was recorded before stays in front of them.
pub proof fn lemma_open_session_records_every_update(before: Telemetry, rotations: Seq<[u32; 3]>)
    requires
        before.recording,
    ensures
        ({
            let after = before.update_rotations(rotations);
            let recorded = before.history.len() as int;
            &&& after.recording
            &&& after.history.len() == recorded + rotations.len()
            &&& after.history.subrange(0, recorded) == before.history
            &&& forall|i: int|
                0 <= i < rotations.len() ==> #[trigger] after.history[recorded + i]
                    == before.snapshot(rotations[i])
        }),
    decreases rotations.len(),
{
    let after = before.update_rotations(rotations);
    let recorded = before.history.len() as int;
    if rotations.len() == 0 {
        assert(after.history.subrange(0, recorded) == before.history);
    } else {
        let earlier = rotations.drop_last();
        let middle = before.update_rotations(earlier);
        lemma_open_session_records_every_update(before, earlier);
        lemma_updates_touch_only_rotation(before, earlier);
        assert(after.history.subrange(0, recorded) == middle.history.subrange(0, recorded));
        assert forall|i: int| 0 <= i < rotations.len() implies #[trigger] after.history[recorded
            + i] == before.snapshot(rotations[i]) by {
            if i < earlier.len() {
                assert(after.history[recorded + i] == middle.history[recorded + i]);
                assert(earlier[i] == rotations[i]);
            }
        }
    }
}

/// Setting the rotation any number of times changes nothing of the live
/// metrics but the rotation, which is that of the last call, and leaves the
/// recording flag as it was.
pub proof fn lemma_updates_touch_only_rotation(before: Telemetry, rotations: Seq<[u32; 3]>)
    ensures
        ({
            let after = before.update_rotations(rotations);
            &&& after.recording == before.recording
            &&& rotations.len() > 0 ==> after.metrics == before.snapshot(rotations.last())
            &&& rotations.len() == 0 ==> after == before
        }),
    decreases rotations.len(),
{
    if rotations.len() > 0 {
        lemma_updates_touch_only_rotation(before, rotations.drop_last());
    }
}

/// A session that is opened and then sees the rotation set `n` times holds
/// exactly the `n` snapshots of those calls, in call order, whatever was
/// recorded before it was opened; closing it hands out just these.
pub proof fn lemma_session_holds_its_updates(before: Telemetry, rotations: Seq<[u32; 3]>)
    ensures
        ({
            let recorded = before.start_recording().update_rotations(rotations);
            &&& recorded.history.len() == rotations.len()
            &&& forall|i: int|
                0 <= i < rotations.len() ==> #[trigger] recorded.history[i] == before.snapshot(
                    rotations[i],
                )
            &&& recorded.stop_recording().history == recorded.history
        }),
{
    let opened = before.start_recording();
    let recorded = opened.update_rotations(rotations);
    lemma_open_session_records_every_update(opened, rotations);
    assert forall|i: int| 0 <= i < rotations.len() implies #[trigger] recorded.history[i]
        == before.snapshot(rotations[i]) by {
        assert(recorded.history[opened.history.len() + i] == opened.snapshot(rotations[i]));
    }
}

/// Closing a session keeps the history, and closing it again changes nothing:
/// both calls hand out the same snapshots.
pub proof fn lemma_stop_recording_is_repeatable(before: Telemetry)
    ensures
        before.stop_recording().history == before.history,
        before.stop_recording().stop_recording() == before.stop_recording(),
{
}

/// Owner of the device's telemetry.
pub struct HardwareManager {
    pub metrics: HardwareMetrics,
    pub recording: bool,
    pub history: Vec<HardwareMetrics>,
}

impl View for HardwareManager {
    type V = Telemetry;

    open spec fn view(&self) -> Telemetry {
        Telemetry { metrics: self.metrics, recording: self.recording, history: self.history@ }
    }
}

impl HardwareManager {
    /// A manager for a device that has just been switched on.
    pub fn new() -> (manager: Self)
        ensures
            manager@ == Telemetry::initial(),
    {
        HardwareManager {
            metrics: HardwareMetrics {
                cpu_load: 0,
                temperature: INITIAL_TEMPERATURE,
                battery_level: INITIAL_BATTERY_LEVEL,
                rotation: [0, 0, 0],
                acceleration: [0, 0, 0],
                display_on: true,
            },
            recording: false,
            history: Vec::new(),
        }
    }

    /// Flips the display flag and returns its new value.
    pub fn toggle_display(&mut self) -> (display_on: bool)
        ensures
            final(self)@ == old(self)@.toggle_display(),
            display_on == !old(self)@.metrics.display_on,
    {
        self.metrics.display_on = !self.metrics.display_on;
        self.metrics.display_on
    }

    /// Replaces the rotation of the live metrics by `(x, y, z)`, given as bit
    /// patterns, and, while a recording session is open, appends the updated
    /// metrics to the history.
    pub fn update_rotation(&mut self, x: u32, y: u32, z: u32)
        ensures
            final(self)@ == old(self)@.update_rotation(x, y, z),
    {
        self.metrics.rotation = [x, y, z];
        if self.recording {
            self.history.push(self.metrics);
        }
    }

    /// Opens a recording session, discarding whatever was recorded before.
    pub fn start_recording(&mut self)
        ensures
            final(self)@ == old(self)@.start_recording(),
            final(self)@.recording,
            final(self)@.history.len() == 0,
    {
        self.history.clear();
        self.recording = true;
    }

    /// Closes the recording session and returns a copy of the history, which
    /// the manager keeps until the next session is opened.
    pub fn stop_recording(&mut self) -> (snapshots: Vec<HardwareMetrics>)
        ensures
            final(self)@ == old(self)@.stop_recording(),
            snapshots@ == old(self)@.history,
    {
        self.recording = false;
        self.history.clone()
    }

    /// A copy of the live metrics.
    pub fn get_metrics(&self) -> (metrics: HardwareMetrics)
        ensures
            metrics == self@.metrics,
    {
        self.metrics
    }
}

/// One operation on a telemetry store.
pub enum TelemetryOp {
    /// The rotation is set to the three bit patterns.
    UpdateRotation(u32, u32, u32),
    /// The display is toggled.
    ToggleDisplay,
    /// A recording session is opened.
    StartRecording,
    /// The recording session is closed.
    StopRecording,
}

impl Telemetry {
    /// The store after `op`.
    pub open spec fn apply(self, op: TelemetryOp) -> Telemetry {
        match op {
            TelemetryOp::UpdateRotation(x, y, z) => self.update_rotation(x, y, z),
            TelemetryOp::ToggleDisplay => self.toggle_display(),
            TelemetryOp::StartRecording => self.start_recording(),
            TelemetryOp::StopRecording => self.stop_recording(),
        }
    }

    /// The store after the operations of `ops`, first element first.
    pub open spec fn apply_all(self, ops: Seq<TelemetryOp>) -> Telemetry
        decreases ops.len(),
    {
        if ops.len() == 0 {
            self
        } else {
            self.apply_all(ops.drop_last()).apply(ops.last())
        }
    }

    /// Some sequence of operations leads from this store to `other`.
    pub open spec fn reaches(self, other: Telemetry) -> bool {
        exists|ops: Seq<TelemetryOp>| other == #[trigger] self.apply_all(ops)
    }
}

/// A store reaches itself, by no operation at all.
pub proof fn lemma_telemetry_reaches_itself(store: Telemetry)
    ensures
        store.reaches(store),
{
    assert(store == store.apply_all(Seq::<TelemetryOp>::empty()));
}

/// What a store reaches, it still reaches after one more operation.
pub proof fn lemma_telemetry_reaches_next(origin: Telemetry, store: Telemetry, op: TelemetryOp)
    requires
        origin.reaches(store),
    ensures
        origin.reaches(store.apply(op)),
{
    let ops = choose|ops: Seq<TelemetryOp>| store == #[trigger] origin.apply_all(ops);
    assert(ops.push(op).drop_last() == ops);
    assert(store.apply(op) == origin.apply_all(ops.push(op)));
}

/// No sequence of operations changes a reading other than the rotation and
/// the display flag: whatever a store reaches carries its load, temperature,
/// battery level and acceleration, in the live metrics and in every snapshot
/// recorded on the way.
pub proof fn lemma_reached_store_keeps_fixed_readings(origin: Telemetry, store: Telemetry)
    requires
        origin.reaches(store),
    ensures
        origin.metrics.same_fixed_readings(store.metrics),
        forall|i: int|
            0 <= i < store.history.len() ==> origin.metrics.same_fixed_readings(
                #[trigger] store.history[i],
            ) || (i < origin.history.len() && store.history[i] == origin.history[i]),
{
    let ops = choose|ops: Seq<TelemetryOp>| store == #[trigger] origin.apply_all(ops);
    lemma_operations_keep_fixed_readings(origin, ops);
}

/// The statement of [`lemma_reached_store_keeps_fixed_readings`] for a given
/// sequence of operations.
pub proof fn lemma_operations_keep_fixed_readings(origin: Telemetry, ops: Seq<TelemetryOp>)
    ensures
        origin.metrics.same_fixed_readings(origin.apply_all(ops).metrics),
        forall|i: int|
            0 <= i < origin.apply_all(ops).history.len() ==> origin.metrics.same_fixed_readings(
                #[trigger] origin.apply_all(ops).history[i],
            ) || (i < origin.history.len() && origin.apply_all(ops).history[i]
                == origin.history[i]),
    decreases ops.len(),
{
    if ops.len() > 0 {
        lemma_operations_keep_fixed_readings(origin, ops.drop_last());
    }
}

/// What the lock of a [`SharedHardware`] admits: the stores that the
/// operations of a telemetry store lead to from `origin`.
pub struct ReachableTelemetry {
    pub origin: Telemetry,
}

impl RwLockPredicate<HardwareManager> for ReachableTelemetry {
    open spec fn inv(self, manager: HardwareManager) -> bool {
        self.origin.reaches(manager@)
    }
}

/// A telemetry store that many callers share.
///
/// Each operation takes the store's lock, runs the operation of the same name
/// on the [`HardwareManager`] inside, and releases the lock, so that callers
/// see every operation as a whole. What another caller does between two
/// operations is not known. So the contracts here do not say which state a
/// call finds or leaves; they say that whatever a call reads is a state that
/// the store's operations lead to from the state it was created with. Those
/// of [`HardwareManager`] say what each operation does to the state it finds.
pub struct SharedHardware {
    lock: RwLock<HardwareManager, ReachableTelemetry>,
}

impl SharedHardware {
    /// The state that the store was created with.
    pub closed spec fn origin(&self) -> Telemetry {
        self.lock.pred().origin
    }

    /// The store may be found in `state`: its operations lead there from the
    /// state it was created with.
    pub open spec fn may_hold(&self, state: Telemetry) -> bool {
        self.origin().reaches(state)
    }

    /// A shared store for a device that has just been switched on.
    pub fn new() -> (shared: Self)
        ensures
            shared.origin() == Telemetry::initial(),
    {
        let manager = HardwareManager::new();
        proof {
            lemma_telemetry_reaches_itself(manager@);
        }
        SharedHardware {
            lock: RwLock::new(manager, Ghost(ReachableTelemetry { origin: Telemetry::initial() })),
        }
    }

    /// Flips the display flag and returns its new value: the opposite of the
    /// flag of the state that the call found, which is one that the store may
    /// hold.
    pub fn toggle_display(&self) -> (display_on: bool)
        ensures
            exists|found: Telemetry| #[trigger]
                self.may_hold(found) && display_on == !found.metrics.display_on,
    {
        let (mut manager, handle) = self.lock.acquire_write();
        let ghost found = manager@;
        let display_on = manager.toggle_display();
        proof {
            lemma_telemetry_reaches_next(self.origin(), found, TelemetryOp::ToggleDisplay);
            assert(self.may_hold(found));
        }
        handle.release_write(manager);
        display_on
    }

    /// Replaces the rotation of the live metrics by `(x, y, z)`, given as bit
    /// patterns; an open session records the change.
    pub fn update_rotation(&self, x: u32, y: u32, z: u32) {
        let (mut manager, handle) = self.lock.acquire_write();
        let ghost found = manager@;
        manager.update_rotation(x, y, z);
        proof {
            let op = TelemetryOp::UpdateRotation(x, y, z);
            lemma_telemetry_reaches_next(self.origin(), found, op);
        }
        handle.release_write(manager);
    }

    /// Opens a recording session, discarding whatever was recorded before.
    pub fn start_recording(&self) {
        let (mut manager, handle) = self.lock.acquire_write();
        let ghost found = manager@;
        manager.start_recording();
        proof {
            lemma_telemetry_reaches_next(self.origin(), found, TelemetryOp::StartRecording);
        }
        handle.release_write(manager);
    }

    /// Closes the recording session and returns a copy of the history as the
    /// call found it: the history of a state that the store may hold, which
    /// the closing leaves as it is.
    pub fn stop_recording(&self) -> (snapshots: Vec<HardwareMetrics>)
        ensures
            exists|found: Telemetry| #[trigger]
                self.may_hold(found) && snapshots@ == found.stop_recording().history,
    {
        let (mut manager, handle) = self.lock.acquire_write();
        let ghost found = manager@;
        let snapshots = manager.stop_recording();
        proof {
            lemma_telemetry_reaches_next(self.origin(), found, TelemetryOp::StopRecording);
            assert(self.may_hold(found));
        }
        handle.release_write(manager);
        snapshots
    }

    /// A copy of the live metrics as they were at some moment of the call:
    /// the metrics of a state that the store may hold.
    pub fn get_metrics(&self) -> (metrics: HardwareMetrics)
        ensures
            exists|found: Telemetry| #[trigger] self.may_hold(found) && metrics == found.metrics,
    {
        let handle = self.lock.acquire_read();
        let metrics = handle.borrow().get_metrics();
        proof {
            assert(self.may_hold(handle.view()@));
        }
        handle.release_read();
        metrics
    }
}

} // verus!

//! The automation kernel: its running flag and its bounded audit log.

use vstd::prelude::*;
use vstd::rwlock::{RwLock, RwLockPredicate};

verus! {

/// Number of entries the audit log holds at most.
pub const MAX_LOG_ENTRIES: usize = 100;

/// One line of the audit log.
#[derive(Debug)]
pub struct LogEntry {
    pub timestamp: String,
    pub level: String,
    pub message: String,
}

/// Mathematical model of a log entry: its three texts.
pub struct LogRecord {
    pub timestamp: Seq<char>,
    pub level: Seq<char>,
    pub message: Seq<char>,
}

impl View for LogEntry {
    type V = LogRecord;

    open spec fn view(&self) -> LogRecord {
        LogRecord { timestamp: self.timestamp@, level: self.level@, message: self.message@ }
    }
}

impl Clone for LogEntry {
    fn clone(&self) -> (copy: Self)
        ensures
            copy == *self,
    {
        LogEntry {
            timestamp: self.timestamp.clone(),
            level: self.level.clone(),
            message: self.message.clone(),
        }
    }
}

/// A snapshot of the kernel: whether it runs, its accumulated run time, the
/// names of its processes and its audit log, oldest entry first.
#[derive(Debug)]
pub struct KernelState {
    pub is_running: bool,
    pub uptime: u64,
    pub processes: Vec<String>,
    pub logs: Vec<LogEntry>,
}

/// Mathematical model of a kernel snapshot.
pub struct KernelModel {
    pub is_running: bool,
    pub uptime: u64,
    pub processes: Seq<Seq<char>>,
    pub logs: Seq<LogRecord>,
}

impl View for KernelState {
    type V = KernelModel;

    open spec fn view(&self) -> KernelModel {
        KernelModel {
            is_running: self.is_running,
            uptime: self.uptime,
            processes: self.processes@.map_values(|name: String| name@),
            logs: self.logs@.map_values(|entry: LogEntry| entry@),
        }
    }
}

impl Clone for KernelState {
    fn clone(&self) -> (copy: Self)
        ensures
            copy@ == self@,
    {
        let copy = KernelState {
            is_running: self.is_running,
            uptime: self.uptime,
            processes: self.processes.clone(),
            logs: self.logs.clone(),
        };
        assert(copy.processes@ =~= self.processes@);
        assert(copy.logs@ =~= self.logs@);
        copy
    }
}

impl KernelModel {
    /// The kernel as it is created: stopped, with nothing logged.
    pub open spec fn initial() -> KernelModel {
        KernelModel { is_running: false, uptime: 0, processes: Seq::empty(), logs: Seq::empty() }
    }

    /// The log never holds more than `MAX_LOG_ENTRIES` entries.
    pub open spec fn wf(self) -> bool {
        self.logs.len() <= MAX_LOG_ENTRIES
    }

    /// The kernel after `record` was logged: the record is the newest entry,
    /// and a full log has given up its oldest entry to make room.
    pub open spec fn log(self, record: LogRecord) -> KernelModel {
        let kept = if self.logs.len() >= MAX_LOG_ENTRIES {
            self.logs.drop_first()
        } else {
            self.logs
        };
        KernelModel { logs: kept.push(record), ..self }
    }

    /// The kernel after a line with the given texts was logged.
    pub open spec fn logged(
        self,
        timestamp: Seq<char>,
        level: Seq<char>,
        message: Seq<char>,
    ) -> KernelModel {
        self.log(LogRecord { timestamp, level, message })
    }

    /// The kernel after it was started at `timestamp`: it runs, and the start
    /// is logged whether or not it ran before.
    pub open spec fn start(self, timestamp: Seq<char>) -> KernelModel {
        KernelModel { is_running: true, ..self }.logged(
            timestamp,
            "INFO"@,
            "kernel initialized"@,
        )
    }

    /// The kernel after it was stopped at `timestamp`: it does not run, and
    /// the stop is logged whether or not it ran before.
    pub open spec fn stop(self, timestamp: Seq<char>) -> KernelModel {
        KernelModel { is_running: false, ..self }.logged(
            timestamp,
            "WARN"@,
            "kernel halted"@,
        )
    }

    /// The kernel after a toggle at `timestamp`: stopped if it ran, started
    /// if it did not.
    pub open spec fn toggle(self, timestamp: Seq<char>) -> KernelModel {
        if self.is_running {
            self.stop(timestamp)
        } else {
            self.start(timestamp)
        }
    }

    /// The kernel after each element of `records` was logged in turn, first
    /// element first.
    pub open spec fn log_all(self, records: Seq<LogRecord>) -> KernelModel
        decreases records.len(),
    {
        if records.len() == 0 {
            self
        } else {
            self.log_all(records.drop_last()).log(records.last())
        }
    }
}

/// The newest `MAX_LOG_ENTRIES` elements of `entries`, in their order, or all
/// of `entries` where there are no more than that.
pub open spec fn newest_entries(entries: Seq<LogRecord>) -> Seq<LogRecord> {
    if entries.len() > MAX_LOG_ENTRIES {
        entries.subrange(entries.len() - MAX_LOG_ENTRIES, entries.len() as int)
    } else {
        entries
    }
}

/// Logging one record keeps the log within its bound and touches nothing but
/// the log. The record becomes the newest entry; the entries before it are
/// the old ones in their order, without the oldest if the log was full.
pub proof fn lemma_log_evicts_oldest_only(before: KernelModel, record: LogRecord)
    requires
        before.wf(),
    ensures
        ({
            let after = before.log(record);
            &&& after.wf()
            &&& after == KernelModel { logs: after.logs, ..before }
            &&& after.logs == newest_entries(before.logs.push(record))
            &&& after.logs.last() == record
            &&& before.logs.len() < MAX_LOG_ENTRIES ==> after.logs.drop_last() == before.logs
            &&& before.logs.len() == MAX_LOG_ENTRIES ==> after.logs.drop_last()
                == before.logs.drop_first()
        }),
{
    let after = before.log(record);
    assert(after.logs =~= newest_entries(before.logs.push(record)));
    if before.logs.len() < MAX_LOG_ENTRIES {
        assert(after.logs.drop_last() =~= before.logs);
    } else {
        assert(after.logs.drop_last() =~= before.logs.drop_first());
    }
}

/// Logging any number of records keeps the log within its bound, after every
/// one of them, and touches nothing but the log: it holds the newest entries
/// of the old log followed by the records, in that order, so that whatever
/// was dropped was older than everything kept.
pub proof fn lemma_log_holds_newest(before: KernelModel, records: Seq<LogRecord>)
    requires
        before.wf(),
    ensures
        ({
            let after = before.log_all(records);
            &&& after.wf()
            &&& after == KernelModel { logs: after.logs, ..before }
            &&& after.logs == newest_entries(before.logs + records)
        }),
    decreases records.len(),
{
    if records.len() == 0 {
        assert(before.logs + records =~= before.logs);
    } else {
        let earlier = records.drop_last();
        let middle = before.log_all(earlier);
        lemma_log_holds_newest(before, earlier);
        lemma_log_evicts_oldest_only(middle, records.last());
        let all = before.logs + earlier;
        assert(all.push(records.last()) =~= before.logs + records);
        assert(newest_entries(newest_entries(all).push(records.last())) =~= newest_entries(
            all.push(records.last()),
        ));
    }
}

/// Starting leaves the kernel running and stopping leaves it stopped,
/// whatever its state was; both keep the log within its bound.
pub proof fn lemma_start_and_stop_set_the_flag(before: KernelModel, timestamp: Seq<char>)
    requires
        before.wf(),
    ensures
        before.start(timestamp).is_running,
        !before.stop(timestamp).is_running,
        before.toggle(timestamp).is_running == !before.is_running,
        before.start(timestamp).wf(),
        before.stop(timestamp).wf(),
        before.toggle(timestamp).wf(),
{
}

/// Where a caller stands in a toggle that first reads whether the kernel
/// runs and then, as a second operation, stops or starts it.
pub enum TogglePhase {
    /// The caller has not read yet.
    Idle,
    /// The caller has read the given flag and has not acted on it yet.
    Read(bool),
    /// The caller has acted.
    Done,
}

/// Two callers that toggle one kernel at once. Each operation of a caller is
/// atomic; the operations of the two may interleave in any order.
pub struct ToggleRace {
    pub kernel: KernelModel,
    pub first: TogglePhase,
    pub second: TogglePhase,
}

impl ToggleRace {
    /// Both callers are about to toggle `kernel`.
    pub open spec fn begin(kernel: KernelModel) -> ToggleRace {
        ToggleRace { kernel, first: TogglePhase::Idle, second: TogglePhase::Idle }
    }

    /// The next operation of a caller in phase `phase`, made at `timestamp`:
    /// the kernel and the caller's phase after it. A caller that is done does
    /// nothing.
    pub open spec fn advance(kernel: KernelModel, phase: TogglePhase, timestamp: Seq<char>) -> (
        KernelModel,
        TogglePhase,
    ) {
        match phase {
            TogglePhase::Idle => (kernel, TogglePhase::Read(kernel.is_running)),
            TogglePhase::Read(running) => (
                if running {
                    kernel.stop(timestamp)
                } else {
                    kernel.start(timestamp)
                },
                TogglePhase::Done,
            ),
            TogglePhase::Done => (kernel, TogglePhase::Done),
        }
    }

    /// The race after the second caller, if `second_moves`, or else the
    /// first, made its next operation at `timestamp`.
    pub open spec fn step(self, second_moves: bool, timestamp: Seq<char>) -> ToggleRace {
        if second_moves {
            let (kernel, second) = Self::advance(self.kernel, self.second, timestamp);
            ToggleRace { kernel, first: self.first, second }
        } else {
            let (kernel, first) = Self::advance(self.kernel, self.first, timestamp);
            ToggleRace { kernel, first, second: self.second }
        }
    }

    /// The race after the operations of `schedule`, first element first. An
    /// element says which caller moves and at what instant.
    pub open spec fn run(self, schedule: Seq<(bool, Seq<char>)>) -> ToggleRace
        decreases schedule.len(),
    {
        if schedule.len() == 0 {
            self
        } else {
            let last = schedule.last();
            self.run(schedule.drop_last()).step(last.0, last.1)
        }
    }

    /// Both callers have acted.
    pub open spec fn finished(self) -> bool {
        self.first is Done && self.second is Done
    }

    /// `self` can come out of a race for the stopped kernel `origin`.
    pub open spec fn follows(self, origin: KernelModel) -> bool {
        let acted = (if self.first is Done {
            1int
        } else {
            0int
        }) + (if self.second is Done {
            1int
        } else {
            0int
        });
        &&& acted == 0 ==> {
            &&& self.kernel == origin
            &&& self.first matches TogglePhase::Read(running) ==> !running
            &&& self.second matches TogglePhase::Read(running) ==> !running
        }
        &&& acted == 1 ==> started_once(origin, self.kernel)
        &&& acted == 2 ==> toggled_twice(origin, self.kernel)
    }
}

/// `kernel` is `origin` after one start.
pub open spec fn started_once(origin: KernelModel, kernel: KernelModel) -> bool {
    exists|at: Seq<char>| kernel == #[trigger] origin.start(at)
}

/// `kernel` is `origin` after a start that was followed by a second start or
/// by a stop.
pub open spec fn toggled_twice(origin: KernelModel, kernel: KernelModel) -> bool {
    exists|at: Seq<char>, then: Seq<char>|
        kernel == #[trigger] origin.start(at).start(then) || kernel == #[trigger] origin.start(
            at,
        ).stop(then)
}

/// Two callers that toggle a stopped kernel at once never leave it in a state
/// that no sequence of starts and stops could have produced, however their
/// reads and changes interleave. The log stays within its bound throughout.
/// Once both have acted the kernel was started and then either started again,
/// which leaves it running with two start lines logged, or stopped, which
/// leaves it stopped with a start line and a stop line logged.
pub proof fn lemma_concurrent_toggles_stay_consistent(
    origin: KernelModel,
    schedule: Seq<(bool, Seq<char>)>,
)
    requires
        origin.wf(),
        !origin.is_running,
    ensures
        ({
            let race = ToggleRace::begin(origin).run(schedule);
            &&& race.kernel.wf()
            &&& race.follows(origin)
            &&& race.finished() ==> toggled_twice(origin, race.kernel)
        }),
    decreases schedule.len(),
{
    if schedule.len() > 0 {
        let last = schedule.last();
        let earlier = ToggleRace::begin(origin).run(schedule.drop_last());
        lemma_concurrent_toggles_stay_consistent(origin, schedule.drop_last());
        lemma_toggle_operation_stays_consistent(origin, earlier, last.0, last.1);
    }
}

/// One operation of either caller keeps a race within what can come out of
/// it, and the log within its bound.
pub proof fn lemma_toggle_operation_stays_consistent(
    origin: KernelModel,
    race: ToggleRace,
    second_moves: bool,
    timestamp: Seq<char>,
)
    requires
        origin.wf(),
        !origin.is_running,
        race.kernel.wf(),
        race.follows(origin),
    ensures
        race.step(second_moves, timestamp).kernel.wf(),
        race.step(second_moves, timestamp).follows(origin),
{
    let next = race.step(second_moves, timestamp);
    let mover = if second_moves {
        race.second
    } else {
        race.first
    };
    let other = if second_moves {
        race.first
    } else {
        race.second
    };
    lemma_start_and_stop_set_the_flag(race.kernel, timestamp);
    match mover {
        TogglePhase::Idle => {},
        TogglePhase::Read(running) => {
            if other is Done {
                let at = choose|at: Seq<char>| race.kernel == #[trigger] origin.start(at);
                assert(next.kernel == origin.start(at).start(timestamp) || next.kernel
                    == origin.start(at).stop(timestamp));
            } else {
                assert(next.kernel == origin.start(timestamp));
            }
        },
        TogglePhase::Done => {},
    }
}

/// The current instant as an RFC 3339 text.
///
/// Calls `chrono::Utc::now` and renders the result with
/// `chrono::DateTime::to_rfc3339`. The text depends on the clock, so nothing
/// is claimed of it. `now` panics where the system clock stands before 1970.
#[verifier::external_body]
fn current_timestamp() -> (timestamp: String) {
    chrono::Utc::now().to_rfc3339()
}

/// Owner of the kernel's state.
pub struct KernelManager {
    state: KernelState,
}

impl View for KernelManager {
    type V = KernelModel;

    closed spec fn view(&self) -> KernelModel {
        self.state@
    }
}

impl KernelManager {
    #[verifier::type_invariant]
    spec fn log_is_bounded(&self) -> bool {
        self.state@.wf()
    }

    /// A stopped kernel with an empty log.
    pub fn new() -> (manager: Self)
        ensures
            manager@ == KernelModel::initial(),
    {
        let manager = KernelManager {
            state: KernelState {
                is_running: false,
                uptime: 0,
                processes: Vec::new(),
                logs: Vec::new(),
            },
        };
        assert(manager.state@.processes =~= Seq::empty());
        assert(manager.state@.logs =~= Seq::empty());
        manager
    }

    /// Appends a line stamped `timestamp` to the log. A log that is full
    /// drops its oldest entry first.
    pub fn log_at(&mut self, timestamp: String, level: &str, message: &str)
        ensures
            final(self)@ == old(self)@.logged(timestamp@, level@, message@),
            final(self)@.wf(),
    {
        proof {
            use_type_invariant(&*self);
        }
        let entry = LogEntry { timestamp, level: level.to_owned(), message: message.to_owned() };
        let ghost before = self.state.logs@;
        let mut logs: Vec<LogEntry> = Vec::new();
        core::mem::swap(&mut self.state.logs, &mut logs);
        if logs.len() >= MAX_LOG_ENTRIES {
            logs.remove(0);
        }
        logs.push(entry);
        proof {
            let kept = if before.len() >= MAX_LOG_ENTRIES {
                before.drop_first()
            } else {
                before
            };
            let render = |e: LogEntry| e@;
            assert(logs@ == kept.push(entry));
            assert(kept.push(entry).map_values(render) =~= kept.map_values(render).push(entry@));
            if before.len() >= MAX_LOG_ENTRIES {
                assert(before.drop_first().map_values(render) =~= before.map_values(
                    render,
                ).drop_first());
            }
        }
        self.state.logs = logs;
    }

    /// Appends a line stamped with the current instant to the log.
    pub fn log(&mut self, level: &str, message: &str)
        ensures
            exists|timestamp: Seq<char>|
                final(self)@ == #[trigger] old(self)@.logged(timestamp, level@, message@),
            final(self)@.wf(),
    {
        let timestamp = current_timestamp();
        let ghost stamp = timestamp@;
        self.log_at(timestamp, level, message);
        assert(self@ == old(self)@.logged(stamp, level@, message@));
    }

    /// Starts the kernel and logs the start with the stamp `timestamp`,
    /// whether or not the kernel ran before.
    pub fn start_at(&mut self, timestamp: String)
        ensures
            final(self)@ == old(self)@.start(timestamp@),
            final(self)@.is_running,
            final(self)@.wf(),
    {
        proof {
            use_type_invariant(&*self);
        }
        self.state.is_running = true;
        self.log_at(timestamp, "INFO", "kernel initialized");
    }

    /// Starts the kernel and logs the start with the current instant,
    /// whether or not the kernel ran before.
    pub fn start(&mut self)
        ensures
            exists|timestamp: Seq<char>| final(self)@ == #[trigger] old(self)@.start(timestamp),
            final(self)@.is_running,
            final(self)@.wf(),
    {
        let timestamp = current_timestamp();
        let ghost stamp = timestamp@;
        self.start_at(timestamp);
        assert(self@ == old(self)@.start(stamp));
    }

    /// Stops the kernel and logs the stop with the stamp `timestamp`,
    /// whether or not the kernel ran before.
    pub fn stop_at(&mut self, timestamp: String)
        ensures
            final(self)@ == old(self)@.stop(timestamp@),
            !final(self)@.is_running,
            final(self)@.wf(),
    {
        proof {
            use_type_invariant(&*self);
        }
        self.state.is_running = false;
        self.log_at(timestamp, "WARN", "kernel halted");
    }

    /// Stops the kernel and logs the stop with the current instant, whether
    /// or not the kernel ran before.
    pub fn stop(&mut self)
        ensures
            exists|timestamp: Seq<char>| final(self)@ == #[trigger] old(self)@.stop(timestamp),
            !final(self)@.is_running,
            final(self)@.wf(),
    {
        let timestamp = current_timestamp();
        let ghost stamp = timestamp@;
        self.stop_at(timestamp);
        assert(self@ == old(self)@.stop(stamp));
    }

    /// Stops a running kernel and starts a stopped one, logging the change
    /// with the stamp `timestamp`. Returns whether the kernel runs afterwards.
    pub fn toggle_at(&mut self, timestamp: String) -> (running: bool)
        ensures
            final(self)@ == old(self)@.toggle(timestamp@),
            running == !old(self)@.is_running,
            running == final(self)@.is_running,
            final(self)@.wf(),
    {
        if self.state.is_running {
            self.stop_at(timestamp);
            false
        } else {
            self.start_at(timestamp);
            true
        }
    }

    /// Stops a running kernel and starts a stopped one, logging the change
    /// with the current instant. Returns whether the kernel runs afterwards.
    pub fn toggle(&mut self) -> (running: bool)
        ensures
            exists|timestamp: Seq<char>| final(self)@ == #[trigger] old(self)@.toggle(timestamp),
            running == !old(self)@.is_running,
            running == final(self)@.is_running,
            final(self)@.wf(),
    {
        let timestamp = current_timestamp();
        let ghost stamp = timestamp@;
        let running = self.toggle_at(timestamp);
        assert(self@ == old(self)@.toggle(stamp));
        running
    }

    /// A copy of the kernel's state.
    pub fn get_state(&self) -> (state: KernelState)
        ensures
            state@ == self@,
            state@.wf(),
    {
        proof {
            use_type_invariant(self);
        }
        self.state.clone()
    }
}

/// One operation on a kernel.
pub enum KernelOp {
    /// The record is logged.
    Log(LogRecord),
    /// The kernel is started at the given instant.
    Start(Seq<char>),
    /// The kernel is stopped at the given instant.
    Stop(Seq<char>),
}

impl KernelModel {
    /// The kernel after `op`.
    pub open spec fn apply(self, op: KernelOp) -> KernelModel {
        match op {
            KernelOp::Log(record) => self.log(record),
            KernelOp::Start(timestamp) => self.start(timestamp),
            KernelOp::Stop(timestamp) => self.stop(timestamp),
        }
    }

    /// The kernel after the operations of `ops`, first element first.
    pub open spec fn apply_all(self, ops: Seq<KernelOp>) -> KernelModel
        decreases ops.len(),
    {
        if ops.len() == 0 {
            self
        } else {
            self.apply_all(ops.drop_last()).apply(ops.last())
        }
    }

    /// Some sequence of operations leads from this kernel to `other`.
    pub open spec fn reaches(self, other: KernelModel) -> bool {
        exists|ops: Seq<KernelOp>| other == #[trigger] self.apply_all(ops)
    }
}

/// A kernel reaches itself, by no operation at all.
pub proof fn lemma_kernel_reaches_itself(kernel: KernelModel)
    ensures
        kernel.reaches(kernel),
{
    assert(kernel == kernel.apply_all(Seq::<KernelOp>::empty()));
}

/// What a kernel reaches, it still reaches after one more operation.
pub proof fn lemma_kernel_reaches_next(origin: KernelModel, kernel: KernelModel, op: KernelOp)
    requires
        origin.reaches(kernel),
    ensures
        origin.reaches(kernel.apply(op)),
{
    let ops = choose|ops: Seq<KernelOp>| kernel == #[trigger] origin.apply_all(ops);
    assert(ops.push(op).drop_last() == ops);
    assert(kernel.apply(op) == origin.apply_all(ops.push(op)));
}

/// No sequence of operations touches the run time or the processes, and none
/// takes the log beyond its bound.
pub proof fn lemma_reached_kernel_keeps_reserved_fields(origin: KernelModel, kernel: KernelModel)
    requires
        origin.reaches(kernel),
    ensures
        kernel.uptime == origin.uptime,
        kernel.processes == origin.processes,
        origin.wf() ==> kernel.wf(),
{
    let ops = choose|ops: Seq<KernelOp>| kernel == #[trigger] origin.apply_all(ops);
    lemma_operations_keep_reserved_fields(origin, ops);
}

/// The statement of [`lemma_reached_kernel_keeps_reserved_fields`] for a
/// given sequence of operations.
pub proof fn lemma_operations_keep_reserved_fields(origin: KernelModel, ops: Seq<KernelOp>)
    ensures
        origin.apply_all(ops).uptime == origin.uptime,
        origin.apply_all(ops).processes == origin.processes,
        origin.wf() ==> origin.apply_all(ops).wf(),
    decreases ops.len(),
{
    if ops.len() > 0 {
        lemma_operations_keep_reserved_fields(origin, ops.drop_last());
    }
}

/// What the lock of a [`SharedKernel`] admits: the kernels that the
/// operations of a kernel lead to from `origin`.
pub struct ReachableKernel {
    pub origin: KernelModel,
}

impl RwLockPredicate<KernelManager> for ReachableKernel {
    open spec fn inv(self, manager: KernelManager) -> bool {
        self.origin.reaches(manager@)
    }
}

/// A kernel that many callers share.
///
/// Each operation but [`toggle`](SharedKernel::toggle) takes the kernel's
/// lock, runs the operation of the same name on the [`KernelManager`] inside,
/// and releases the lock, so that callers see it as a whole. What another
/// caller does between two operations is not known. So the contracts here do
/// not say which state a call finds or leaves; they say that whatever a call
/// reads is a state that the kernel's operations lead to from the state it
/// was created with. Those of [`KernelManager`] say what each operation does
/// to the state it finds.
pub struct SharedKernel {
    lock: RwLock<KernelManager, ReachableKernel>,
}

impl SharedKernel {
    /// The state that the kernel was created with.
    pub closed spec fn origin(&self) -> KernelModel {
        self.lock.pred().origin
    }

    /// The kernel may be found in `state`: its operations lead there from the
    /// state it was created with.
    pub open spec fn may_hold(&self, state: KernelModel) -> bool {
        self.origin().reaches(state)
    }

    /// A shared kernel, stopped and with an empty log.
    pub fn new() -> (shared: Self)
        ensures
            shared.origin() == KernelModel::initial(),
    {
        let manager = KernelManager::new();
        proof {
            lemma_kernel_reaches_itself(manager@);
        }
        SharedKernel {
            lock: RwLock::new(manager, Ghost(ReachableKernel { origin: KernelModel::initial() })),
        }
    }

    /// Appends a line stamped with the current instant to the log.
    pub fn log(&self, level: &str, message: &str) {
        let (mut manager, handle) = self.lock.acquire_write();
        let ghost found = manager@;
        manager.log(level, message);
        proof {
            let timestamp = choose|timestamp: Seq<char>|
                manager@ == #[trigger] found.logged(timestamp, level@, message@);
            let record = LogRecord { timestamp, level: level@, message: message@ };
            lemma_kernel_reaches_next(self.origin(), found, KernelOp::Log(record));
        }
        handle.release_write(manager);
    }

    /// Starts the kernel and logs the start.
    pub fn start(&self) {
        let (mut manager, handle) = self.lock.acquire_write();
        let ghost found = manager@;
        manager.start();
        proof {
            let timestamp = choose|timestamp: Seq<char>|
                manager@ == #[trigger] found.start(timestamp);
            lemma_kernel_reaches_next(self.origin(), found, KernelOp::Start(timestamp));
        }
        handle.release_write(manager);
    }

    /// Stops the kernel and logs the stop.
    pub fn stop(&self) {
        let (mut manager, handle) = self.lock.acquire_write();
        let ghost found = manager@;
        manager.stop();
        proof {
            let timestamp = choose|timestamp: Seq<char>|
                manager@ == #[trigger] found.stop(timestamp);
            lemma_kernel_reaches_next(self.origin(), found, KernelOp::Stop(timestamp));
        }
        handle.release_write(manager);
    }

    /// A copy of the kernel's state as it was at some moment of the call: a
    /// state that the kernel may hold.
    pub fn get_state(&self) -> (state: KernelState)
        ensures
            self.may_hold(state@),
            state@.wf(),
    {
        let handle = self.lock.acquire_read();
        let state = handle.borrow().get_state();
        handle.release_read();
        state
    }

    /// Reads whether the kernel runs, then stops it if it did and starts it
    /// if it did not, and returns the opposite of what was read: of the flag
    /// of a state that the kernel may hold.
    ///
    /// The read and the change are two operations: another caller may act
    /// between them. Two callers that toggle a stopped kernel at once may
    /// both read "stopped" and both start it, which leaves it running with
    /// two start lines in the log.
    pub fn toggle(&self) -> (running: bool)
        ensures
            exists|found: KernelModel| #[trigger]
                self.may_hold(found) && running == !found.is_running,
    {
        let running = self.get_state().is_running;
        if running {
            self.stop();
        } else {
            self.start();
        }
        !running
    }
}

} // verus!

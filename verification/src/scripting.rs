//! The script host: short automation scripts that act on the telemetry store
//! and on the kernel through four host functions and nothing else.
//!
//! Scripts are written in Rhai and run by its interpreter, which is set up
//! without any of Rhai's function packages: a script has the language itself,
//! with its operators on numbers and texts, and the functions bound here.
//!
//! | script call              | effect                                      |
//! |--------------------------|---------------------------------------------|
//! | `set_rotation(x, y, z)`  | [`SharedHardware::update_rotation`]         |
//! | `log(message)`           | [`SharedKernel::log`] at level `SCRIPT`     |
//! | `kernel_start()`         | [`SharedKernel::start`]                     |
//! | `kernel_stop()`          | [`SharedKernel::stop`]                      |
//!
//! Each call takes effect at once, in the order in which the script makes it.
//! A script that fails is not undone: what it did before the failing
//! statement stays in effect. A run is bounded: it may spend
//! `MAX_SCRIPT_OPERATIONS` operations, no value it builds may grow beyond
//! `MAX_SCRIPT_DATA_SIZE`, calls and expressions nest to a fixed depth, and
//! it can neither evaluate text as a script nor define a function without a
//! name. With that, whether a script succeeds and how it fails is a matter
//! of its text alone: [`script_verdict`].

use crate::hardware::{
    lemma_telemetry_reaches_itself, lemma_telemetry_reaches_next, SharedHardware, Telemetry,
    TelemetryOp,
};
use crate::kernel::{
    lemma_kernel_reaches_itself, lemma_kernel_reaches_next, lemma_log_evicts_oldest_only,
    KernelModel, KernelOp, LogRecord, SharedKernel, MAX_LOG_ENTRIES,
};
use std::sync::Arc;
use vstd::prelude::*;

verus! {

/// Rhai's interpreter, `rhai::Engine`, as a value that is carried around
/// and never looked into.
#[verifier::external_type_specification]
#[verifier::external_body]
pub struct ExEngine(rhai::Engine);

/// Name under which scripts set the device's rotation.
pub const HOST_SET_ROTATION: &'static str = "set_rotation";

/// Name under which scripts write to the kernel's log.
pub const HOST_LOG: &'static str = "log";

/// Name under which scripts start the kernel.
pub const HOST_KERNEL_START: &'static str = "kernel_start";

/// Name under which scripts stop the kernel.
pub const HOST_KERNEL_STOP: &'static str = "kernel_stop";

/// Level of the log lines that scripts write.
pub const SCRIPT_LOG_LEVEL: &'static str = "SCRIPT";

/// Number of interpreter operations a single run may spend.
pub const MAX_SCRIPT_OPERATIONS: u64 = 1_000_000;

/// Size that no value of a script may exceed: the bytes of its texts, the
/// elements of its arrays and the properties of its object maps, each
/// counted with what is nested in the value.
pub const MAX_SCRIPT_DATA_SIZE: usize = 4096;

/// Number of script functions that may be in the middle of a call at once.
pub const MAX_SCRIPT_CALL_LEVELS: usize = 8;

/// Depth to which expressions and statements may nest outside functions.
pub const MAX_SCRIPT_EXPRESSION_DEPTH: usize = 32;

/// Depth to which expressions and statements may nest inside a function.
pub const MAX_SCRIPT_FUNCTION_EXPRESSION_DEPTH: usize = 16;

/// The keyword that scripts may not use: it runs a text as a script within
/// the script, to any depth.
pub const FORBIDDEN_KEYWORD: &'static str = "eval";

/// What the interpreter reported when a script failed, as far as the host
/// tells failures apart.
#[derive(Clone, Copy, Debug, PartialEq, Eq, Structural)]
pub enum FailureKind {
    /// The script's text could not be parsed.
    Parsing,
    /// The run spent its operations.
    TooManyOperations,
    /// Anything else: an unknown function or variable, arguments of the wrong
    /// number or type, a failed operation.
    Other,
}

/// Why a script failed, with the interpreter's description of the failure.
#[derive(Debug)]
pub enum ScriptError {
    /// The script's text is malformed.
    Syntax(String),
    /// The script failed while it ran.
    Runtime(String),
    /// The script exceeded its execution budget.
    Timeout(String),
}

/// Mathematical model of a [`ScriptError`].
pub enum ScriptFault {
    Syntax(Seq<char>),
    Runtime(Seq<char>),
    Timeout(Seq<char>),
}

impl ScriptFault {
    /// The fault that a failure of kind `kind`, described by `message`,
    /// amounts to.
    pub open spec fn classify(kind: FailureKind, message: Seq<char>) -> ScriptFault {
        match kind {
            FailureKind::Parsing => ScriptFault::Syntax(message),
            FailureKind::TooManyOperations => ScriptFault::Timeout(message),
            FailureKind::Other => ScriptFault::Runtime(message),
        }
    }

    /// The description that the fault carries.
    pub open spec fn message(self) -> Seq<char> {
        match self {
            ScriptFault::Syntax(message) => message,
            ScriptFault::Runtime(message) => message,
            ScriptFault::Timeout(message) => message,
        }
    }
}

impl View for ScriptError {
    type V = ScriptFault;

    open spec fn view(&self) -> ScriptFault {
        match self {
            ScriptError::Syntax(message) => ScriptFault::Syntax(message@),
            ScriptError::Runtime(message) => ScriptFault::Runtime(message@),
            ScriptError::Timeout(message) => ScriptFault::Timeout(message@),
        }
    }
}

impl ScriptError {
    /// The error for a failure of kind `kind` that the interpreter described
    /// by `message`.
    pub fn classify(kind: FailureKind, message: String) -> (error: ScriptError)
        ensures
            error@ == ScriptFault::classify(kind, message@),
    {
        match kind {
            FailureKind::Parsing => ScriptError::Syntax(message),
            FailureKind::TooManyOperations => ScriptError::Timeout(message),
            FailureKind::Other => ScriptError::Runtime(message),
        }
    }

    /// The interpreter's description of the failure.
    pub fn message(&self) -> (text: String)
        ensures
            text@ == self@.message(),
    {
        match self {
            ScriptError::Syntax(message) => message.clone(),
            ScriptError::Runtime(message) => message.clone(),
            ScriptError::Timeout(message) => message.clone(),
        }
    }
}

/// The outcome of a run, given what the interpreter returned: nothing, or the
/// kind and the description of a failure.
pub fn script_outcome(raw: Result<(), (FailureKind, String)>) -> (outcome: Result<(), ScriptError>)
    ensures
        outcome is Ok <==> raw is Ok,
        outcome matches Err(error) ==> raw matches Err((kind, message)) && error@
            == ScriptFault::classify(kind, message@),
{
    match raw {
        Ok(()) => Ok(()),
        Err((kind, message)) => Err(ScriptError::classify(kind, message)),
    }
}

/// A function that scripts can call by name: what it does, and on which store.
pub enum HostFunction {
    /// Sets the rotation of the live metrics of the store to its three
    /// arguments.
    SetRotation(Arc<SharedHardware>),
    /// Writes its argument to the log of the kernel at the level of scripts.
    Log(Arc<SharedKernel>),
    /// Starts the kernel.
    KernelStart(Arc<SharedKernel>),
    /// Stops the kernel.
    KernelStop(Arc<SharedKernel>),
    /// A function that this library did not bind.
    Foreign,
}

/// A limit that the interpreter holds a run to.
pub enum Limit {
    /// The operations that a run may spend.
    Operations,
    /// The bytes of the texts of one value.
    TextSize,
    /// The elements of the arrays of one value.
    ArraySize,
    /// The properties of the object maps of one value.
    MapSize,
    /// The script functions that may be in the middle of a call at once.
    CallLevels,
    /// The depth to which expressions nest outside functions.
    ExpressionDepth,
    /// The depth to which expressions nest inside a function.
    FunctionExpressionDepth,
}

/// The functions that scripts run by `engine` can call by name: those of
/// every module registered with it, the namespace that
/// `rhai::Engine::register_fn` fills and the packages alike. A function that
/// this library bound carries what it does; any other is
/// [`HostFunction::Foreign`]. The operators and keywords of the language are
/// no functions of a module and are not among them.
pub uninterp spec fn host_bindings(engine: rhai::Engine) -> Map<Seq<char>, HostFunction>;

/// The limits of `engine`, each as its getter of `rhai::Engine` reports it:
/// `max_operations`, `max_string_size`, `max_array_size`, `max_map_size`,
/// `max_call_levels`, `max_expr_depth` and `max_function_expr_depth`, in the
/// order of [`Limit`]. Every limit has a value; but for the call levels, 0
/// stands for no limit.
pub uninterp spec fn interpreter_limits(engine: rhai::Engine) -> Map<Limit, nat>;

/// The keywords and operators that `rhai::Engine::disable_symbol` has
/// switched off in `engine`.
pub uninterp spec fn disabled_symbols(engine: rhai::Engine) -> Set<Seq<char>>;

/// Scripts of `engine` may define functions without a name, as
/// `rhai::Engine::allow_anonymous_fn` reports it.
pub uninterp spec fn anonymous_functions_allowed(engine: rhai::Engine) -> bool;

/// What the interpreter of a [`ScriptEngine`] answers to `script`: nothing
/// where the script runs to its end, or else the kind and the description of
/// its first failure.
///
/// The answer is a matter of the text alone. Every such interpreter has the
/// same functions, limits and language; the host functions hand nothing back
/// to the script; and a script has no clock, no file and no random number to
/// go by. Functions without a name are switched off because the interpreter
/// names them by a hash that differs from process to process, and the name
/// shows in descriptions.
pub uninterp spec fn script_verdict(script: Seq<char>) -> Option<(FailureKind, Seq<char>)>;

/// The table of an interpreter to which nothing is bound.
pub open spec fn no_host_functions() -> Map<Seq<char>, HostFunction> {
    Map::empty()
}

/// The symbols of an interpreter in which nothing is switched off.
pub open spec fn no_symbols() -> Set<Seq<char>> {
    Set::empty()
}

/// Every limit there is.
pub open spec fn every_limit() -> Set<Limit> {
    Set::full()
}

/// A fresh interpreter without any function or disabled symbol, in which
/// functions without a name are allowed.
///
/// Calls `rhai::Engine::new_raw`, which registers no module and sets no
/// module resolver. Of its limits nothing is claimed but that each has a
/// value: two of them differ between debug and release builds.
#[verifier::external_body]
fn new_interpreter() -> (engine: rhai::Engine)
    ensures
        host_bindings(engine) == no_host_functions(),
        disabled_symbols(engine) == no_symbols(),
        anonymous_functions_allowed(engine),
        interpreter_limits(engine).dom() == every_limit(),
{
    rhai::Engine::new_raw()
}

/// Limits every run of `engine` to `operations` interpreter operations.
/// Nothing else changes.
///
/// Calls `rhai::Engine::set_max_operations`.
#[verifier::external_body]
fn limit_operations(engine: &mut rhai::Engine, operations: u64)
    ensures
        interpreter_limits(*final(engine)) == interpreter_limits(*old(engine)).insert(
            Limit::Operations,
            operations as nat,
        ),
        host_bindings(*final(engine)) == host_bindings(*old(engine)),
        disabled_symbols(*final(engine)) == disabled_symbols(*old(engine)),
        anonymous_functions_allowed(*final(engine)) == anonymous_functions_allowed(*old(engine)),
{
    engine.set_max_operations(operations);
}

/// Limits the texts of every value that a script of `engine` builds to
/// `size` bytes. Nothing else changes.
///
/// Calls `rhai::Engine::set_max_string_size`.
#[verifier::external_body]
fn limit_text_size(engine: &mut rhai::Engine, size: usize)
    ensures
        interpreter_limits(*final(engine)) == interpreter_limits(*old(engine)).insert(
            Limit::TextSize,
            size as nat,
        ),
        host_bindings(*final(engine)) == host_bindings(*old(engine)),
        disabled_symbols(*final(engine)) == disabled_symbols(*old(engine)),
        anonymous_functions_allowed(*final(engine)) == anonymous_functions_allowed(*old(engine)),
{
    engine.set_max_string_size(size);
}

/// Limits the arrays of every value that a script of `engine` builds to
/// `size` elements. Nothing else changes.
///
/// Calls `rhai::Engine::set_max_array_size`.
#[verifier::external_body]
fn limit_array_size(engine: &mut rhai::Engine, size: usize)
    ensures
        interpreter_limits(*final(engine)) == interpreter_limits(*old(engine)).insert(
            Limit::ArraySize,
            size as nat,
        ),
        host_bindings(*final(engine)) == host_bindings(*old(engine)),
        disabled_symbols(*final(engine)) == disabled_symbols(*old(engine)),
        anonymous_functions_allowed(*final(engine)) == anonymous_functions_allowed(*old(engine)),
{
    engine.set_max_array_size(size);
}

/// Limits the object maps of every value that a script of `engine` builds to
/// `size` properties. Nothing else changes.
///
/// Calls `rhai::Engine::set_max_map_size`.
#[verifier::external_body]
fn limit_map_size(engine: &mut rhai::Engine, size: usize)
    ensures
        interpreter_limits(*final(engine)) == interpreter_limits(*old(engine)).insert(
            Limit::MapSize,
            size as nat,
        ),
        host_bindings(*final(engine)) == host_bindings(*old(engine)),
        disabled_symbols(*final(engine)) == disabled_symbols(*old(engine)),
        anonymous_functions_allowed(*final(engine)) == anonymous_functions_allowed(*old(engine)),
{
    engine.set_max_map_size(size);
}

/// Limits the script functions that may be in the middle of a call at once
/// to `levels`. Nothing else changes.
///
/// Calls `rhai::Engine::set_max_call_levels`.
#[verifier::external_body]
fn limit_call_levels(engine: &mut rhai::Engine, levels: usize)
    ensures
        interpreter_limits(*final(engine)) == interpreter_limits(*old(engine)).insert(
            Limit::CallLevels,
            levels as nat,
        ),
        host_bindings(*final(engine)) == host_bindings(*old(engine)),
        disabled_symbols(*final(engine)) == disabled_symbols(*old(engine)),
        anonymous_functions_allowed(*final(engine)) == anonymous_functions_allowed(*old(engine)),
{
    engine.set_max_call_levels(levels);
}

/// Limits the depth to which expressions nest to `depth` outside functions
/// and to `function_depth` inside them. Nothing else changes.
///
/// Calls `rhai::Engine::set_max_expr_depths`.
#[verifier::external_body]
fn limit_expression_depths(engine: &mut rhai::Engine, depth: usize, function_depth: usize)
    ensures
        interpreter_limits(*final(engine)) == interpreter_limits(*old(engine)).insert(
            Limit::ExpressionDepth,
            depth as nat,
        ).insert(Limit::FunctionExpressionDepth, function_depth as nat),
        host_bindings(*final(engine)) == host_bindings(*old(engine)),
        disabled_symbols(*final(engine)) == disabled_symbols(*old(engine)),
        anonymous_functions_allowed(*final(engine)) == anonymous_functions_allowed(*old(engine)),
{
    engine.set_max_expr_depths(depth, function_depth);
}

/// Switches the keyword or operator `symbol` off in `engine`: a script that
/// uses it does not parse. Nothing else changes.
///
/// Calls `rhai::Engine::disable_symbol`.
#[verifier::external_body]
fn disable_symbol(engine: &mut rhai::Engine, symbol: &str)
    ensures
        disabled_symbols(*final(engine)) == disabled_symbols(*old(engine)).insert(symbol@),
        host_bindings(*final(engine)) == host_bindings(*old(engine)),
        interpreter_limits(*final(engine)) == interpreter_limits(*old(engine)),
        anonymous_functions_allowed(*final(engine)) == anonymous_functions_allowed(*old(engine)),
{
    engine.disable_symbol(symbol);
}

/// Switches functions without a name off in `engine`: a script that defines
/// one does not parse. Nothing else changes.
///
/// Calls `rhai::Engine::set_allow_anonymous_fn` with `false`.
#[verifier::external_body]
fn forbid_anonymous_functions(engine: &mut rhai::Engine)
    ensures
        !anonymous_functions_allowed(*final(engine)),
        host_bindings(*final(engine)) == host_bindings(*old(engine)),
        interpreter_limits(*final(engine)) == interpreter_limits(*old(engine)),
        disabled_symbols(*final(engine)) == disabled_symbols(*old(engine)),
{
    engine.set_allow_anonymous_fn(false);
}

/// Binds `name`, called with three numbers, to
/// [`SharedHardware::update_rotation`] on `hardware`. Nothing else changes.
///
/// Calls `rhai::Engine::register_fn`. The closure hands the three numbers on
/// as their bit patterns.
#[verifier::external_body]
fn bind_set_rotation(engine: &mut rhai::Engine, name: &str, hardware: Arc<SharedHardware>)
    requires
        !host_bindings(*old(engine)).dom().contains(name@),
    ensures
        host_bindings(*final(engine)) == host_bindings(*old(engine)).insert(
            name@,
            HostFunction::SetRotation(hardware),
        ),
        interpreter_limits(*final(engine)) == interpreter_limits(*old(engine)),
        disabled_symbols(*final(engine)) == disabled_symbols(*old(engine)),
        anonymous_functions_allowed(*final(engine)) == anonymous_functions_allowed(*old(engine)),
{
    engine.register_fn(
        name,
        move |x: rhai::FLOAT, y: rhai::FLOAT, z: rhai::FLOAT| {
            hardware.update_rotation(x.to_bits(), y.to_bits(), z.to_bits())
        },
    );
}

/// Binds `name`, called with one text, to [`SharedKernel::log`] on `kernel`
/// at the level `level`. Nothing else changes.
///
/// Calls `rhai::Engine::register_fn`.
#[verifier::external_body]
fn bind_log(
    engine: &mut rhai::Engine,
    name: &str,
    level: &'static str,
    kernel: Arc<SharedKernel>,
)
    requires
        !host_bindings(*old(engine)).dom().contains(name@),
        level@ == SCRIPT_LOG_LEVEL@,
    ensures
        host_bindings(*final(engine)) == host_bindings(*old(engine)).insert(
            name@,
            HostFunction::Log(kernel),
        ),
        interpreter_limits(*final(engine)) == interpreter_limits(*old(engine)),
        disabled_symbols(*final(engine)) == disabled_symbols(*old(engine)),
        anonymous_functions_allowed(*final(engine)) == anonymous_functions_allowed(*old(engine)),
{
    engine.register_fn(name, move |message: &str| kernel.log(level, message));
}

/// Binds `name`, called without arguments, to [`SharedKernel::start`] on
/// `kernel`. Nothing else changes.
///
/// Calls `rhai::Engine::register_fn`.
#[verifier::external_body]
fn bind_kernel_start(engine: &mut rhai::Engine, name: &str, kernel: Arc<SharedKernel>)
    requires
        !host_bindings(*old(engine)).dom().contains(name@),
    ensures
        host_bindings(*final(engine)) == host_bindings(*old(engine)).insert(
            name@,
            HostFunction::KernelStart(kernel),
        ),
        interpreter_limits(*final(engine)) == interpreter_limits(*old(engine)),
        disabled_symbols(*final(engine)) == disabled_symbols(*old(engine)),
        anonymous_functions_allowed(*final(engine)) == anonymous_functions_allowed(*old(engine)),
{
    engine.register_fn(name, move || kernel.start());
}

/// Binds `name`, called without arguments, to [`SharedKernel::stop`] on
/// `kernel`. Nothing else changes.
///
/// Calls `rhai::Engine::register_fn`.
#[verifier::external_body]
fn bind_kernel_stop(engine: &mut rhai::Engine, name: &str, kernel: Arc<SharedKernel>)
    requires
        !host_bindings(*old(engine)).dom().contains(name@),
    ensures
        host_bindings(*final(engine)) == host_bindings(*old(engine)).insert(
            name@,
            HostFunction::KernelStop(kernel),
        ),
        interpreter_limits(*final(engine)) == interpreter_limits(*old(engine)),
        disabled_symbols(*final(engine)) == disabled_symbols(*old(engine)),
        anonymous_functions_allowed(*final(engine)) == anonymous_functions_allowed(*old(engine)),
{
    engine.register_fn(name, move || kernel.stop());
}

/// The limits of the sandbox.
pub open spec fn sandbox_limits() -> Map<Limit, nat> {
    Map::new(
        |limit: Limit| true,
        |limit: Limit|
            match limit {
                Limit::Operations => MAX_SCRIPT_OPERATIONS as nat,
                Limit::TextSize => MAX_SCRIPT_DATA_SIZE as nat,
                Limit::ArraySize => MAX_SCRIPT_DATA_SIZE as nat,
                Limit::MapSize => MAX_SCRIPT_DATA_SIZE as nat,
                Limit::CallLevels => MAX_SCRIPT_CALL_LEVELS as nat,
                Limit::ExpressionDepth => MAX_SCRIPT_EXPRESSION_DEPTH as nat,
                Limit::FunctionExpressionDepth => MAX_SCRIPT_FUNCTION_EXPRESSION_DEPTH as nat,
            },
    )
}

/// The symbols that are switched off in the sandbox: the forbidden keyword
/// and nothing else.
pub open spec fn sandbox_symbols() -> Set<Seq<char>> {
    no_symbols().insert(FORBIDDEN_KEYWORD@)
}

/// `engine` is the sandbox: it has the four host functions, bound to some
/// pair of stores, and no other function, the limits and the disabled
/// symbols of the sandbox, and no functions without a name.
pub open spec fn is_sandbox(engine: rhai::Engine) -> bool {
    &&& exists|hardware: Arc<SharedHardware>, kernel: Arc<SharedKernel>|
        host_bindings(engine) == #[trigger] ScriptEngine::allowlist(hardware, kernel)
    &&& interpreter_limits(engine) == sandbox_limits()
    &&& disabled_symbols(engine) == sandbox_symbols()
    &&& !anonymous_functions_allowed(engine)
}

/// Runs `script` on the sandbox, in a fresh scope, and returns nothing where
/// the script ran to its end, or else the kind and the description of its
/// first failure: the verdict on the script.
///
/// Calls `rhai::Engine::run`. Of a failure it takes the kind from
/// `rhai::EvalAltResult::unwrap_inner`, which strips the frames of the calls
/// that the failure passed through, telling the variants `ErrorParsing` and
/// `ErrorTooManyOperations` from all others, and the description from
/// `to_string`.
#[verifier::external_body]
fn evaluate(engine: &rhai::Engine, script: &str) -> (raw: Result<(), (FailureKind, String)>)
    requires
        is_sandbox(*engine),
    ensures
        raw is Ok <==> script_verdict(script@) is None,
        raw matches Err((kind, message)) ==> script_verdict(script@) == Some((kind, message@)),
{
    match engine.run(script) {
        Ok(()) => Ok(()),
        Err(error) => {
            let kind = match error.unwrap_inner() {
                rhai::EvalAltResult::ErrorParsing(..) => FailureKind::Parsing,
                rhai::EvalAltResult::ErrorTooManyOperations(..) => FailureKind::TooManyOperations,
                _ => FailureKind::Other,
            };
            Err((kind, error.to_string()))
        },
    }
}

/// A Rhai interpreter bound to one telemetry store and one kernel.
pub struct ScriptEngine {
    engine: rhai::Engine,
    hardware: Arc<SharedHardware>,
    kernel: Arc<SharedKernel>,
}

impl ScriptEngine {
    #[verifier::type_invariant]
    spec fn is_sandboxed(&self) -> bool {
        &&& host_bindings(self.engine) == Self::allowlist(self.hardware, self.kernel)
        &&& interpreter_limits(self.engine) == sandbox_limits()
        &&& disabled_symbols(self.engine) == sandbox_symbols()
        &&& !anonymous_functions_allowed(self.engine)
    }

    /// The telemetry store that scripts act on.
    pub closed spec fn bound_hardware(&self) -> Arc<SharedHardware> {
        self.hardware
    }

    /// The kernel that scripts act on.
    pub closed spec fn bound_kernel(&self) -> Arc<SharedKernel> {
        self.kernel
    }

    /// The functions that scripts can call, by name.
    pub closed spec fn host_functions(&self) -> Map<Seq<char>, HostFunction> {
        host_bindings(self.engine)
    }

    /// The limits that a run is held to.
    pub closed spec fn limits(&self) -> Map<Limit, nat> {
        interpreter_limits(self.engine)
    }

    /// The keywords and operators that scripts cannot use.
    pub closed spec fn forbidden_symbols(&self) -> Set<Seq<char>> {
        disabled_symbols(self.engine)
    }

    /// Scripts can define functions without a name.
    pub closed spec fn allows_anonymous_functions(&self) -> bool {
        anonymous_functions_allowed(self.engine)
    }

    /// The engine is set up as every engine is: the four host functions on
    /// its two stores and no other function, the limits and the forbidden
    /// symbols of the sandbox, and no functions without a name.
    pub open spec fn sandboxed(&self) -> bool {
        &&& self.host_functions() == Self::allowlist(self.bound_hardware(), self.bound_kernel())
        &&& self.limits() == sandbox_limits()
        &&& self.forbidden_symbols() == sandbox_symbols()
        &&& !self.allows_anonymous_functions()
    }

    /// The four host functions under their names, each acting on its store,
    /// and nothing else.
    pub open spec fn allowlist(hardware: Arc<SharedHardware>, kernel: Arc<SharedKernel>) -> Map<
        Seq<char>,
        HostFunction,
    > {
        no_host_functions().insert(HOST_SET_ROTATION@, HostFunction::SetRotation(hardware)).insert(
            HOST_LOG@,
            HostFunction::Log(kernel),
        ).insert(HOST_KERNEL_START@, HostFunction::KernelStart(kernel)).insert(
            HOST_KERNEL_STOP@,
            HostFunction::KernelStop(kernel),
        )
    }

    /// An interpreter whose scripts can call the four host functions, which
    /// act on `hardware` and `kernel`, and no other function. A run is held
    /// to the limits of the sandbox; scripts cannot import modules, cannot
    /// use `FORBIDDEN_KEYWORD` and cannot define functions without a name.
    pub fn new(hardware: Arc<SharedHardware>, kernel: Arc<SharedKernel>) -> (host: Self)
        ensures
            host.bound_hardware() == hardware,
            host.bound_kernel() == kernel,
            host.sandboxed(),
    {
        proof {
            lemma_host_names_differ();
        }
        let mut engine = new_interpreter();
        limit_operations(&mut engine, MAX_SCRIPT_OPERATIONS);
        limit_text_size(&mut engine, MAX_SCRIPT_DATA_SIZE);
        limit_array_size(&mut engine, MAX_SCRIPT_DATA_SIZE);
        limit_map_size(&mut engine, MAX_SCRIPT_DATA_SIZE);
        limit_call_levels(&mut engine, MAX_SCRIPT_CALL_LEVELS);
        limit_expression_depths(
            &mut engine,
            MAX_SCRIPT_EXPRESSION_DEPTH,
            MAX_SCRIPT_FUNCTION_EXPRESSION_DEPTH,
        );
        assert(interpreter_limits(engine) =~= sandbox_limits());
        disable_symbol(&mut engine, FORBIDDEN_KEYWORD);
        forbid_anonymous_functions(&mut engine);
        bind_set_rotation(&mut engine, HOST_SET_ROTATION, hardware.clone());
        bind_log(&mut engine, HOST_LOG, SCRIPT_LOG_LEVEL, kernel.clone());
        bind_kernel_start(&mut engine, HOST_KERNEL_START, kernel.clone());
        bind_kernel_stop(&mut engine, HOST_KERNEL_STOP, kernel.clone());
        ScriptEngine { engine, hardware, kernel }
    }

    /// The telemetry store that scripts act on.
    pub fn hardware(&self) -> (hardware: &Arc<SharedHardware>)
        ensures
            *hardware == self.bound_hardware(),
    {
        &self.hardware
    }

    /// The kernel that scripts act on.
    pub fn kernel(&self) -> (kernel: &Arc<SharedKernel>)
        ensures
            *kernel == self.bound_kernel(),
    {
        &self.kernel
    }

    /// Runs `script` to its end or to its first failure, in a scope of its
    /// own: no variable outlives the run.
    ///
    /// The run succeeds where the verdict on the script is that it runs to
    /// its end, and fails otherwise with the error that its failure amounts
    /// to. The script ran in the sandbox: it could call the four host
    /// functions on the two stores and nothing else. The host functions that
    /// it called before it failed have taken effect and stay in effect.
    pub fn run(&self, script: &str) -> (outcome: Result<(), ScriptError>)
        ensures
            outcome is Ok <==> script_verdict(script@) is None,
            outcome matches Err(error) ==> script_verdict(script@) matches Some((kind, message))
                && error@ == ScriptFault::classify(kind, message),
            self.sandboxed(),
    {
        proof {
            use_type_invariant(self);
        }
        script_outcome(evaluate(&self.engine, script))
    }
}

/// The four names under which scripts call the host differ from each other.
pub proof fn lemma_host_names_differ()
    ensures
        HOST_SET_ROTATION@ != HOST_LOG@,
        HOST_SET_ROTATION@ != HOST_KERNEL_START@,
        HOST_SET_ROTATION@ != HOST_KERNEL_STOP@,
        HOST_LOG@ != HOST_KERNEL_START@,
        HOST_LOG@ != HOST_KERNEL_STOP@,
        HOST_KERNEL_START@ != HOST_KERNEL_STOP@,
{
    reveal_strlit("set_rotation");
    reveal_strlit("log");
    reveal_strlit("kernel_start");
    reveal_strlit("kernel_stop");
    assert(HOST_SET_ROTATION@.len() == 12 && HOST_SET_ROTATION@[0] == 's');
    assert(HOST_LOG@.len() == 3);
    assert(HOST_KERNEL_START@.len() == 12 && HOST_KERNEL_START@[0] == 'k');
    assert(HOST_KERNEL_STOP@.len() == 11);
}

/// One call of a host function by a script, with its arguments.
pub enum HostCall {
    /// `set_rotation(x, y, z)`, the three numbers as bit patterns.
    SetRotation(u32, u32, u32),
    /// `log(message)`.
    Log(Seq<char>),
    /// `kernel_start()`.
    KernelStart,
    /// `kernel_stop()`.
    KernelStop,
}

impl HostCall {
    /// The name under which a script makes the call.
    pub open spec fn name(self) -> Seq<char> {
        match self {
            HostCall::SetRotation(_, _, _) => HOST_SET_ROTATION@,
            HostCall::Log(_) => HOST_LOG@,
            HostCall::KernelStart => HOST_KERNEL_START@,
            HostCall::KernelStop => HOST_KERNEL_STOP@,
        }
    }

    /// The host function that the call is meant for, on an interpreter bound
    /// to `hardware` and `kernel`.
    pub open spec fn target(
        self,
        hardware: Arc<SharedHardware>,
        kernel: Arc<SharedKernel>,
    ) -> HostFunction {
        match self {
            HostCall::SetRotation(_, _, _) => HostFunction::SetRotation(hardware),
            HostCall::Log(_) => HostFunction::Log(kernel),
            HostCall::KernelStart => HostFunction::KernelStart(kernel),
            HostCall::KernelStop => HostFunction::KernelStop(kernel),
        }
    }
}

/// The two stores of an interpreter as the calls of a script find and leave
/// them.
pub struct Device {
    pub telemetry: Telemetry,
    pub kernel: KernelModel,
}

impl HostFunction {
    /// The device after a script called this function with the arguments of
    /// `call` at the instant `timestamp`. A call that is meant for another
    /// function does not reach this one and changes nothing.
    pub open spec fn effect(self, device: Device, call: HostCall, timestamp: Seq<char>) -> Device {
        match (self, call) {
            (HostFunction::SetRotation(_), HostCall::SetRotation(x, y, z)) => Device {
                telemetry: device.telemetry.update_rotation(x, y, z),
                ..device
            },
            (HostFunction::Log(_), HostCall::Log(message)) => Device {
                kernel: device.kernel.logged(timestamp, SCRIPT_LOG_LEVEL@, message),
                ..device
            },
            (HostFunction::KernelStart(_), HostCall::KernelStart) => Device {
                kernel: device.kernel.start(timestamp),
                ..device
            },
            (HostFunction::KernelStop(_), HostCall::KernelStop) => Device {
                kernel: device.kernel.stop(timestamp),
                ..device
            },
            _ => device,
        }
    }
}

impl Device {
    /// The device after `call`, made at the instant `timestamp`.
    pub open spec fn after(self, call: HostCall, timestamp: Seq<char>) -> Device {
        match call {
            HostCall::SetRotation(x, y, z) => Device {
                telemetry: self.telemetry.update_rotation(x, y, z),
                ..self
            },
            HostCall::Log(message) => Device {
                kernel: self.kernel.logged(timestamp, SCRIPT_LOG_LEVEL@, message),
                ..self
            },
            HostCall::KernelStart => Device { kernel: self.kernel.start(timestamp), ..self },
            HostCall::KernelStop => Device { kernel: self.kernel.stop(timestamp), ..self },
        }
    }

    /// The device after the calls of `calls`, each with its instant, first
    /// element first.
    pub open spec fn after_all(self, calls: Seq<(HostCall, Seq<char>)>) -> Device
        decreases calls.len(),
    {
        if calls.len() == 0 {
            self
        } else {
            let last = calls.last();
            self.after_all(calls.drop_last()).after(last.0, last.1)
        }
    }
}

/// On an interpreter with the allowlist, every call finds the function it is
/// meant for under its name, what that function does is what the call does to
/// the device, and no name but those of the four calls is bound.
pub proof fn lemma_allowlist_serves_every_call(
    hardware: Arc<SharedHardware>,
    kernel: Arc<SharedKernel>,
    call: HostCall,
    device: Device,
    timestamp: Seq<char>,
)
    ensures
        ({
            let table = ScriptEngine::allowlist(hardware, kernel);
            &&& table.dom().contains(call.name())
            &&& table[call.name()] == call.target(hardware, kernel)
            &&& table[call.name()].effect(device, call, timestamp) == device.after(call, timestamp)
            &&& forall|name: Seq<char>| #[trigger]
                table.dom().contains(name) ==> name == HOST_SET_ROTATION@ || name == HOST_LOG@
                    || name == HOST_KERNEL_START@ || name == HOST_KERNEL_STOP@
        }),
{
    lemma_host_names_differ();
}

/// Whatever a script calls, each store stays among the states that its own
/// operations lead to.
pub proof fn lemma_calls_stay_within_reach(device: Device, calls: Seq<(HostCall, Seq<char>)>)
    ensures
        device.telemetry.reaches(device.after_all(calls).telemetry),
        device.kernel.reaches(device.after_all(calls).kernel),
    decreases calls.len(),
{
    if calls.len() == 0 {
        lemma_telemetry_reaches_itself(device.telemetry);
        lemma_kernel_reaches_itself(device.kernel);
    } else {
        let earlier = device.after_all(calls.drop_last());
        let timestamp = calls.last().1;
        lemma_calls_stay_within_reach(device, calls.drop_last());
        match calls.last().0 {
            HostCall::SetRotation(x, y, z) => {
                let op = TelemetryOp::UpdateRotation(x, y, z);
                lemma_telemetry_reaches_next(device.telemetry, earlier.telemetry, op);
            },
            HostCall::Log(message) => {
                let record = LogRecord { timestamp, level: SCRIPT_LOG_LEVEL@, message };
                lemma_kernel_reaches_next(device.kernel, earlier.kernel, KernelOp::Log(record));
            },
            HostCall::KernelStart => {
                let op = KernelOp::Start(timestamp);
                lemma_kernel_reaches_next(device.kernel, earlier.kernel, op);
            },
            HostCall::KernelStop => {
                let op = KernelOp::Stop(timestamp);
                lemma_kernel_reaches_next(device.kernel, earlier.kernel, op);
            },
        }
    }
}

/// A script that sets the rotation to `(x, y, z)` and then starts the kernel
/// leaves the live metrics with that rotation and otherwise as they were,
/// and the kernel running with one new entry as the newest of its log: the
/// start line, at level `INFO`. The entries before it are the old ones,
/// without the oldest if the log was full.
pub proof fn lemma_rotation_then_start(
    device: Device,
    x: u32,
    y: u32,
    z: u32,
    set_at: Seq<char>,
    started_at: Seq<char>,
)
    requires
        device.kernel.wf(),
    ensures
        ({
            let first = (HostCall::SetRotation(x, y, z), set_at);
            let second = (HostCall::KernelStart, started_at);
            let after = device.after_all(seq![first, second]);
            let line = LogRecord {
                timestamp: started_at,
                level: "INFO"@,
                message: "kernel initialized"@,
            };
            &&& after.telemetry == device.telemetry.update_rotation(x, y, z)
            &&& after.telemetry.metrics == device.telemetry.metrics.with_rotation(x, y, z)
            &&& after.kernel == device.kernel.start(started_at)
            &&& after.kernel.is_running
            &&& after.kernel.wf()
            &&& after.kernel.logs.last() == line
            &&& after.kernel.logs.drop_last() == if device.kernel.logs.len() < MAX_LOG_ENTRIES {
                device.kernel.logs
            } else {
                device.kernel.logs.drop_first()
            }
        }),
{
    let first = (HostCall::SetRotation(x, y, z), set_at);
    let second = (HostCall::KernelStart, started_at);
    let calls = seq![first, second];
    assert(calls.drop_last() == seq![first]);
    assert(seq![first].drop_last() == Seq::<(HostCall, Seq<char>)>::empty());
    assert(device.after_all(seq![first]) == device.after(first.0, first.1)) by {
        assert(device.after_all(seq![first].drop_last()) == device);
    }
    let running = KernelModel { is_running: true, ..device.kernel };
    let line = LogRecord { timestamp: started_at, level: "INFO"@, message: "kernel initialized"@ };
    lemma_log_evicts_oldest_only(running, line);
}

/// What a script called before it failed stays: the calls it made have the
/// effect that they have in a script that ends after them, and whatever
/// follows them, in this run or the next, starts from there.
pub proof fn lemma_calls_before_a_failure_stay(
    device: Device,
    made: Seq<(HostCall, Seq<char>)>,
    later: Seq<(HostCall, Seq<char>)>,
)
    ensures
        device.after_all(made + later) == device.after_all(made).after_all(later),
    decreases later.len(),
{
    if later.len() == 0 {
        assert(made + later == made);
    } else {
        lemma_calls_before_a_failure_stay(device, made, later.drop_last());
        assert((made + later).drop_last() == made + later.drop_last());
        assert((made + later).last() == later.last());
    }
}

} // verus!

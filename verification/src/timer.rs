//! The scoped measurement guard.
//!
//! A guard is created at callable-invocation time with the resolved
//! metric name, the optional owner-type name, and the callable name; it
//! captures the clock at construction.  Releasing it emits exactly one
//! histogram observation of the elapsed wall-clock time.  Release
//! consumes the guard, so it can happen only once; [`observe`] is the
//! scope-shaped form of the lifecycle, releasing the guard when the
//! measured operation finishes — whether it produced a value or an
//! error.  A guard is owned by one invocation and is never shared,
//! cloned, or stored.

use vstd::prelude::*;

use std::time::Instant;

verus! {

/// `std::time::Instant`, declared opaque: a value of it only marks the
/// moment it was captured, and nothing inside it is reasoned about.
#[verifier::external_type_specification]
#[verifier::external_body]
pub struct ExInstant(Instant);

/// Relies on `std::time::Instant::now`: which instant comes back
/// depends on the clock, so nothing is promised of the result.
pub assume_specification[ Instant::now ]() -> Instant;

/// The view of an optional borrowed string.
pub open spec fn opt_str_view(o: Option<&str>) -> Option<Seq<char>> {
    match o {
        Some(s) => Some(s@),
        None => None,
    }
}

/// What a guard carries: the resolved metric name, the owner-type tag
/// (present only under an inherited directive), and the name of the
/// callable being measured.  The captured instant stays out of view:
/// nothing can be said of it.
pub struct FunctionTimerView {
    pub metric_name: Seq<char>,
    pub struct_name: Option<Seq<char>>,
    pub function: Seq<char>,
}

/// Timer: the scoped measurement guard.  Constructing one starts the
/// measurement; releasing it ends the measurement and emits the one
/// histogram observation for the invocation.
pub struct FunctionTimer {
    metric_name: &'static str,
    struct_name: Option<&'static str>,
    function: &'static str,
    chrono: Instant,
}

impl View for FunctionTimer {
    type V = FunctionTimerView;

    closed spec fn view(&self) -> FunctionTimerView {
        FunctionTimerView {
            metric_name: self.metric_name@,
            struct_name: opt_str_view(self.struct_name),
            function: self.function@,
        }
    }
}

impl FunctionTimer {
    /// Creates a new [`FunctionTimer`] measuring `function`, to emit
    /// under `metric_name`, tagged with `struct_name` when one is
    /// given.  Captures the current time; otherwise side-effect-free.
    pub fn new(
        metric_name: &'static str,
        struct_name: Option<&'static str>,
        function: &'static str,
    ) -> (timer: Self)
        ensures
            timer@.metric_name == metric_name@,
            timer@.struct_name == opt_str_view(struct_name),
            timer@.function == function@,
    {
        Self { metric_name, struct_name, function, chrono: Instant::now() }
    }

    /// Releases the guard: gets the elapsed wall-clock time —
    /// suspension included, for a scope that spans one — and emits the
    /// single histogram observation for this invocation.  Taking the
    /// guard by value, it can run at most once per guard.
    ///
    /// Relies on `std::time::Instant::elapsed` for the elapsed time,
    /// and on `metrics::with_recorder`, `Recorder::register_histogram`
    /// and `Histogram::record` — the calls the `metrics` histogram
    /// macro expands to — to record one observation of it under
    /// `metric_name`, tagged `function` and, when an owner type is
    /// present, `struct`.  With no recorder installed the observation
    /// goes to a no-op recorder; recording is fire-and-forget, and an
    /// unavailable collaborator is never surfaced to the instrumented
    /// callable.
    #[verifier::external_body]
    pub(crate) fn release(self) {
        let elapsed = self.chrono.elapsed();
        let labels = match self.struct_name {
            Some(s) => vec![
                metrics::Label::new("struct", s),
                metrics::Label::new("function", self.function),
            ],
            None => vec![metrics::Label::new("function", self.function)],
        };
        let key = metrics::Key::from_parts(self.metric_name, labels);
        let metadata = metrics::Metadata::new("function_timer", metrics::Level::INFO, None);
        let histogram = metrics::with_recorder(
            |recorder| recorder.register_histogram(&key, &metadata),
        );
        histogram.record(elapsed);
    }
}

/// Runs one instrumented invocation under a guard: the operation
/// executes as the remainder of the guard's scope, and the guard is
/// released exactly once when the operation finishes — whether it fell
/// through, returned early, or produced an error value.  The operation's
/// own result passes through completely untouched: the guard observes
/// but never intercepts, wraps, or converts it.
pub fn observe<T, F: FnOnce() -> T>(timer: FunctionTimer, operation: F) -> (r: T)
    requires
        operation.requires(()),
    ensures
        operation.ensures((), r),
{
    let result = operation();
    timer.release();
    result
}

} // verus!

use function_timer::declaration::{Body, Method, MethodCollection, Stmt};
use function_timer::directive::{ConstBinding, Directive, EffectiveDirective, NameExpr};
use function_timer::resolver::resolve_collection;
use function_timer::timer::observe;
use function_timer::FunctionTimer;
use metrics::Label;
use metrics_util::debugging::DebugValue;
use metrics_util::MetricKind;
use std::time::Duration;

fn busy_wait(d: Duration) {
    let start = std::time::Instant::now();
    while start.elapsed() < d {}
}

fn leak(s: &str) -> &'static str {
    Box::leak(s.to_string().into_boxed_str())
}

fn run_named<T>(eff: &EffectiveDirective, function: &str, f: impl FnOnce() -> T) -> T {
    match eff {
        EffectiveDirective::Emit {
            metric_name,
            owner_type_name,
        } => {
            let name = leak(metric_name);
            let owner = owner_type_name.as_ref().map(|o| leak(o));
            let timer = FunctionTimer::new(name, owner, leak(function));
            observe(timer, f)
        }
        EffectiveDirective::Suppress => f(),
    }
}

fn opaque_body() -> Body {
    Body {
        stmts: vec![Stmt::Code(0)],
    }
}

fn method(name: &str, own: Option<Directive>) -> Method {
    Method {
        name: name.to_string(),
        own_directive: own,
        body: opaque_body(),
    }
}

fn named(value: &str) -> Directive {
    Directive::Named(NameExpr::Literal(value.to_string()))
}

/// The annotated type of these tests: a collection under `my_metric` on
/// owner `Test`, whose members are `impl_function` (no directive of its
/// own), `static_function` (its own `other_metric`), and
/// `impl_fail_function` (no directive of its own).
fn test_collection() -> MethodCollection {
    MethodCollection {
        owner_type_name: "Test".to_string(),
        collection_directive: Some(named("my_metric")),
        members: vec![
            method("impl_function", None),
            method("static_function", Some(named("other_metric"))),
            method("impl_fail_function", None),
        ],
    }
}

/// The trait impl of these tests: a collection under `trait_metric` on
/// owner `Test` whose one member `trait_function` has no directive of
/// its own.
fn trait_collection() -> MethodCollection {
    MethodCollection {
        owner_type_name: "Test".to_string(),
        collection_directive: Some(named("trait_metric")),
        members: vec![method("trait_function", None)],
    }
}

#[test]
fn test_time_struct_test_time_static_function() {
    let recorder = metrics_util::debugging::DebuggingRecorder::new();
    let env: Vec<ConstBinding> = Vec::new();
    let effs = resolve_collection(&test_collection(), &env).unwrap();

    metrics::with_local_recorder(&recorder, || {
        run_named(&effs[1], "static_function", || {
            busy_wait(Duration::from_millis(5));
        });
    });

    let snapshot = recorder.snapshotter().snapshot().into_vec();

    for (key, _, _, debug_value) in snapshot {
        let (kind, key) = key.into_parts();
        let (name, labels) = key.into_parts();
        assert_eq!(kind, MetricKind::Histogram);
        assert_eq!(name.as_str(), "other_metric");
        assert_eq!(labels, vec![Label::new("function", "static_function")]);
        assert!(matches!(debug_value, DebugValue::Histogram(_)));
    }
}

#[test]
fn test_time_struct_test_time_impl_function() {
    let recorder = metrics_util::debugging::DebuggingRecorder::new();
    let env: Vec<ConstBinding> = Vec::new();
    let effs = resolve_collection(&test_collection(), &env).unwrap();

    metrics::with_local_recorder(&recorder, || {
        run_named(&effs[0], "impl_function", || {
            busy_wait(Duration::from_millis(5));
        });
    });

    let snapshot = recorder.snapshotter().snapshot().into_vec();

    for (key, _, _, debug_value) in snapshot {
        let (kind, key) = key.into_parts();
        let (name, labels) = key.into_parts();
        assert_eq!(kind, MetricKind::Histogram);
        assert_eq!(name.as_str(), "my_metric");
        assert_eq!(
            labels,
            vec![
                Label::new("struct", "Test"),
                Label::new("function", "impl_function")
            ]
        );
        assert!(matches!(debug_value, DebugValue::Histogram(_)));
    }
}

#[test]
fn test_time_struct_test_time_impl_fail_function() {
    let recorder = metrics_util::debugging::DebuggingRecorder::new();
    let env: Vec<ConstBinding> = Vec::new();
    let effs = resolve_collection(&test_collection(), &env).unwrap();

    metrics::with_local_recorder(&recorder, || {
        let text = "azerty";
        let _ = run_named(
            &effs[2],
            "impl_fail_function",
            || -> Result<(), std::num::ParseIntError> {
                busy_wait(Duration::from_millis(5));
                let number: usize = text.parse()?;
                println!("{number}");
                Ok(())
            },
        );
    });

    let snapshot = recorder.snapshotter().snapshot().into_vec();

    for (key, _, _, debug_value) in snapshot {
        let (kind, key) = key.into_parts();
        let (name, labels) = key.into_parts();
        assert_eq!(kind, MetricKind::Histogram);
        assert_eq!(name.as_str(), "my_metric");
        assert_eq!(
            labels,
            vec![
                Label::new("struct", "Test"),
                Label::new("function", "impl_fail_function")
            ]
        );
        assert!(matches!(debug_value, DebugValue::Histogram(_)));
    }
}

#[test]
fn test_time_impl_trait() {
    let recorder = metrics_util::debugging::DebuggingRecorder::new();
    let env: Vec<ConstBinding> = Vec::new();
    let effs = resolve_collection(&trait_collection(), &env).unwrap();

    metrics::with_local_recorder(&recorder, || {
        let _ = run_named(&effs[0], "trait_function", || "test");
    });

    let snapshot = recorder.snapshotter().snapshot().into_vec();

    for (key, _, _, debug_value) in snapshot {
        let (kind, key) = key.into_parts();
        let (name, labels) = key.into_parts();
        assert_eq!(kind, MetricKind::Histogram);
        assert_eq!(name.as_str(), "trait_metric");
        assert_eq!(
            labels,
            vec![
                Label::new("struct", "Test"),
                Label::new("function", "trait_function")
            ]
        );
        assert!(matches!(debug_value, DebugValue::Histogram(_)));
    }
}

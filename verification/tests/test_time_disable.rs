use function_timer::declaration::{Body, Method, MethodCollection, Stmt};
use function_timer::directive::{ConstBinding, Directive, EffectiveDirective, NameExpr};
use function_timer::resolver::resolve_collection;
use function_timer::timer::observe;
use function_timer::FunctionTimer;
use metrics::Label;
use metrics_util::debugging::DebugValue;
use metrics_util::MetricKind;
use std::time::Duration;

fn busy_wait(d: Duration) {
    let start = std::time::Instant::now();
    while start.elapsed() < d {}
}

fn leak(s: &str) -> &'static str {
    Box::leak(s.to_string().into_boxed_str())
}

fn run_named<T>(eff: &EffectiveDirective, function: &str, f: impl FnOnce() -> T) -> T {
    match eff {
        EffectiveDirective::Emit {
            metric_name,
            owner_type_name,
        } => {
            let name = leak(metric_name);
            let owner = owner_type_name.as_ref().map(|o| leak(o));
            let timer = FunctionTimer::new(name, owner, leak(function));
            observe(timer, f)
        }
        EffectiveDirective::Suppress => f(),
    }
}

#[test]
fn test_time_disable() {
    let recorder = metrics_util::debugging::DebuggingRecorder::new();
    let env: Vec<ConstBinding> = Vec::new();
    let collection = MethodCollection {
        owner_type_name: "Test".to_string(),
        collection_directive: Some(Directive::Named(NameExpr::Literal(
            "my_metric".to_string(),
        ))),
        members: vec![
            Method {
                name: "test".to_string(),
                own_directive: None,
                body: Body {
                    stmts: vec![Stmt::Code(0)],
                },
            },
            Method {
                name: "disable".to_string(),
                own_directive: Some(Directive::Disabled),
                body: Body {
                    stmts: vec![Stmt::Code(0)],
                },
            },
        ],
    };
    let effs = resolve_collection(&collection, &env).unwrap();

    metrics::with_local_recorder(&recorder, || {
        run_named(&effs[1], "disable", || {
            busy_wait(Duration::from_millis(5));
        });
        run_named(&effs[0], "test", || {
            busy_wait(Duration::from_millis(5));
        });
    });

    let snapshot = recorder.snapshotter().snapshot().into_vec();

    for (key, _, _, debug_value) in snapshot {
        let (kind, key) = key.into_parts();
        let (name, labels) = key.into_parts();
        assert_eq!(kind, MetricKind::Histogram);
        assert_eq!(name.as_str(), "my_metric");
        assert_eq!(
            labels,
            vec![Label::new("struct", "Test"), Label::new("function", "test")]
        );
        assert!(matches!(debug_value, DebugValue::Histogram(_)));
    }
}

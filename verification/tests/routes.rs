use orbit::commands::{ApiKeysCmd, AsyncInvocationsSubCmd, CapacitySubCmd, CodeSubCmd, CostCmd,
    DeliveriesCmd, FnLayersSubCmd, GatewayCmd, GlobalAsyncCmd, HealthCmd, HttpMethod, LayersCmd,
    MetricsCmd, NamespacesSubCmd, OutboxSubCmd, QuotasSubCmd, RoutesCmd, RuntimesCmd,
    SchedulesSubCmd, SecretsCmd, SnapshotSubCmd, SnapshotsCmd, SubscriptionsCmd, TenantsCmd,
    TopicSubsCmd, TopicsCmd, VersionsSubCmd, WfRunsCmd, WfVersionsCmd, WorkflowsCmd,
    parse_env_vars, split_env_var};

#[test]
fn apikeys_routes() {
    let r = ApiKeysCmd::List.route();
    assert_eq!(r.method, HttpMethod::Get);
    assert_eq!(r.path, "/api-keys");
    let r = ApiKeysCmd::Update { id: "k1".to_string(), name: None, scopes: vec![] }.route();
    assert_eq!(r.method, HttpMethod::Patch);
    assert_eq!(r.path, "/api-keys/k1");
    let r = ApiKeysCmd::Delete { id: "k2".to_string() }.route();
    assert_eq!(r.method, HttpMethod::Delete);
    assert_eq!(r.path, "/api-keys/k2");
}

#[test]
fn async_invocation_routes() {
    let r = GlobalAsyncCmd::List { limit: Some(5), status: Some("failed".to_string()) }.route();
    assert_eq!(r.path, "/async-invocations?limit=5&status=failed");
    let r = GlobalAsyncCmd::List { limit: None, status: None }.route();
    assert_eq!(r.path, "/async-invocations");
    let r = GlobalAsyncCmd::Retry { id: "i".to_string() }.route();
    assert_eq!(r.method, HttpMethod::Post);
    assert_eq!(r.path, "/async-invocations/i/retry");
    let r = AsyncInvocationsSubCmd::List {
        name: "f".to_string(),
        limit: Some(10),
        status: None,
    }
    .route();
    assert_eq!(r.path, "/functions/f/async-invocations?limit=10");
}

#[test]
fn cost_routes() {
    let r = CostCmd::Summary { window: 86400 }.route();
    assert_eq!(r.path, "/cost/summary?window=86400");
    let r = CostCmd::Function { name: "f".to_string(), window: 3600 }.route();
    assert_eq!(r.path, "/functions/f/cost?window=3600");
}

#[test]
fn topic_routes() {
    let r = TopicsCmd::Publish { name: "t".to_string(), payload: "{}".to_string(), ordering_key: None }
        .route();
    assert_eq!(r.method, HttpMethod::Post);
    assert_eq!(r.path, "/topics/t/publish");
    let r = TopicsCmd::Subscriptions {
        cmd: TopicSubsCmd::List { topic: "t".to_string() },
    }
    .route();
    assert_eq!(r.path, "/topics/t/subscriptions");
    let r = TopicsCmd::Outbox {
        cmd: OutboxSubCmd::List { topic: "t".to_string(), status: Some("pending".to_string()) },
    }
    .route();
    assert_eq!(r.path, "/topics/t/outbox?status=pending");
    let r = TopicsCmd::Messages { name: "t".to_string() }.route();
    assert_eq!(r.path, "/topics/t/messages");
}

#[test]
fn subscription_and_delivery_routes() {
    let r = SubscriptionsCmd::Seek { id: "s".to_string(), to_sequence: None, to_time: None }.route();
    assert_eq!(r.method, HttpMethod::Post);
    assert_eq!(r.path, "/subscriptions/s/seek");
    let r = SubscriptionsCmd::Deliveries { id: "s".to_string() }.route();
    assert_eq!(r.path, "/subscriptions/s/deliveries");
    let r = DeliveriesCmd::Retry { id: "d".to_string() }.route();
    assert_eq!(r.path, "/deliveries/d/retry");
}

#[test]
fn function_sub_routes() {
    let r = CodeSubCmd::Get { name: "f".to_string() }.route();
    assert_eq!(r.path, "/functions/f/code");
    let r = CodeSubCmd::Update { name: "f".to_string(), code: None, file: None }.route();
    assert_eq!(r.method, HttpMethod::Put);
    let r = VersionsSubCmd::Get { name: "f".to_string(), version: 3 }.route();
    assert_eq!(r.path, "/functions/f/versions/3");
    let r = CapacitySubCmd::Assign {
        name: "f".to_string(),
        max_inflight: None,
        max_queue_depth: None,
        max_queue_wait_ms: None,
        shed_status_code: None,
    }
    .route();
    assert_eq!(r.method, HttpMethod::Put);
    assert_eq!(r.path, "/functions/f/capacity");
    let r = SchedulesSubCmd::Delete { name: "f".to_string(), id: "s1".to_string() }.route();
    assert_eq!(r.method, HttpMethod::Delete);
    assert_eq!(r.path, "/functions/f/schedules/s1");
    let r = SnapshotSubCmd::Create { name: "f".to_string() }.route();
    assert_eq!(r.path, "/functions/f/snapshot");
    let r = FnLayersSubCmd::Assign { name: "f".to_string(), layers: vec![] }.route();
    assert_eq!(r.method, HttpMethod::Put);
    assert_eq!(r.path, "/functions/f/layers");
}

#[test]
fn gateway_and_health_routes() {
    let r = GatewayCmd::Routes { cmd: RoutesCmd::Get { id: "r1".to_string() } }.route();
    assert_eq!(r.path, "/gateway/routes/r1");
    assert_eq!(HealthCmd::Status.route().path, "/health");
    assert_eq!(HealthCmd::Live.route().path, "/health/live");
    assert_eq!(HealthCmd::Ready.route().path, "/health/ready");
    assert_eq!(HealthCmd::Startup.route().path, "/health/startup");
}

#[test]
fn layers_metrics_runtimes_secrets_routes() {
    assert_eq!(LayersCmd::Get { name: "l".to_string() }.route().path, "/layers/l");
    assert_eq!(MetricsCmd::Json.route().path, "/metrics");
    assert_eq!(
        MetricsCmd::Timeseries { range: "1h".to_string() }.route().path,
        "/metrics/timeseries?range=1h"
    );
    assert_eq!(MetricsCmd::Heatmap { weeks: 52 }.route().path, "/metrics/heatmap?weeks=52");
    assert_eq!(
        RuntimesCmd::Upload { id: "r".to_string(), image: "i".to_string() }.route().path,
        "/runtimes/upload"
    );
    assert_eq!(RuntimesCmd::Delete { id: "r".to_string() }.route().path, "/runtimes/r");
    assert_eq!(SecretsCmd::Delete { name: "s".to_string() }.route().path, "/secrets/s");
    assert_eq!(SnapshotsCmd::List.route().path, "/snapshots");
}

#[test]
fn tenant_routes() {
    let r = TenantsCmd::Usage { id: "t".to_string() }.route();
    assert_eq!(r.path, "/tenants/t/usage");
    let r = TenantsCmd::Namespaces {
        cmd: NamespacesSubCmd::Update {
            tenant_id: "t".to_string(),
            namespace: "n".to_string(),
            name: None,
        },
    }
    .route();
    assert_eq!(r.method, HttpMethod::Patch);
    assert_eq!(r.path, "/tenants/t/namespaces/n");
    let r = TenantsCmd::Quotas {
        cmd: QuotasSubCmd::Assign {
            tenant_id: "t".to_string(),
            dimension: "cpu".to_string(),
            limit: 5,
            window: None,
        },
    }
    .route();
    assert_eq!(r.method, HttpMethod::Put);
    assert_eq!(r.path, "/tenants/t/quotas/cpu");
}

#[test]
fn workflow_routes() {
    let r = WorkflowsCmd::Run { name: "w".to_string(), input: None }.route();
    assert_eq!(r.method, HttpMethod::Post);
    assert_eq!(r.path, "/workflows/w/run");
    let r = WorkflowsCmd::Versions {
        cmd: WfVersionsCmd::Get { name: "w".to_string(), version: 2 },
    }
    .route();
    assert_eq!(r.path, "/workflows/w/versions/2");
    let r = WorkflowsCmd::Runs {
        cmd: WfRunsCmd::Cancel { name: "w".to_string(), id: "r".to_string() },
    }
    .route();
    assert_eq!(r.path, "/workflows/w/runs/r/cancel");
}

#[test]
fn env_var_splitting() {
    assert_eq!(split_env_var("K=V"), Some(("K".to_string(), "V".to_string())));
    assert_eq!(split_env_var("K=a=b"), Some(("K".to_string(), "a=b".to_string())));
    assert_eq!(split_env_var("=v"), Some(("".to_string(), "v".to_string())));
    assert_eq!(split_env_var("novalue"), None);
    let v = parse_env_vars(&vec!["A=1".to_string(), "bad".to_string(), "B=x=y".to_string()]);
    assert_eq!(v["A"], "1");
    assert_eq!(v["B"], "x=y");
    assert_eq!(v.as_object().unwrap().len(), 2);
}

#[test]
fn widest_window_formats_fully() {
    let r = CostCmd::Summary { window: u64::MAX }.route();
    assert_eq!(r.path, "/cost/summary?window=18446744073709551615");
    let r = CostCmd::Summary { window: 0 }.route();
    assert_eq!(r.path, "/cost/summary?window=0");
}

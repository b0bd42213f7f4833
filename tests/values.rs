use external_service::lifecycle::HistoryRecord;
use external_service::error::EngineErrorCause;
use external_service::service::{
    Action, EngineContext, EnvironmentVariable, ExternalService, Image, ServiceType, Timeout,
};
use external_service::target::{Cluster, DeploymentMode, DeploymentTarget, Environment};

fn engine_context() -> EngineContext {
    EngineContext {
        execution_id: "exec-2".to_string(),
        lib_root_dir: "/lib".to_string(),
        workspace_root_dir: "/work".to_string(),
    }
}

fn service(name: &str, id: &str, commit: &str, registry_url: Option<&str>) -> ExternalService {
    ExternalService::new(
        engine_context(),
        id,
        Action::Pause,
        name,
        "1".to_string(),
        512,
        Image {
            name: "app".to_string(),
            tag: "42".to_string(),
            commit_id: commit.to_string(),
            registry_url: registry_url.map(|s| s.to_string()),
        },
        vec![
            EnvironmentVariable { key: "Z".to_string(), value: "last".to_string() },
            EnvironmentVariable { key: "A".to_string(), value: "first".to_string() },
        ],
    )
}

fn cluster() -> Cluster {
    Cluster {
        id: "k-7".to_string(),
        name: "k".to_string(),
        config_file_path: "/kube".to_string(),
        credentials: vec![],
    }
}

fn environment() -> Environment {
    Environment { id: "e-9".to_string(), namespace: "space".to_string() }
}

fn text(ctx: &tera::Context, key: &str) -> Option<String> {
    ctx.get(key).and_then(|v| v.as_str().map(|s| s.to_string()))
}

#[test]
fn missing_registry_falls_back_to_name_and_tag() {
    let svc = service("worker", "abc123", "deadbeef0123", None);
    let values = svc.chart_context(&cluster(), &environment(), DeploymentMode::ManagedServices).unwrap();
    assert_eq!(text(&values.context, "image_name_with_tag").as_deref(), Some("app:42"));
    assert_eq!(values.warnings.len(), 1);
    assert_eq!(
        values.warnings[0],
        "there is no registry url, use image name with tag with the default container registry: app:42"
    );
}

#[test]
fn registry_url_is_used_verbatim() {
    let svc = service("worker", "abc123", "deadbeef0123", Some("reg.io/app:42"));
    let values = svc.chart_context(&cluster(), &environment(), DeploymentMode::SelfHosted).unwrap();
    assert_eq!(text(&values.context, "image_name_with_tag").as_deref(), Some("reg.io/app:42"));
    assert!(values.warnings.is_empty());
}

#[test]
fn chart_values_hold_defaults_and_version() {
    let svc = service("worker", "abc123", "deadbeef0123", None);
    let values = svc.chart_context(&cluster(), &environment(), DeploymentMode::SelfHosted).unwrap();
    let ctx = &values.context;
    assert_eq!(text(ctx, "helm_app_version").as_deref(), Some("deadbee"));
    assert_eq!(text(ctx, "id").as_deref(), Some("abc123"));
    assert_eq!(text(ctx, "name").as_deref(), Some("worker"));
    assert_eq!(text(ctx, "total_cpus").as_deref(), Some("1"));
    assert_eq!(text(ctx, "kubernetes_cluster_id").as_deref(), Some("k-7"));
    assert_eq!(text(ctx, "environment_id").as_deref(), Some("e-9"));
    assert_eq!(text(ctx, "namespace").as_deref(), Some("space"));
    assert_eq!(text(ctx, "deployment_mode").as_deref(), Some("self-hosted"));
    let managed = svc.chart_context(&cluster(), &environment(), DeploymentMode::ManagedServices).unwrap();
    assert_eq!(text(&managed.context, "deployment_mode").as_deref(), Some("managed-services"));
}

#[test]
fn environment_variables_keep_their_order() {
    let svc = service("worker", "abc123", "deadbeef0123", None);
    let values = svc.chart_context(&cluster(), &environment(), DeploymentMode::SelfHosted).unwrap();
    let records = values.context.get("environment_variables").unwrap().as_array().unwrap().clone();
    assert_eq!(records.len(), 2);
    assert_eq!(records[0]["key"].as_str(), Some("Z"));
    assert_eq!(records[0]["value"].as_str(), Some("last"));
    assert_eq!(records[1]["key"].as_str(), Some("A"));
    assert_eq!(records[1]["value"].as_str(), Some("first"));
}

#[test]
fn short_commit_is_internal_error() {
    let svc = service("worker", "abc123", "123456", None);
    let e = svc.chart_context(&cluster(), &environment(), DeploymentMode::SelfHosted).err().unwrap();
    assert_eq!(e.cause, EngineErrorCause::Internal);
    assert_eq!(e.execution_id, "exec-2");
}

#[test]
fn release_name_is_prefixed() {
    let svc = service("worker", "abc123", "deadbeef0123", None);
    assert_eq!(svc.helm_release_name(), "external-service-worker-abc123");
}

#[test]
fn long_release_name_is_cut_to_fifty() {
    let svc = service("a-rather-long-service-name-for-a-job", "0123456789abcdef", "deadbeef0123", None);
    let name = svc.helm_release_name();
    assert_eq!(name.chars().count(), 50);
    assert_eq!(name, "external-service-a-rather-long-service-name-for-a-");
    assert_eq!(name, svc.helm_release_name());
}

#[test]
fn distinct_services_get_distinct_release_names() {
    let a = service("worker", "abc123", "deadbeef0123", None);
    let b = service("worker", "abc124", "deadbeef0123", None);
    let c = service("worker2", "abc123", "deadbeef0123", None);
    assert_ne!(a.helm_release_name(), b.helm_release_name());
    assert_ne!(a.helm_release_name(), c.helm_release_name());
}

#[test]
fn getters_report_the_service() {
    let mut svc = service("worker", "abc123", "deadbeef0123", None);
    assert_eq!(svc.id(), "abc123");
    assert_eq!(svc.name(), "worker");
    assert_eq!(svc.version(), "deadbeef0123");
    assert_eq!(*svc.action(), Action::Pause);
    assert_eq!(svc.private_port(), None);
    assert_eq!(svc.total_cpus(), "1");
    assert_eq!(svc.total_ram_in_mib(), 512);
    assert_eq!(svc.total_instances(), 1);
    assert_eq!(svc.start_timeout(), Timeout::Default);
    assert_eq!(svc.service_type(), ServiceType::ExternalService);
    assert_eq!(svc.name_with_id(), "worker (abc123)");
    assert_eq!(svc.image().name_with_tag(), "app:42");
    assert_eq!(svc.workspace_directory(), "/work/exec-2/external-service/worker");
    svc.set_image(Image {
        name: "other".to_string(),
        tag: "t".to_string(),
        commit_id: "feedface00".to_string(),
        registry_url: None,
    });
    assert_eq!(svc.version(), "feedface00");
    assert_eq!(svc.name(), "worker");
}

#[test]
fn target_resolves_to_its_pair() {
    let t = DeploymentTarget::SelfHosted(cluster(), environment());
    let (k, e, mode) = t.resolve();
    assert_eq!(k.id, "k-7");
    assert_eq!(e.namespace, "space");
    assert_eq!(mode, DeploymentMode::SelfHosted);
    let t = DeploymentTarget::ManagedServices(cluster(), environment());
    assert_eq!(t.resolve().2, DeploymentMode::ManagedServices);
}

#[test]
fn history_status_decides_success() {
    assert!(HistoryRecord::from_status("deployed").is_successfully_deployed());
    assert!(!HistoryRecord::from_status("failed").is_successfully_deployed());
    assert!(!HistoryRecord::from_status("deploye").is_successfully_deployed());
    assert!(!HistoryRecord::from_status("").is_successfully_deployed());
}

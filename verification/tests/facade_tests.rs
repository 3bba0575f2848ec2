use pomegranate::application::{ApplicationStats, ApplicationStatus, CpuPercent};
use pomegranate::engine::errors::{EngineError, EngineErrorKind};
use pomegranate::grpc_server::{
    container_status_code, deploy_action, get_app, get_status_entries, statistics_response,
    translate_err, DeployAction, StatusClass,
};
use pomegranate::server::PomegranateGrpcService;

fn engine_error(code: u16) -> EngineError {
    EngineError { kind: EngineErrorKind::CannotStart, code, message: "m".to_string() }
}

#[test]
fn error_translation_covers_every_class() {
    assert_eq!(translate_err(&engine_error(404)), StatusClass::NotFound);
    assert_eq!(translate_err(&engine_error(400)), StatusClass::InvalidArgument);
    assert_eq!(translate_err(&engine_error(409)), StatusClass::AlreadyExists);
    assert_eq!(translate_err(&engine_error(403)), StatusClass::PermissionDenied);
    assert_eq!(translate_err(&engine_error(401)), StatusClass::Unauthenticated);
    assert_eq!(translate_err(&engine_error(503)), StatusClass::Unavailable);
    assert_eq!(translate_err(&engine_error(500)), StatusClass::Internal);
    assert_eq!(translate_err(&engine_error(418)), StatusClass::Internal);
}

#[test]
fn statuses_are_numbered_for_the_wire() {
    assert_eq!(container_status_code(ApplicationStatus::Unknown), 0);
    assert_eq!(container_status_code(ApplicationStatus::Starting), 1);
    assert_eq!(container_status_code(ApplicationStatus::Running), 2);
    assert_eq!(container_status_code(ApplicationStatus::Stopping), 3);
    assert_eq!(container_status_code(ApplicationStatus::Stopped), 4);
}

#[test]
fn deploy_restarts_when_the_status_is_known() {
    let known: Result<ApplicationStatus, EngineError> = Ok(ApplicationStatus::Stopped);
    assert_eq!(deploy_action(&known), DeployAction::Restart);
    let unknown: Result<ApplicationStatus, EngineError> = Err(engine_error(500));
    assert_eq!(deploy_action(&unknown), DeployAction::Start);
}

#[test]
fn request_fields_assemble_the_descriptor() {
    let app = get_app(
        "webapp",
        "nginx",
        "latest",
        vec![("VERBOSITY".to_string(), "5".to_string())],
    );
    assert_eq!(app.container_name, "webapp");
    assert_eq!(app.image_name, "nginx");
    assert_eq!(app.image_tag, "latest");
    assert_eq!(app.env_variables, vec![("VERBOSITY".to_string(), "5".to_string())]);
}

#[test]
fn statistics_render_reported_figures() {
    let stats = ApplicationStats {
        memory_usage: Some(1024),
        memory_limit: None,
        cpu_usage: Some(CpuPercent { cpu_delta: 200, system_delta: 1000, online_cpus: 4 }),
    };
    let (usage, limit, cpu) = statistics_response(&Some(stats)).unwrap();
    assert_eq!(usage, 1024);
    assert_eq!(limit, 0);
    assert_eq!(cpu, CpuPercent { cpu_delta: 200, system_delta: 1000, online_cpus: 4 });
    assert_eq!(statistics_response(&None), None);
}

#[test]
fn bulk_status_keeps_resolved_entries_in_order() {
    let results: Vec<(String, Result<ApplicationStatus, EngineError>)> = vec![
        ("a".to_string(), Ok(ApplicationStatus::Running)),
        ("b".to_string(), Err(engine_error(500))),
        ("c".to_string(), Ok(ApplicationStatus::Stopped)),
    ];
    let entries = get_status_entries(&results);
    assert_eq!(entries, vec![("a".to_string(), 2), ("c".to_string(), 4)]);
}

#[test]
fn service_acknowledgement_messages() {
    let service = PomegranateGrpcService::default();
    assert_eq!(
        service.start_deployment_message("u1"),
        "Start deployment ! UUID : u1!"
    );
    assert_eq!(
        service.restart_deployment_message("u2"),
        "Restart Deployment ! UUID : u2!"
    );
    assert_eq!(
        service.delete_deployment_message("u3"),
        "Delete Deployment ! UUID : u3!"
    );
    assert_eq!(
        service.stop_deployment_message("u4"),
        "Stop Deployment ! UUID : u4!"
    );
    assert_eq!(
        service.deployment_status_message("u5"),
        "Deployment status ! UUID : u5!"
    );
    assert_eq!(
        service.apply_config_deployment_message("K=V"),
        "Apply Deployment Config ! Config : K=V!"
    );
}

use pomegranate::config::application_config::ApplicationConfig;
use pomegranate::config::database_config::DatabaseConfig;
use pomegranate::config::traefik_config::TraefikConfig;
use pomegranate::db::{Db, DbNotFound};
use pomegranate::errors::Error;

#[test]
fn traefik_config_defaults() {
    let config = TraefikConfig::from_values(None, None);
    assert_eq!(config.fqdn, "localhost");
    assert_eq!(config.network_name, "traefik-fallback-network");
}

#[test]
fn traefik_config_keeps_given_values() {
    let config = TraefikConfig::from_values(
        Some("paastech.cloud".to_string()),
        Some("edge-net".to_string()),
    );
    assert_eq!(config.fqdn, "paastech.cloud");
    assert_eq!(config.network_name, "edge-net");
}

#[test]
fn application_config_wraps_routing() {
    let config = ApplicationConfig::new(TraefikConfig::from_values(None, None));
    assert_eq!(config.traefik_config.fqdn, "localhost");
}

#[test]
fn database_config_keeps_parameters() {
    let config = DatabaseConfig::new(
        "user".to_string(),
        "secret".to_string(),
        "db.local".to_string(),
        "5432".to_string(),
    );
    assert_eq!(config.db_user, "user");
    assert_eq!(config.db_passwd, "secret");
    assert_eq!(config.db_url, "db.local");
    assert_eq!(config.db_port, "5432");
}

#[test]
fn db_resolves_the_fixed_record() {
    let db = Db::new();
    let dp = db.get_deployment_and_project("nginx").unwrap();
    assert_eq!(dp.project.uuid, "uuid_project");
    assert_eq!(dp.project.name, "name_project");
    assert_eq!(dp.project.user_id, "user_project");
    assert_eq!(dp.deployment.uuid, "nginx");
    assert_eq!(dp.deployment.name, "nginx");
    assert_eq!(dp.deployment.config, "");
    assert_eq!(dp.deployment.project_uuid, "uuid_project");
}

#[test]
fn db_rejects_unknown_identifiers() {
    let db = Db::new();
    assert_eq!(db.get_deployment_and_project("mystery").unwrap_err(), DbNotFound);
    assert_eq!(db.get_app("mystery").unwrap_err(), DbNotFound);
    assert_eq!(db.get_custom_app("mystery", vec![]).unwrap_err(), DbNotFound);
}

#[test]
fn db_builds_the_application_descriptor() {
    let db = Db::new();
    let app = db.get_app("nginx").unwrap();
    assert_eq!(app.container_name, "nginx");
    assert_eq!(app.image_name, "user_project/nginx");
    assert_eq!(app.image_tag, "latest");
    assert!(app.env_variables.is_empty());
}

#[test]
fn db_builds_the_custom_application_descriptor() {
    let db = Db::new();
    let env = vec![("VERBOSITY".to_string(), "5".to_string())];
    let app = db.get_custom_app("nginx", env.clone()).unwrap();
    assert_eq!(app.container_name, "nginx");
    assert_eq!(app.image_name, "user_project/nginx");
    assert_eq!(app.image_tag, "latest");
    assert_eq!(app.env_variables, env);
}

#[test]
fn db_persists_configuration() {
    let db = Db::new();
    assert_eq!(
        db.set_deployment_config("nginx".to_string(), "VERBOSITY=5".to_string()),
        Ok(())
    );
}

#[test]
fn application_errors_describe_themselves() {
    let start = Error::ApplicationCannotStart { source: "cause".to_string() };
    assert_eq!(start.message(), "Could not start the application");
    let stop = Error::ApplicationCannotStop { source: "cause".to_string() };
    assert_eq!(stop.message(), "Could not stop the application");
    let state = Error::ApplicationStateUnavailable { source: "cause".to_string() };
    assert_eq!(state.message(), "Could not get the state of the application");
}

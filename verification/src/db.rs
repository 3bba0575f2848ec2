//! The data-access collaborator: resolves an identifier to the application
//! it names and persists configuration. For now it serves one fixed record,
//! the `nginx` deployment, until a real database stands behind it.

use vstd::prelude::*;
use vstd::string::StringExecFns;

use crate::application::Application;

verus! {

/// Handle to the data-access collaborator.
#[derive(Debug, Clone, Copy, PartialEq, Eq, Structural)]
pub struct Db {}

/// The identifier names no known deployment.
#[derive(Debug, Clone, Copy, PartialEq, Eq, Structural)]
pub struct DbNotFound;

/// # Deployment
/// The information about a deployment, as per the database schema.
#[derive(Debug, Clone, PartialEq, Eq)]
pub struct Deployment {
    /// The uuid of the deployment.
    pub uuid: String,
    /// The name of the deployment.
    pub name: String,
    /// The configuration of the deployment.
    pub config: String,
    /// The date at which the deployment was created.
    pub created_at: String,
    /// The date at which the deployment was last updated.
    pub updated_at: String,
    /// The uuid of the project that owns the deployment.
    pub project_uuid: String,
}

/// # Project
/// The information about a project, as per the database schema.
#[derive(Debug, Clone, PartialEq, Eq)]
pub struct Project {
    /// The uuid of the project.
    pub uuid: String,
    /// The name of the project.
    pub name: String,
    /// The date at which the project was created.
    pub created_at: String,
    /// The date at which the project was last updated.
    pub updated_at: String,
    /// The uuid of the user that owns the project.
    pub user_id: String,
}

/// # DeploymentAndProject
/// A deployment together with the project that owns it.
#[derive(Debug, Clone, PartialEq, Eq)]
pub struct DeploymentAndProject {
    /// The project.
    pub project: Project,
    /// The deployment.
    pub deployment: Deployment,
}

/// Relies on chrono's `Utc::now` for the current wall-clock time, rendered
/// by its `Display` as a timestamp string. The time is not a function of any
/// argument, so nothing is promised of the value.
#[verifier::external_body]
fn now_utc_string() -> String {
    chrono::Utc::now().to_string()
}

impl DeploymentAndProject {
    /// Resolve an identifier to the deployment and project it names. Only
    /// the fixed `nginx` record exists for now; every other identifier is
    /// not found. The record's timestamps carry the current time and are not
    /// specified further.
    pub fn new(uuid: &str) -> (r: Result<DeploymentAndProject, DbNotFound>)
        ensures
            r is Ok <==> uuid@ == "nginx"@,
            r matches Ok(dp) ==> {
                &&& dp.project.uuid@ == "uuid_project"@
                &&& dp.project.name@ == "name_project"@
                &&& dp.project.user_id@ == "user_project"@
                &&& dp.deployment.uuid@ == "nginx"@
                &&& dp.deployment.name@ == "nginx"@
                &&& dp.deployment.config@ == Seq::<char>::empty()
                &&& dp.deployment.project_uuid@ == "uuid_project"@
            },
    {
        if String::from_str(uuid) == String::from_str("nginx") {
            Ok(
                DeploymentAndProject {
                    project: Project {
                        uuid: String::from_str("uuid_project"),
                        name: String::from_str("name_project"),
                        created_at: now_utc_string(),
                        updated_at: now_utc_string(),
                        user_id: String::from_str("user_project"),
                    },
                    deployment: Deployment {
                        uuid: String::from_str("nginx"),
                        name: String::from_str("nginx"),
                        config: String::new(),
                        created_at: now_utc_string(),
                        updated_at: now_utc_string(),
                        project_uuid: String::from_str("uuid_project"),
                    },
                },
            )
        } else {
            Err(DbNotFound)
        }
    }
}

impl Db {
    /// A handle to the collaborator.
    pub fn new() -> (r: Db)
        ensures
            r == (Db {  }),
    {
        Db {}
    }

    /// Resolve an identifier to the deployment and project it names.
    pub fn get_deployment_and_project(&self, uuid: &str) -> (r: Result<
        DeploymentAndProject,
        DbNotFound,
    >)
        ensures
            r is Ok <==> uuid@ == "nginx"@,
            r matches Ok(dp) ==> {
                &&& dp.project.uuid@ == "uuid_project"@
                &&& dp.project.name@ == "name_project"@
                &&& dp.project.user_id@ == "user_project"@
                &&& dp.deployment.uuid@ == "nginx"@
                &&& dp.deployment.name@ == "nginx"@
                &&& dp.deployment.config@ == Seq::<char>::empty()
                &&& dp.deployment.project_uuid@ == "uuid_project"@
            },
    {
        DeploymentAndProject::new(uuid)
    }

    /// Persist an environment-variable override set for a deployment,
    /// invoked after a successful restart. Persistence has no backing store
    /// yet, so every set succeeds.
    pub fn set_deployment_config(&self, _uuid: String, _config: String) -> (r: Result<
        (),
        DbNotFound,
    >)
        ensures
            r is Ok,
    {
        Ok(())
    }

    /// # Get App
    /// Get an application from its uuid: the image is the owning user's
    /// repository of the deployment, at the `latest` tag, with no
    /// environment overrides.
    pub fn get_app(&self, uuid: &str) -> (r: Result<Application, DbNotFound>)
        ensures
            r is Ok <==> uuid@ == "nginx"@,
            r matches Ok(app) ==> {
                &&& app.container_name@ == "nginx"@
                &&& app.image_name@ == "user_project"@ + "/"@ + "nginx"@
                &&& app.image_tag@ == "latest"@
                &&& app.env_variables@.len() == 0
            },
    {
        match self.get_deployment_and_project(uuid) {
            Ok(dp) => Ok(
                Application {
                    container_name: dp.deployment.uuid.clone(),
                    image_name: String::from_str(dp.project.user_id.as_str()).concat("/").concat(
                        dp.deployment.uuid.as_str(),
                    ),
                    image_tag: String::from_str("latest"),
                    env_variables: Vec::new(),
                },
            ),
            Err(e) => Err(e),
        }
    }

    /// # Get Custom App
    /// Get an application from its uuid and a given configuration: like
    /// [`Db::get_app`], but with the given environment overrides.
    pub fn get_custom_app(&self, uuid: &str, hashmap_config: Vec<(String, String)>) -> (r: Result<
        Application,
        DbNotFound,
    >)
        ensures
            r is Ok <==> uuid@ == "nginx"@,
            r matches Ok(app) ==> {
                &&& app.container_name@ == "nginx"@
                &&& app.image_name@ == "user_project"@ + "/"@ + "nginx"@
                &&& app.image_tag@ == "latest"@
                &&& app.env_variables == hashmap_config
            },
    {
        match self.get_deployment_and_project(uuid) {
            Ok(dp) => Ok(
                Application {
                    container_name: dp.deployment.uuid.clone(),
                    image_name: String::from_str(dp.project.user_id.as_str()).concat("/").concat(
                        dp.deployment.uuid.as_str(),
                    ),
                    image_tag: String::from_str("latest"),
                    env_variables: hashmap_config,
                },
            ),
            Err(e) => Err(e),
        }
    }
}

} // verus!

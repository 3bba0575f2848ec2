//! The deployment service's acknowledgement messages: what each remote call
//! answers, derived from the request's fields alone.

use vstd::prelude::*;
use vstd::string::StringExecFns;

verus! {

/// The deployment service behind the remote interface.
#[derive(Debug, Clone, Copy, PartialEq, Eq, Structural)]
pub struct PomegranateGrpcService {}

impl Default for PomegranateGrpcService {
    /// The service carries no state.
    fn default() -> (r: Self)
        ensures
            r == (PomegranateGrpcService {  }),
    {
        PomegranateGrpcService {}
    }
}

impl PomegranateGrpcService {
    /// The acknowledgement for a start-deployment request.
    pub fn start_deployment_message(&self, project_uuid: &str) -> (r: String)
        ensures
            r@ == "Start deployment ! UUID : "@ + project_uuid@ + "!"@,
    {
        String::from_str("Start deployment ! UUID : ").concat(project_uuid).concat("!")
    }

    /// The acknowledgement for a restart-deployment request.
    pub fn restart_deployment_message(&self, project_uuid: &str) -> (r: String)
        ensures
            r@ == "Restart Deployment ! UUID : "@ + project_uuid@ + "!"@,
    {
        String::from_str("Restart Deployment ! UUID : ").concat(project_uuid).concat("!")
    }

    /// The acknowledgement for a delete-deployment request.
    pub fn delete_deployment_message(&self, project_uuid: &str) -> (r: String)
        ensures
            r@ == "Delete Deployment ! UUID : "@ + project_uuid@ + "!"@,
    {
        String::from_str("Delete Deployment ! UUID : ").concat(project_uuid).concat("!")
    }

    /// The acknowledgement for a stop-deployment request.
    pub fn stop_deployment_message(&self, project_uuid: &str) -> (r: String)
        ensures
            r@ == "Stop Deployment ! UUID : "@ + project_uuid@ + "!"@,
    {
        String::from_str("Stop Deployment ! UUID : ").concat(project_uuid).concat("!")
    }

    /// The acknowledgement for a deployment-status request.
    pub fn deployment_status_message(&self, project_uuid: &str) -> (r: String)
        ensures
            r@ == "Deployment status ! UUID : "@ + project_uuid@ + "!"@,
    {
        String::from_str("Deployment status ! UUID : ").concat(project_uuid).concat("!")
    }

    /// The acknowledgement for an apply-config request.
    pub fn apply_config_deployment_message(&self, config: &str) -> (r: String)
        ensures
            r@ == "Apply Deployment Config ! Config : "@ + config@ + "!"@,
    {
        String::from_str("Apply Deployment Config ! Config : ").concat(config).concat("!")
    }
}

} // verus!

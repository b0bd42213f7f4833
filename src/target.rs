use vstd::prelude::*;
use crate::service::EnvironmentVariable;

verus! {

/// A Kubernetes cluster as the external tools reach it.
#[derive(Clone, Debug, PartialEq, Eq)]
pub struct Cluster {
    pub id: String,
    pub name: String,
    /// Path of the kubeconfig file handed to the chart manager and the cluster client.
    pub config_file_path: String,
    /// Cloud provider credentials, passed as environment variables to every tool.
    pub credentials: Vec<EnvironmentVariable>,
}

/// The environment a service is deployed into.
#[derive(Clone, Debug, PartialEq, Eq)]
pub struct Environment {
    pub id: String,
    pub namespace: String,
}

/// Which default-value policy applies to a deployment.
#[derive(Clone, Copy, Debug, PartialEq, Eq)]
pub enum DeploymentMode {
    ManagedServices,
    SelfHosted,
}

/// Where an operation runs: the same (cluster, environment) pair under either policy.
#[derive(Clone, Debug, PartialEq, Eq)]
pub enum DeploymentTarget {
    ManagedServices(Cluster, Environment),
    SelfHosted(Cluster, Environment),
}

impl DeploymentTarget {
    pub open spec fn spec_cluster(&self) -> Cluster {
        match self {
            DeploymentTarget::ManagedServices(k, _) => *k,
            DeploymentTarget::SelfHosted(k, _) => *k,
        }
    }

    pub open spec fn spec_environment(&self) -> Environment {
        match self {
            DeploymentTarget::ManagedServices(_, e) => *e,
            DeploymentTarget::SelfHosted(_, e) => *e,
        }
    }

    pub open spec fn spec_mode(&self) -> DeploymentMode {
        match self {
            DeploymentTarget::ManagedServices(_, _) => DeploymentMode::ManagedServices,
            DeploymentTarget::SelfHosted(_, _) => DeploymentMode::SelfHosted,
        }
    }

    /// The cluster, the environment and the policy; never fails.
    pub fn resolve(&self) -> (r: (&Cluster, &Environment, DeploymentMode))
        ensures
            *r.0 == self.spec_cluster(),
            *r.1 == self.spec_environment(),
            r.2 == self.spec_mode(),
    {
        match self {
            DeploymentTarget::ManagedServices(k, e) => (k, e, DeploymentMode::ManagedServices),
            DeploymentTarget::SelfHosted(k, e) => (k, e, DeploymentMode::SelfHosted),
        }
    }
}

} // verus!

//! The service and deployment that run a connection to an SQL database.
use vstd::prelude::*;
use crate::constants::{APP_LABEL, DATABASE_TYPE_LABEL, JWT_SECRET_REF_KEY, JWT_SECRET_REF_NAME};
use crate::connection::ConnectionType;
use crate::connection_definition::{connection_type_of, ConnectionDefinition, ConnectionDefinitionType};
use crate::string_map::{sorted_insert, StringMap};

verus! {

/// The port every database connection service listens on.
pub const DATABASE_PORT: i32 = 5005;

/// A port of a service.
pub struct ServicePort {
    pub name: Option<String>,
    pub port: i32,
    pub target_port: Option<i32>,
}

/// A port that a container listens on.
pub struct ContainerPort {
    pub container_port: i32,
}

/// A secret that an environment variable takes its value from.
pub struct SecretKeySelector {
    pub key: String,
    pub name: String,
    pub optional: Option<bool>,
}

/// A variable of a container's environment: a value or a secret's key.
pub struct EnvVar {
    pub name: String,
    pub value: Option<String>,
    pub secret_key_ref: Option<SecretKeySelector>,
}

/// What a service is created from.
pub struct ServiceSpecParams {
    pub ports: Vec<ServicePort>,
    pub kind: String,
    pub labels: StringMap,
    pub name: String,
    pub namespace: String,
}

/// What a deployment is created from.
pub struct DeploymentSpecParams {
    pub replicas: i32,
    pub labels: StringMap,
    pub namespace: String,
    pub image: String,
    pub env: Vec<EnvVar>,
    pub ports: Vec<ContainerPort>,
    pub name: String,
}

/// Only a connection to an SQL database runs in its own service.
pub fn needs_database_resources(definition: &ConnectionDefinition) -> (r: bool)
    ensures
        r == (connection_type_of(definition.kind) == (ConnectionType::DatabaseSql {  })),
{
    match definition.to_connection_type() {
        ConnectionType::DatabaseSql {  } => true,
        _ => false,
    }
}

/// The labels of a database connection's resources: the service name under
/// `app`, the platform under `database-type`.
pub open spec fn database_labels_of(service_name: Seq<char>, platform: Seq<char>) -> Seq<
    (Seq<char>, Seq<char>),
> {
    sorted_insert(
        sorted_insert(Seq::empty(), APP_LABEL@, service_name),
        DATABASE_TYPE_LABEL@,
        platform,
    )
}

pub fn database_labels(service_name: &str, platform: &str) -> (r: StringMap)
    ensures
        r@ == database_labels_of(service_name@, platform@),
{
    let mut labels = StringMap::new();
    labels.insert(String::from_str(APP_LABEL), String::from_str(service_name));
    labels.insert(String::from_str(DATABASE_TYPE_LABEL), String::from_str(platform));
    labels
}

/// The service of a database connection: port 80 named `http`, forwarded to
/// the database port, inside the cluster only.
pub fn database_service(name: String, namespace: String, labels: StringMap) -> (r:
    ServiceSpecParams)
    ensures
        r.ports@.len() == 1,
        r.ports@[0].name matches Some(n) && n@ == "http"@,
        r.ports@[0].port == 80,
        r.ports@[0].target_port == Some(DATABASE_PORT),
        r.kind@ == "ClusterIP"@,
        r.labels@ == labels@,
        r.name == name,
        r.namespace == namespace,
{
    let mut ports: Vec<ServicePort> = Vec::new();
    ports.push(
        ServicePort {
            name: Some(String::from_str("http")),
            port: 80,
            target_port: Some(DATABASE_PORT),
        },
    );
    ServiceSpecParams { ports, kind: String::from_str("ClusterIP"), labels, name, namespace }
}

/// An environment variable with a plain value.
pub open spec fn plain_var(e: EnvVar, name: Seq<char>, value: Seq<char>) -> bool {
    e.name@ == name && (e.value matches Some(v) && v@ == value) && e.secret_key_ref is None
}

/// The deployment of a database connection: one replica of `image` with the
/// pod's variables, then `JWT_SECRET` taken from the event secrets.
pub fn database_deployment(
    name: String,
    namespace: String,
    image: String,
    labels: StringMap,
    pod_variables: &Vec<(String, String)>,
) -> (r: DeploymentSpecParams)
    ensures
        r.replicas == 1,
        r.labels@ == labels@,
        r.namespace == namespace,
        r.image == image,
        r.name == name,
        r.ports@.len() == 1 && r.ports@[0].container_port == DATABASE_PORT,
        r.env@.len() == pod_variables@.len() + 1,
        forall|i: int|
            0 <= i < pod_variables@.len() ==> plain_var(
                #[trigger] r.env@[i],
                pod_variables@[i].0@,
                pod_variables@[i].1@,
            ),
        ({
            let j = r.env@[pod_variables@.len() as int];
            &&& j.name@ == "JWT_SECRET"@
            &&& j.value is None
            &&& j.secret_key_ref matches Some(s) && s.key@ == JWT_SECRET_REF_KEY@ && s.name@
                == JWT_SECRET_REF_NAME@ && s.optional == Some(false)
        }),
{
    let mut env: Vec<EnvVar> = Vec::new();
    let mut i: usize = 0;
    while i < pod_variables.len()
        invariant
            i <= pod_variables.len(),
            env@.len() == i,
            forall|k: int|
                0 <= k < i ==> plain_var(
                    #[trigger] env@[k],
                    pod_variables@[k].0@,
                    pod_variables@[k].1@,
                ),
        decreases pod_variables.len() - i,
    {
        let (k, v) = &pod_variables[i];
        env.push(EnvVar { name: k.clone(), value: Some(v.clone()), secret_key_ref: None });
        i = i + 1;
    }
    env.push(
        EnvVar {
            name: String::from_str("JWT_SECRET"),
            value: None,
            secret_key_ref: Some(
                SecretKeySelector {
                    key: String::from_str(JWT_SECRET_REF_KEY),
                    name: String::from_str(JWT_SECRET_REF_NAME),
                    optional: Some(false),
                },
            ),
        },
    );
    let mut ports: Vec<ContainerPort> = Vec::new();
    ports.push(ContainerPort { container_port: DATABASE_PORT });
    DeploymentSpecParams { replicas: 1, labels, namespace, image, env, ports, name }
}

} // verus!

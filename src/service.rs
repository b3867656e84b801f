use vstd::prelude::*;

verus! {

/// Identifier of a resource inside a service (an instance id, a bucket name...).
pub type ResourceId = String;

/// The six supported resource domains.
#[derive(Debug, Clone, Copy, PartialEq, Eq, Hash, Structural)]
pub enum ServiceType {
    EC2,
    S3,
    RDS,
    IAM,
    Secrets,
    EKS,
}

/// The services in their fixed catalog order.
pub open spec fn all_services() -> Seq<ServiceType> {
    seq![
        ServiceType::EC2,
        ServiceType::S3,
        ServiceType::RDS,
        ServiceType::IAM,
        ServiceType::Secrets,
        ServiceType::EKS,
    ]
}

pub open spec fn service_display_name(s: ServiceType) -> Seq<char> {
    match s {
        ServiceType::EC2 => "EC2"@,
        ServiceType::S3 => "S3"@,
        ServiceType::RDS => "RDS"@,
        ServiceType::IAM => "IAM"@,
        ServiceType::Secrets => "Secrets Manager"@,
        ServiceType::EKS => "EKS"@,
    }
}

pub open spec fn service_icon(s: ServiceType) -> Seq<char> {
    match s {
        ServiceType::EC2 => "💻"@,
        ServiceType::S3 => "🪣"@,
        ServiceType::RDS => "🗄️"@,
        ServiceType::IAM => "👤"@,
        ServiceType::Secrets => "🔐"@,
        ServiceType::EKS => "⚙️"@,
    }
}

/// Lower-case key of a service, used in command ids.
pub open spec fn service_key(s: ServiceType) -> Seq<char> {
    match s {
        ServiceType::EC2 => "ec2"@,
        ServiceType::S3 => "s3"@,
        ServiceType::RDS => "rds"@,
        ServiceType::IAM => "iam"@,
        ServiceType::Secrets => "secrets"@,
        ServiceType::EKS => "eks"@,
    }
}

impl ServiceType {
    /// Lower-case key of the service, used in command ids.
    pub fn key(&self) -> (r: &'static str)
        ensures
            r@ == service_key(*self),
    {
        match self {
            ServiceType::EC2 => "ec2",
            ServiceType::S3 => "s3",
            ServiceType::RDS => "rds",
            ServiceType::IAM => "iam",
            ServiceType::Secrets => "secrets",
            ServiceType::EKS => "eks",
        }
    }

    pub fn icon(&self) -> (r: &'static str)
        ensures
            r@ == service_icon(*self),
    {
        match self {
            ServiceType::EC2 => "💻",
            ServiceType::S3 => "🪣",
            ServiceType::RDS => "🗄️",
            ServiceType::IAM => "👤",
            ServiceType::Secrets => "🔐",
            ServiceType::EKS => "⚙️",
        }
    }

    pub fn all() -> (r: Vec<ServiceType>)
        ensures
            r@ == all_services(),
    {
        let r = vec![
            ServiceType::EC2,
            ServiceType::S3,
            ServiceType::RDS,
            ServiceType::IAM,
            ServiceType::Secrets,
            ServiceType::EKS,
        ];
        assert(r@ =~= all_services());
        r
    }

    pub fn display_name(&self) -> (r: &'static str)
        ensures
            r@ == service_display_name(*self),
    {
        match self {
            ServiceType::EC2 => "EC2",
            ServiceType::S3 => "S3",
            ServiceType::RDS => "RDS",
            ServiceType::IAM => "IAM",
            ServiceType::Secrets => "Secrets Manager",
            ServiceType::EKS => "EKS",
        }
    }
}

/// An account profile as read from the credentials files.
#[derive(Debug)]
pub struct AwsProfile {
    pub name: String,
    pub region: Option<String>,
    pub access_key_id: Option<String>,
    pub secret_access_key: Option<String>,
    pub session_token: Option<String>,
    pub role_arn: Option<String>,
    pub source_profile: Option<String>,
}

/// Copies an optional text.
pub fn clone_opt(o: &Option<String>) -> (r: Option<String>)
    ensures
        opt_view(*o) == opt_view(r),
{
    match o {
        Some(s) => Some(s.clone()),
        None => None,
    }
}

/// View of an optional text.
pub open spec fn opt_view(o: Option<String>) -> Option<Seq<char>> {
    match o {
        Some(s) => Some(s@),
        None => None,
    }
}

impl Clone for AwsProfile {
    fn clone(&self) -> (r: Self)
        ensures
            r.name@ == self.name@,
            opt_view(r.region) == opt_view(self.region),
    {
        AwsProfile {
            name: self.name.clone(),
            region: clone_opt(&self.region),
            access_key_id: clone_opt(&self.access_key_id),
            secret_access_key: clone_opt(&self.secret_access_key),
            session_token: clone_opt(&self.session_token),
            role_arn: clone_opt(&self.role_arn),
            source_profile: clone_opt(&self.source_profile),
        }
    }
}

/// A region: its code name and its human-readable name.
#[derive(Debug)]
pub struct AwsRegion {
    pub name: String,
    pub display_name: String,
}

impl Clone for AwsRegion {
    fn clone(&self) -> (r: Self)
        ensures
            r.name@ == self.name@,
            r.display_name@ == self.display_name@,
    {
        AwsRegion { name: self.name.clone(), display_name: self.display_name.clone() }
    }
}

/// A key/value tag on a resource.
#[derive(Debug, Clone)]
pub struct ResourceTag {
    pub key: String,
    pub value: String,
}

/// A resource found through its tags.
#[derive(Debug, Clone)]
pub struct TaggedResource {
    pub arn: String,
    pub service_type: ServiceType,
    pub resource_id: String,
    pub resource_name: Option<String>,
    pub tags: Vec<ResourceTag>,
    pub region: String,
}

/// A tag query: a key, and optionally the value it must have.
#[derive(Debug, Clone)]
pub struct TagFilter {
    pub key: String,
    pub value: Option<String>,
}

/// Kinds of action recorded against a resource.
#[derive(Debug, Clone, Copy, PartialEq, Eq, Structural)]
pub enum ActionType {
    Create,
    Read,
    Update,
    Delete,
    Start,
    Stop,
    Restart,
}

/// A managed database instance.
#[derive(Debug, Clone)]
pub struct RdsInstance {
    pub db_instance_identifier: String,
    pub db_instance_class: String,
    pub engine: String,
    pub engine_version: String,
    pub db_instance_status: String,
    pub allocated_storage: i32,
    pub availability_zone: String,
    pub endpoint: Option<String>,
    pub port: Option<i32>,
    pub vpc_security_groups: Vec<String>,
}

} // verus!

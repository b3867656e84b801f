use vstd::prelude::*;
use crate::error::AppError;
use crate::service::{RdsInstance, TaggedResource, TagFilter, ResourceTag};

verus! {

/// Clients of the resource provider for one region.
#[derive(Debug)]
pub struct RegionClients {
    pub region: String,
}

/// The resource provider's clients: the active profile and region. Switching
/// always succeeds; the provider keeps no other state.
#[derive(Debug)]
pub struct MultiRegionAwsClients {
    pub current_region: String,
    pub current_profile: String,
}

impl MultiRegionAwsClients {
    pub fn new(profile: &str, region: &str) -> (r: Result<Self, AppError>)
        ensures
            match r {
                Ok(c) => c.current_profile@ == profile@ && c.current_region@ == region@,
                Err(_) => false,
            },
    {
        Ok(MultiRegionAwsClients { current_region: region.to_string(), current_profile: profile.to_string() })
    }

    pub fn switch_region(&mut self, region: &str) -> (r: Result<(), AppError>)
        ensures
            r is Ok,
            final(self).current_region@ == region@,
            final(self).current_profile == old(self).current_profile,
    {
        self.current_region = region.to_string();
        Ok(())
    }

    pub fn switch_profile(&mut self, profile: &str) -> (r: Result<(), AppError>)
        ensures
            r is Ok,
            final(self).current_profile@ == profile@,
            final(self).current_region == old(self).current_region,
    {
        self.current_profile = profile.to_string();
        Ok(())
    }

    /// Clients for the active region.
    pub fn get_current_clients(&self) -> (r: Option<RegionClients>)
        ensures
            match r {
                Some(c) => c.region@ == self.current_region@,
                None => false,
            },
    {
        Some(RegionClients { region: self.current_region.clone() })
    }

    /// Clients for any region.
    pub fn get_clients_for_region(&self, region: &str) -> (r: Option<RegionClients>)
        ensures
            match r {
                Some(c) => c.region@ == region@,
                None => false,
            },
    {
        Some(RegionClients { region: region.to_string() })
    }

    pub fn current_region(&self) -> (r: &str)
        ensures
            r@ == self.current_region@,
    {
        self.current_region.as_str()
    }

    pub fn current_profile(&self) -> (r: &str)
        ensures
            r@ == self.current_profile@,
    {
        self.current_profile.as_str()
    }
}

/// Identity behind the active credentials.
#[derive(Debug, Clone)]
pub struct CredentialsInfo {
    pub user_id: String,
    pub account: String,
    pub arn: String,
    pub valid: bool,
}

/// Checks the active credentials with the provider.
#[derive(Debug)]
pub struct CredentialsValidator {}

impl CredentialsValidator {
    pub fn new() -> (r: Self) {
        CredentialsValidator {}
    }
}

/// Resource lookup by tags.
#[derive(Debug)]
pub struct TaggingService {}

impl TaggingService {
    pub fn new() -> (r: Self) {
        TaggingService {}
    }

    /// Tags a resource; the provider accepts every request.
    pub fn tag_resource(&self, arn: &str, tags: &Vec<ResourceTag>) -> (r: Result<(), AppError>)
        ensures
            r is Ok,
    {
        Ok(())
    }

    /// Removes tags from a resource; the provider accepts every request.
    pub fn untag_resource(&self, arn: &str, tag_keys: &Vec<String>) -> (r: Result<(), AppError>)
        ensures
            r is Ok,
    {
        Ok(())
    }

    /// Resources matching every filter; the provider reports none.
    pub fn get_resources_by_tag(&self, tag_filters: &Vec<TagFilter>) -> (r: Result<Vec<TaggedResource>, AppError>)
        ensures
            match r {
                Ok(v) => v@.len() == 0,
                Err(_) => false,
            },
    {
        Ok(Vec::new())
    }

    /// All tagged resources; the provider reports none.
    pub fn get_all_resources(&self) -> (r: Result<Vec<TaggedResource>, AppError>)
        ensures
            match r {
                Ok(v) => v@.len() == 0,
                Err(_) => false,
            },
    {
        Ok(Vec::new())
    }
}

/// Operations of the compute service, bound to a region's clients.
pub struct Ec2Service<'a> {
    pub clients: &'a RegionClients,
}

impl<'a> Ec2Service<'a> {
    pub fn new(clients: &'a RegionClients) -> (r: Self)
        ensures
            r.clients == clients,
    {
        Ec2Service { clients }
    }

    /// Accepted by the provider in every case.
    pub fn start_instance(&self, instance_id: &str) -> (r: Result<(), AppError>)
        ensures
            r is Ok,
    {
        Ok(())
    }

    /// Accepted by the provider in every case.
    pub fn stop_instance(&self, instance_id: &str) -> (r: Result<(), AppError>)
        ensures
            r is Ok,
    {
        Ok(())
    }

    /// Accepted by the provider in every case.
    pub fn terminate_instance(&self, instance_id: &str) -> (r: Result<(), AppError>)
        ensures
            r is Ok,
    {
        Ok(())
    }

    /// Accepted by the provider in every case.
    pub fn reboot_instance(&self, instance_id: &str) -> (r: Result<(), AppError>)
        ensures
            r is Ok,
    {
        Ok(())
    }
}

/// Operations of the object storage service, bound to a region's clients.
pub struct S3Service<'a> {
    pub clients: &'a RegionClients,
}

impl<'a> S3Service<'a> {
    pub fn new(clients: &'a RegionClients) -> (r: Self)
        ensures
            r.clients == clients,
    {
        S3Service { clients }
    }

    /// Accepted by the provider in every case.
    pub fn create_bucket(&self, bucket_name: &str) -> (r: Result<(), AppError>)
        ensures
            r is Ok,
    {
        Ok(())
    }

    /// Accepted by the provider in every case.
    pub fn delete_bucket(&self, bucket_name: &str) -> (r: Result<(), AppError>)
        ensures
            r is Ok,
    {
        Ok(())
    }
}

/// Operations of the database service, bound to a region's clients.
pub struct RdsService<'a> {
    pub clients: &'a RegionClients,
}

impl<'a> RdsService<'a> {
    pub fn new(clients: &'a RegionClients) -> (r: Self)
        ensures
            r.clients == clients,
    {
        RdsService { clients }
    }

    /// Accepted by the provider in every case.
    pub fn create_instance(&self, instance_id: &str) -> (r: Result<(), AppError>)
        ensures
            r is Ok,
    {
        Ok(())
    }

    /// Accepted by the provider in every case.
    pub fn delete_instance(&self, instance_id: &str) -> (r: Result<(), AppError>)
        ensures
            r is Ok,
    {
        Ok(())
    }

    /// The provider reports no database instances.
    pub fn list_instances(&self) -> (r: Result<Vec<RdsInstance>, AppError>)
        ensures
            match r {
                Ok(v) => v@.len() == 0,
                Err(_) => false,
            },
    {
        Ok(Vec::new())
    }

    /// The provider reports no database instance of any id.
    pub fn get_instance(&self, instance_id: &str) -> (r: Result<Option<RdsInstance>, AppError>)
        ensures
            match r {
                Ok(v) => v is None,
                Err(_) => false,
            },
    {
        Ok(None)
    }
}

/// Operations of the identity service, bound to a region's clients.
pub struct IamService<'a> {
    pub clients: &'a RegionClients,
}

impl<'a> IamService<'a> {
    pub fn new(clients: &'a RegionClients) -> (r: Self)
        ensures
            r.clients == clients,
    {
        IamService { clients }
    }

    /// Accepted by the provider in every case.
    pub fn create_user(&self, user_name: &str) -> (r: Result<(), AppError>)
        ensures
            r is Ok,
    {
        Ok(())
    }

    /// Accepted by the provider in every case.
    pub fn delete_user(&self, user_name: &str) -> (r: Result<(), AppError>)
        ensures
            r is Ok,
    {
        Ok(())
    }
}

/// Operations of the secrets service, bound to a region's clients.
pub struct SecretsService<'a> {
    pub clients: &'a RegionClients,
}

impl<'a> SecretsService<'a> {
    pub fn new(clients: &'a RegionClients) -> (r: Self)
        ensures
            r.clients == clients,
    {
        SecretsService { clients }
    }

    /// Accepted by the provider in every case.
    pub fn delete_secret(&self, secret_name: &str) -> (r: Result<(), AppError>)
        ensures
            r is Ok,
    {
        Ok(())
    }

    /// Accepted by the provider in every case.
    pub fn create_secret(&self, secret_name: &str, secret_value: &str) -> (r: Result<(), AppError>)
        ensures
            r is Ok,
    {
        Ok(())
    }
}

/// Operations of the container cluster service, bound to a region's clients.
pub struct EksService<'a> {
    pub clients: &'a RegionClients,
}

impl<'a> EksService<'a> {
    pub fn new(clients: &'a RegionClients) -> (r: Self)
        ensures
            r.clients == clients,
    {
        EksService { clients }
    }

    /// Accepted by the provider in every case.
    pub fn create_cluster(&self, cluster_name: &str) -> (r: Result<(), AppError>)
        ensures
            r is Ok,
    {
        Ok(())
    }

    /// Accepted by the provider in every case.
    pub fn delete_cluster(&self, cluster_name: &str) -> (r: Result<(), AppError>)
        ensures
            r is Ok,
    {
        Ok(())
    }
}

} // verus!

use vstd::prelude::*;
use vstd::string::*;
use crate::commands::{
    ActionView, Command, CommandAction, CommandCategory, CommandView, ContextRequirement,
    RequirementView, ServiceCommand, command_description, command_display_name, command_key,
    commands_view,
};
use crate::context::{CommandContext, ContextView, is_service};
use crate::service::{ServiceType, all_services, service_icon, service_key};

verus! {

/// The actions of a service in catalog order.
pub open spec fn catalog_actions(s: ServiceType) -> Seq<ServiceCommand> {
    match s {
        ServiceType::EC2 => seq![ServiceCommand::ListInstances, ServiceCommand::CreateInstance, ServiceCommand::StartInstance, ServiceCommand::StopInstance, ServiceCommand::RebootInstance, ServiceCommand::TerminateInstance, ServiceCommand::DescribeInstance],
        ServiceType::S3 => seq![ServiceCommand::ListBuckets, ServiceCommand::CreateBucket, ServiceCommand::DeleteBucket, ServiceCommand::GetBucketInfo, ServiceCommand::ListObjects, ServiceCommand::UploadObject, ServiceCommand::DownloadObject],
        ServiceType::RDS => seq![ServiceCommand::ListDatabases, ServiceCommand::StartDatabase, ServiceCommand::StopDatabase, ServiceCommand::RebootDatabase, ServiceCommand::DescribeDatabase, ServiceCommand::CreateSnapshot, ServiceCommand::RestoreSnapshot],
        ServiceType::IAM => seq![ServiceCommand::ListUsers, ServiceCommand::ListRoles, ServiceCommand::CreateUser, ServiceCommand::CreateRole, ServiceCommand::DeleteUser, ServiceCommand::DeleteRole, ServiceCommand::AttachPolicy, ServiceCommand::DetachPolicy],
        ServiceType::Secrets => seq![ServiceCommand::ListSecrets, ServiceCommand::CreateSecret, ServiceCommand::UpdateSecret, ServiceCommand::DeleteSecret, ServiceCommand::DescribeSecret, ServiceCommand::GetSecretValue],
        ServiceType::EKS => seq![ServiceCommand::ListClusters, ServiceCommand::CreateCluster, ServiceCommand::DeleteCluster, ServiceCommand::DescribeCluster, ServiceCommand::UpdateKubeconfig, ServiceCommand::ListNodeGroups],
    }
}

/// How many leading actions of a service's catalog need no selected resource.
pub open spec fn unscoped_count(s: ServiceType) -> int {
    match s {
        ServiceType::EC2 => 2,
        ServiceType::S3 => 2,
        ServiceType::RDS => 1,
        ServiceType::IAM => 4,
        ServiceType::Secrets => 2,
        ServiceType::EKS => 2,
    }
}

/// Name of an action as listed in the catalog.
pub open spec fn catalog_name(c: ServiceCommand) -> Seq<char> {
    match c {
        ServiceCommand::ListInstances => "List EC2 Instances"@,
        ServiceCommand::CreateInstance => "Create EC2 Instance"@,
        ServiceCommand::ListBuckets => "List S3 Buckets"@,
        ServiceCommand::CreateBucket => "Create S3 Bucket"@,
        ServiceCommand::ListDatabases => "List RDS Databases"@,
        ServiceCommand::ListSecrets => "List Secrets"@,
        ServiceCommand::CreateSecret => "Create Secret"@,
        ServiceCommand::ListClusters => "List EKS Clusters"@,
        ServiceCommand::CreateCluster => "Create EKS Cluster"@,
        _ => command_display_name(c),
    }
}

/// Description of an action as listed in the catalog.
pub open spec fn catalog_description(c: ServiceCommand) -> Seq<char> {
    match c {
        ServiceCommand::ListInstances => "List all EC2 instances in the current region"@,
        ServiceCommand::CreateInstance => "Launch a new EC2 instance"@,
        ServiceCommand::ListBuckets => "List all S3 buckets in the current account"@,
        ServiceCommand::CreateBucket => "Create a new S3 bucket"@,
        ServiceCommand::ListDatabases => "List all RDS database instances"@,
        ServiceCommand::ListSecrets => "List all secrets in Secrets Manager"@,
        ServiceCommand::CreateSecret => "Create a new secret in Secrets Manager"@,
        ServiceCommand::ListClusters => "List all EKS clusters in the current region"@,
        ServiceCommand::CreateCluster => "Create a new EKS cluster"@,
        _ => command_description(c),
    }
}

/// The actions of a service in catalog order.
pub fn catalog_actions_of(s: ServiceType) -> (r: Vec<ServiceCommand>)
    ensures
        r@ == catalog_actions(s),
{
    let r = match s {
        ServiceType::EC2 => vec![ServiceCommand::ListInstances, ServiceCommand::CreateInstance, ServiceCommand::StartInstance, ServiceCommand::StopInstance, ServiceCommand::RebootInstance, ServiceCommand::TerminateInstance, ServiceCommand::DescribeInstance],
        ServiceType::S3 => vec![ServiceCommand::ListBuckets, ServiceCommand::CreateBucket, ServiceCommand::DeleteBucket, ServiceCommand::GetBucketInfo, ServiceCommand::ListObjects, ServiceCommand::UploadObject, ServiceCommand::DownloadObject],
        ServiceType::RDS => vec![ServiceCommand::ListDatabases, ServiceCommand::StartDatabase, ServiceCommand::StopDatabase, ServiceCommand::RebootDatabase, ServiceCommand::DescribeDatabase, ServiceCommand::CreateSnapshot, ServiceCommand::RestoreSnapshot],
        ServiceType::IAM => vec![ServiceCommand::ListUsers, ServiceCommand::ListRoles, ServiceCommand::CreateUser, ServiceCommand::CreateRole, ServiceCommand::DeleteUser, ServiceCommand::DeleteRole, ServiceCommand::AttachPolicy, ServiceCommand::DetachPolicy],
        ServiceType::Secrets => vec![ServiceCommand::ListSecrets, ServiceCommand::CreateSecret, ServiceCommand::UpdateSecret, ServiceCommand::DeleteSecret, ServiceCommand::DescribeSecret, ServiceCommand::GetSecretValue],
        ServiceType::EKS => vec![ServiceCommand::ListClusters, ServiceCommand::CreateCluster, ServiceCommand::DeleteCluster, ServiceCommand::DescribeCluster, ServiceCommand::UpdateKubeconfig, ServiceCommand::ListNodeGroups],
    };
    assert(r@ =~= catalog_actions(s));
    r
}

/// How many leading actions of a service's catalog need no selected resource.
pub fn unscoped_count_of(s: ServiceType) -> (r: usize)
    ensures
        r == unscoped_count(s),
{
    match s {
        ServiceType::EC2 => 2,
        ServiceType::S3 => 2,
        ServiceType::RDS => 1,
        ServiceType::IAM => 4,
        ServiceType::Secrets => 2,
        ServiceType::EKS => 2,
    }
}

/// Name of an action as listed in the catalog.
pub fn catalog_name_of(c: ServiceCommand) -> (r: &'static str)
    ensures
        r@ == catalog_name(c),
{
    match c {
        ServiceCommand::ListInstances => "List EC2 Instances",
        ServiceCommand::CreateInstance => "Create EC2 Instance",
        ServiceCommand::ListBuckets => "List S3 Buckets",
        ServiceCommand::CreateBucket => "Create S3 Bucket",
        ServiceCommand::ListDatabases => "List RDS Databases",
        ServiceCommand::ListSecrets => "List Secrets",
        ServiceCommand::CreateSecret => "Create Secret",
        ServiceCommand::ListClusters => "List EKS Clusters",
        ServiceCommand::CreateCluster => "Create EKS Cluster",
        _ => c.display_name(),
    }
}

/// Description of an action as listed in the catalog.
pub fn catalog_description_of(c: ServiceCommand) -> (r: &'static str)
    ensures
        r@ == catalog_description(c),
{
    match c {
        ServiceCommand::ListInstances => "List all EC2 instances in the current region",
        ServiceCommand::CreateInstance => "Launch a new EC2 instance",
        ServiceCommand::ListBuckets => "List all S3 buckets in the current account",
        ServiceCommand::CreateBucket => "Create a new S3 bucket",
        ServiceCommand::ListDatabases => "List all RDS database instances",
        ServiceCommand::ListSecrets => "List all secrets in Secrets Manager",
        ServiceCommand::CreateSecret => "Create a new secret in Secrets Manager",
        ServiceCommand::ListClusters => "List all EKS clusters in the current region",
        ServiceCommand::CreateCluster => "Create a new EKS cluster",
        _ => c.description(),
    }
}

/// Search keywords of an action in the catalog.
pub fn catalog_keywords(c: ServiceCommand) -> (r: Vec<String>)
    ensures
        r@.len() > 0,
{
    match c {
        ServiceCommand::ListInstances => vec!["ec2".to_string(), "list".to_string(), "instances".to_string(), "show".to_string(), "view".to_string()],
        ServiceCommand::CreateInstance => vec!["ec2".to_string(), "create".to_string(), "launch".to_string(), "new".to_string(), "instance".to_string()],
        ServiceCommand::StartInstance => vec!["ec2".to_string(), "instance".to_string(), "start".to_string(), "run".to_string(), "launch".to_string()],
        ServiceCommand::StopInstance => vec!["ec2".to_string(), "instance".to_string(), "stop".to_string(), "halt".to_string(), "shutdown".to_string()],
        ServiceCommand::RebootInstance => vec!["ec2".to_string(), "instance".to_string(), "reboot".to_string(), "restart".to_string(), "reset".to_string()],
        ServiceCommand::TerminateInstance => vec!["ec2".to_string(), "instance".to_string(), "terminate".to_string(), "destroy".to_string(), "delete".to_string()],
        ServiceCommand::DescribeInstance => vec!["ec2".to_string(), "instance".to_string(), "describe".to_string(), "details".to_string(), "info".to_string()],
        ServiceCommand::ListBuckets => vec!["s3".to_string(), "list".to_string(), "buckets".to_string(), "show".to_string(), "view".to_string()],
        ServiceCommand::CreateBucket => vec!["s3".to_string(), "create".to_string(), "new".to_string(), "bucket".to_string()],
        ServiceCommand::DeleteBucket => vec!["s3".to_string(), "bucket".to_string(), "delete".to_string(), "remove".to_string(), "destroy".to_string()],
        ServiceCommand::GetBucketInfo => vec!["s3".to_string(), "bucket".to_string(), "info".to_string(), "details".to_string(), "describe".to_string()],
        ServiceCommand::ListObjects => vec!["s3".to_string(), "bucket".to_string(), "list".to_string(), "objects".to_string(), "contents".to_string()],
        ServiceCommand::UploadObject => vec!["s3".to_string(), "bucket".to_string(), "upload".to_string(), "put".to_string(), "add".to_string()],
        ServiceCommand::DownloadObject => vec!["s3".to_string(), "bucket".to_string(), "download".to_string(), "get".to_string(), "retrieve".to_string()],
        ServiceCommand::ListDatabases => vec!["rds".to_string(), "list".to_string(), "databases".to_string(), "db".to_string(), "show".to_string()],
        ServiceCommand::StartDatabase => vec!["rds".to_string(), "database".to_string(), "db".to_string(), "start".to_string(), "run".to_string(), "launch".to_string()],
        ServiceCommand::StopDatabase => vec!["rds".to_string(), "database".to_string(), "db".to_string(), "stop".to_string(), "halt".to_string(), "shutdown".to_string()],
        ServiceCommand::RebootDatabase => vec!["rds".to_string(), "database".to_string(), "db".to_string(), "reboot".to_string(), "restart".to_string(), "reset".to_string()],
        ServiceCommand::DescribeDatabase => vec!["rds".to_string(), "database".to_string(), "db".to_string(), "describe".to_string(), "details".to_string(), "info".to_string()],
        ServiceCommand::CreateSnapshot => vec!["rds".to_string(), "database".to_string(), "db".to_string(), "snapshot".to_string(), "backup".to_string(), "create".to_string()],
        ServiceCommand::RestoreSnapshot => vec!["rds".to_string(), "database".to_string(), "db".to_string(), "restore".to_string(), "recover".to_string(), "snapshot".to_string()],
        ServiceCommand::ListUsers => vec!["iam".to_string(), "list".to_string(), "show".to_string(), "users".to_string(), "people".to_string()],
        ServiceCommand::ListRoles => vec!["iam".to_string(), "list".to_string(), "show".to_string(), "roles".to_string(), "permissions".to_string()],
        ServiceCommand::CreateUser => vec!["iam".to_string(), "create".to_string(), "new".to_string(), "user".to_string(), "person".to_string()],
        ServiceCommand::CreateRole => vec!["iam".to_string(), "create".to_string(), "new".to_string(), "role".to_string(), "permission".to_string()],
        ServiceCommand::DeleteUser => vec!["iam".to_string(), "delete".to_string(), "remove".to_string(), "user".to_string()],
        ServiceCommand::DeleteRole => vec!["iam".to_string(), "delete".to_string(), "remove".to_string(), "role".to_string()],
        ServiceCommand::AttachPolicy => vec!["iam".to_string(), "attach".to_string(), "policy".to_string(), "permission".to_string()],
        ServiceCommand::DetachPolicy => vec!["iam".to_string(), "detach".to_string(), "policy".to_string(), "permission".to_string()],
        ServiceCommand::ListSecrets => vec!["secrets".to_string(), "list".to_string(), "show".to_string(), "passwords".to_string(), "keys".to_string()],
        ServiceCommand::CreateSecret => vec!["secrets".to_string(), "create".to_string(), "new".to_string(), "password".to_string(), "key".to_string()],
        ServiceCommand::UpdateSecret => vec!["secrets".to_string(), "secret".to_string(), "update".to_string(), "modify".to_string(), "change".to_string()],
        ServiceCommand::DeleteSecret => vec!["secrets".to_string(), "secret".to_string(), "delete".to_string(), "remove".to_string(), "destroy".to_string()],
        ServiceCommand::DescribeSecret => vec!["secrets".to_string(), "secret".to_string(), "describe".to_string(), "details".to_string(), "info".to_string()],
        ServiceCommand::GetSecretValue => vec!["secrets".to_string(), "secret".to_string(), "get".to_string(), "retrieve".to_string(), "value".to_string()],
        ServiceCommand::ListClusters => vec!["eks".to_string(), "list".to_string(), "clusters".to_string(), "kubernetes".to_string(), "k8s".to_string()],
        ServiceCommand::CreateCluster => vec!["eks".to_string(), "create".to_string(), "new".to_string(), "cluster".to_string(), "kubernetes".to_string()],
        ServiceCommand::DeleteCluster => vec!["eks".to_string(), "cluster".to_string(), "kubernetes".to_string(), "delete".to_string(), "remove".to_string(), "destroy".to_string()],
        ServiceCommand::DescribeCluster => vec!["eks".to_string(), "cluster".to_string(), "kubernetes".to_string(), "describe".to_string(), "details".to_string(), "info".to_string()],
        ServiceCommand::UpdateKubeconfig => vec!["eks".to_string(), "cluster".to_string(), "kubernetes".to_string(), "kubeconfig".to_string(), "kubectl".to_string(), "config".to_string()],
        ServiceCommand::ListNodeGroups => vec!["eks".to_string(), "cluster".to_string(), "kubernetes".to_string(), "nodes".to_string(), "nodegroups".to_string(), "workers".to_string()],
    }
}

/// Id of the catalog command for an action of a service.
pub open spec fn service_command_id(s: ServiceType, a: ServiceCommand) -> Seq<char> {
    "service."@ + service_key(s) + "."@ + command_key(a)
}

/// Requirements of a catalog command: the service, and for a resource-scoped one
/// also a selected resource of that service.
pub open spec fn service_requirements(s: ServiceType, scoped: bool) -> Seq<RequirementView> {
    if scoped {
        seq![RequirementView::ServiceSelected(s), RequirementView::ResourceOfTypeSelected(s)]
    } else {
        seq![RequirementView::ServiceSelected(s)]
    }
}

/// `c` is the catalog command for action `a` of service `s`.
pub open spec fn is_service_entry(
    c: CommandView,
    s: ServiceType,
    a: ServiceCommand,
    scoped: bool,
    enabled: bool,
) -> bool {
    &&& c.id == service_command_id(s, a)
    &&& c.name == catalog_name(a)
    &&& c.description == catalog_description(a)
    &&& c.category == CommandCategory::Service(s)
    &&& c.action == ActionView::ExecuteServiceCommand(s, a)
    &&& c.icon == service_icon(s)
    &&& c.enabled == enabled
    &&& c.requirements == service_requirements(s, scoped)
}

/// `cs` is the catalog of service `s`, with the given enabled flags for the
/// unscoped and the resource-scoped actions.
pub open spec fn is_service_catalog(
    cs: Seq<CommandView>,
    s: ServiceType,
    list_enabled: bool,
    resource_enabled: bool,
) -> bool {
    &&& cs.len() == catalog_actions(s).len()
    &&& forall|i: int|
        0 <= i < cs.len() ==> is_service_entry(
            #[trigger] cs[i],
            s,
            catalog_actions(s)[i],
            i >= unscoped_count(s),
            if i >= unscoped_count(s) {
                resource_enabled
            } else {
                list_enabled
            },
        )
}

/// Enabled flag of an unscoped action of `s` in a context.
pub open spec fn list_enabled(ctx: ContextView, s: ServiceType) -> bool {
    ctx.service == Some(s)
}

/// Enabled flag of a resource-scoped action of `s` in a context.
pub open spec fn resource_enabled(ctx: ContextView, s: ServiceType) -> bool {
    ctx.resource is Some && ctx.service == Some(s)
}

fn service_command_id_of(s: ServiceType, a: ServiceCommand) -> (r: String)
    ensures
        r@ == service_command_id(s, a),
{
    let mut id = String::from_str("service.");
    id.append(s.key());
    id.append(".");
    id.append(a.key());
    id
}

/// The catalog command for action `a` of service `s`.
pub fn service_entry(s: ServiceType, a: ServiceCommand, scoped: bool, enabled: bool) -> (r: Command)
    ensures
        is_service_entry(r@, s, a, scoped, enabled),
{
    let reqs = if scoped {
        vec![ContextRequirement::ServiceSelected(s), ContextRequirement::ResourceOfTypeSelected(s)]
    } else {
        vec![ContextRequirement::ServiceSelected(s)]
    };
    let r = Command {
        id: service_command_id_of(s, a),
        name: catalog_name_of(a).to_string(),
        description: catalog_description_of(a).to_string(),
        category: CommandCategory::Service(s),
        action: CommandAction::ExecuteServiceCommand(s, a),
        icon: s.icon().to_string(),
        keywords: catalog_keywords(a),
        enabled,
        context_requirements: reqs,
    };
    assert(r@.requirements =~= service_requirements(s, scoped));
    r
}

/// The catalog of one service, with the given enabled flags for its unscoped
/// and its resource-scoped actions.
pub fn create_service_catalog(s: ServiceType, list_enabled: bool, resource_enabled: bool) -> (r: Vec<
    Command,
>)
    ensures
        is_service_catalog(commands_view(r@), s, list_enabled, resource_enabled),
{
    let actions = catalog_actions_of(s);
    let lead = unscoped_count_of(s);
    let mut r: Vec<Command> = Vec::new();
    let mut i: usize = 0;
    while i < actions.len()
        invariant
            actions@ == catalog_actions(s),
            lead == unscoped_count(s),
            i <= actions@.len(),
            r@.len() == i,
            forall|j: int|
                0 <= j < i ==> is_service_entry(
                    (#[trigger] r@[j])@,
                    s,
                    catalog_actions(s)[j],
                    j >= unscoped_count(s),
                    if j >= unscoped_count(s) {
                        resource_enabled
                    } else {
                        list_enabled
                    },
                ),
        decreases actions.len() - i,
    {
        let scoped = i >= lead;
        let enabled = if scoped {
            resource_enabled
        } else {
            list_enabled
        };
        r.push(service_entry(s, actions[i], scoped, enabled));
        i = i + 1;
    }
    assert forall|j: int| 0 <= j < r@.len() implies is_service_entry(
        #[trigger] commands_view(r@)[j],
        s,
        catalog_actions(s)[j],
        j >= unscoped_count(s),
        if j >= unscoped_count(s) {
            resource_enabled
        } else {
            list_enabled
        },
    ) by {
        assert(commands_view(r@)[j] == r@[j]@);
    }
    r
}

/// The catalog slots of one service: the service, the action, and whether the
/// action is resource-scoped.
pub open spec fn entries_of(s: ServiceType) -> Seq<(ServiceType, ServiceCommand, bool)> {
    Seq::new(
        catalog_actions(s).len(),
        |i: int| (s, catalog_actions(s)[i], i >= unscoped_count(s)),
    )
}

/// The catalog slots of the first `k` services, in service order.
pub open spec fn entries_upto(k: nat) -> Seq<(ServiceType, ServiceCommand, bool)>
    decreases k,
{
    if k == 0 {
        seq![]
    } else {
        entries_upto((k - 1) as nat) + entries_of(all_services()[k - 1])
    }
}

/// The catalog slots of every service.
pub open spec fn service_entries() -> Seq<(ServiceType, ServiceCommand, bool)> {
    entries_upto(6)
}

/// Enabled flag of a catalog slot in a context; without a context every slot is enabled.
pub open spec fn slot_enabled(ctx: Option<ContextView>, s: ServiceType, scoped: bool) -> bool {
    match ctx {
        None => true,
        Some(ctx) => if scoped {
            resource_enabled(ctx, s)
        } else {
            list_enabled(ctx, s)
        },
    }
}

/// View of an optional context.
pub open spec fn opt_context(ctx: Option<&CommandContext>) -> Option<ContextView> {
    match ctx {
        None => None,
        Some(c) => Some(c@),
    }
}

/// `cs` holds the catalog commands of the given slots, enabled as in `ctx`.
pub open spec fn fills_slots(
    cs: Seq<CommandView>,
    slots: Seq<(ServiceType, ServiceCommand, bool)>,
    ctx: Option<ContextView>,
) -> bool {
    &&& cs.len() == slots.len()
    &&& forall|j: int|
        0 <= j < cs.len() ==> is_service_entry(
            #[trigger] cs[j],
            slots[j].0,
            slots[j].1,
            slots[j].2,
            slot_enabled(ctx, slots[j].0, slots[j].2),
        )
}

/// The catalog of one service with the enabled flags that `context` gives it
/// (all enabled without a context).
pub fn service_catalog_for(s: ServiceType, context: Option<&CommandContext>) -> (r: Vec<Command>)
    ensures
        is_service_catalog(
            commands_view(r@),
            s,
            slot_enabled(opt_context(context), s, false),
            slot_enabled(opt_context(context), s, true),
        ),
        fills_slots(commands_view(r@), entries_of(s), opt_context(context)),
{
    let r = match context {
        None => create_service_catalog(s, true, true),
        Some(context) => {
            let selected = is_service(context.selected_service, s);
            create_service_catalog(s, selected, selected && context.selected_resource.is_some())
        },
    };
    assert forall|j: int| 0 <= j < commands_view(r@).len() implies is_service_entry(
        #[trigger] commands_view(r@)[j],
        entries_of(s)[j].0,
        entries_of(s)[j].1,
        entries_of(s)[j].2,
        slot_enabled(opt_context(context), entries_of(s)[j].0, entries_of(s)[j].2),
    ) by {
        assert(entries_of(s)[j] == (s, catalog_actions(s)[j], j >= unscoped_count(s)));
    }
    r
}

/// The catalogs of all six services, enabled as `context` gives them.
pub fn create_service_commands_with_context(context: &CommandContext) -> (r: Vec<Command>)
    ensures
        fills_slots(commands_view(r@), service_entries(), Some(context@)),
{
    all_service_catalogs(Some(context))
}

/// The catalogs of all six services, all enabled.
pub fn create_service_commands() -> (r: Vec<Command>)
    ensures
        fills_slots(commands_view(r@), service_entries(), None),
{
    all_service_catalogs(None)
}

fn all_service_catalogs(context: Option<&CommandContext>) -> (r: Vec<Command>)
    ensures
        fills_slots(commands_view(r@), service_entries(), opt_context(context)),
{
    let services = ServiceType::all();
    let mut r: Vec<Command> = Vec::new();
    let mut k: usize = 0;
    while k < services.len()
        invariant
            services@ == all_services(),
            k <= 6,
            fills_slots(commands_view(r@), entries_upto(k as nat), opt_context(context)),
        decreases 6 - k,
    {
        let mut part = service_catalog_for(services[k], context);
        let ghost old_r = r@;
        let ghost p = part@;
        r.append(&mut part);
        proof {
            let s = all_services()[k as int];
            assert(entries_upto((k + 1) as nat) == entries_upto(k as nat) + entries_of(s));
            assert(r@ == old_r + p);
            let e = entries_upto((k + 1) as nat);
            assert forall|j: int| 0 <= j < commands_view(r@).len() implies is_service_entry(
                #[trigger] commands_view(r@)[j],
                e[j].0,
                e[j].1,
                e[j].2,
                slot_enabled(opt_context(context), e[j].0, e[j].2),
            ) by {
                if j < old_r.len() {
                    assert(commands_view(r@)[j] == commands_view(old_r)[j]);
                } else {
                    assert(commands_view(r@)[j] == commands_view(p)[j - old_r.len()]);
                }
            }
        }
        k = k + 1;
    }
    r
}

/// Commands of the compute service, enabled as `context` gives them.
pub fn create_ec2_commands_with_context(context: &CommandContext) -> (r: Vec<Command>)
    ensures
        is_service_catalog(
            commands_view(r@),
            ServiceType::EC2,
            list_enabled(context@, ServiceType::EC2),
            resource_enabled(context@, ServiceType::EC2),
        ),
{
    service_catalog_for(ServiceType::EC2, Some(context))
}

/// Commands of the object storage service, enabled as `context` gives them.
pub fn create_s3_commands_with_context(context: &CommandContext) -> (r: Vec<Command>)
    ensures
        is_service_catalog(
            commands_view(r@),
            ServiceType::S3,
            list_enabled(context@, ServiceType::S3),
            resource_enabled(context@, ServiceType::S3),
        ),
{
    service_catalog_for(ServiceType::S3, Some(context))
}

/// Commands of the database service, enabled as `context` gives them.
pub fn create_rds_commands_with_context(context: &CommandContext) -> (r: Vec<Command>)
    ensures
        is_service_catalog(
            commands_view(r@),
            ServiceType::RDS,
            list_enabled(context@, ServiceType::RDS),
            resource_enabled(context@, ServiceType::RDS),
        ),
{
    service_catalog_for(ServiceType::RDS, Some(context))
}

/// Commands of the identity service, enabled as `context` gives them.
pub fn create_iam_commands_with_context(context: &CommandContext) -> (r: Vec<Command>)
    ensures
        is_service_catalog(
            commands_view(r@),
            ServiceType::IAM,
            list_enabled(context@, ServiceType::IAM),
            resource_enabled(context@, ServiceType::IAM),
        ),
{
    service_catalog_for(ServiceType::IAM, Some(context))
}

/// Commands of the secrets service, enabled as `context` gives them.
pub fn create_secrets_commands_with_context(context: &CommandContext) -> (r: Vec<Command>)
    ensures
        is_service_catalog(
            commands_view(r@),
            ServiceType::Secrets,
            list_enabled(context@, ServiceType::Secrets),
            resource_enabled(context@, ServiceType::Secrets),
        ),
{
    service_catalog_for(ServiceType::Secrets, Some(context))
}

/// Commands of the container cluster service, enabled as `context` gives them.
pub fn create_eks_commands_with_context(context: &CommandContext) -> (r: Vec<Command>)
    ensures
        is_service_catalog(
            commands_view(r@),
            ServiceType::EKS,
            list_enabled(context@, ServiceType::EKS),
            resource_enabled(context@, ServiceType::EKS),
        ),
{
    service_catalog_for(ServiceType::EKS, Some(context))
}

/// Commands of the compute service, all enabled.
pub fn create_ec2_commands() -> (r: Vec<Command>)
    ensures
        is_service_catalog(commands_view(r@), ServiceType::EC2, true, true),
{
    create_service_catalog(ServiceType::EC2, true, true)
}

/// Commands of the object storage service, all enabled.
pub fn create_s3_commands() -> (r: Vec<Command>)
    ensures
        is_service_catalog(commands_view(r@), ServiceType::S3, true, true),
{
    create_service_catalog(ServiceType::S3, true, true)
}

/// Commands of the database service, all enabled.
pub fn create_rds_commands() -> (r: Vec<Command>)
    ensures
        is_service_catalog(commands_view(r@), ServiceType::RDS, true, true),
{
    create_service_catalog(ServiceType::RDS, true, true)
}

/// Commands of the identity service, all enabled.
pub fn create_iam_commands() -> (r: Vec<Command>)
    ensures
        is_service_catalog(commands_view(r@), ServiceType::IAM, true, true),
{
    create_service_catalog(ServiceType::IAM, true, true)
}

/// Commands of the secrets service, all enabled.
pub fn create_secrets_commands() -> (r: Vec<Command>)
    ensures
        is_service_catalog(commands_view(r@), ServiceType::Secrets, true, true),
{
    create_service_catalog(ServiceType::Secrets, true, true)
}

/// Commands of the container cluster service, all enabled.
pub fn create_eks_commands() -> (r: Vec<Command>)
    ensures
        is_service_catalog(commands_view(r@), ServiceType::EKS, true, true),
{
    create_service_catalog(ServiceType::EKS, true, true)
}

} // verus!

use vstd::prelude::*;
use crate::page::{AppPage, PageView};
use crate::service::ServiceType;

verus! {

/// Categories used to group commands in the palette.
#[derive(Debug, Clone, Copy, PartialEq, Eq, Hash, Structural)]
pub enum CommandCategory {
    Navigation,
    Profile,
    Region,
    Service(ServiceType),
    General,
}

/// Display name of a category.
pub open spec fn category_name(c: CommandCategory) -> Seq<char> {
    match c {
        CommandCategory::Navigation => "Navigation"@,
        CommandCategory::Profile => "Profile"@,
        CommandCategory::Region => "Region"@,
        CommandCategory::Service(_) => "Service"@,
        CommandCategory::General => "General"@,
    }
}

impl CommandCategory {
    /// Display name of the category.
    pub fn display_name(&self) -> (r: &'static str)
        ensures
            r@ == category_name(*self),
    {
        match self {
            CommandCategory::Navigation => "Navigation",
            CommandCategory::Profile => "Profile",
            CommandCategory::Region => "Region",
            CommandCategory::Service(_) => "Service",
            CommandCategory::General => "General",
        }
    }

    /// Icon of the category; a service category shows its service's icon.
    pub fn icon(&self) -> (r: &'static str)
        ensures
            match *self {
                CommandCategory::Service(s) => r@ == crate::service::service_icon(s),
                _ => true,
            },
    {
        match self {
            CommandCategory::Navigation => "🧭",
            CommandCategory::Profile => "👤",
            CommandCategory::Region => "🌍",
            CommandCategory::Service(service) => service.icon(),
            CommandCategory::General => "⚙️",
        }
    }
}

/// UI elements that a command can toggle.
#[derive(Debug, Clone, Copy, PartialEq, Eq, Hash, Structural)]
pub enum UIElement {
    ProfileSelector,
    RegionSelector,
    Help,
    Settings,
}

/// What happens when a command is executed.
#[derive(Debug)]
pub enum CommandAction {
    SwitchProfile(String),
    SwitchRegion(String),
    NavigateToService(ServiceType),
    NavigateToPage(AppPage),
    ExecuteServiceCommand(ServiceType, ServiceCommand),
    ShowHelp,
    OpenSettings,
    ToggleUI(UIElement),
}

/// Model of an action, with names as character sequences.
pub enum ActionView {
    SwitchProfile(Seq<char>),
    SwitchRegion(Seq<char>),
    NavigateToService(ServiceType),
    NavigateToPage(PageView),
    ExecuteServiceCommand(ServiceType, ServiceCommand),
    ShowHelp,
    OpenSettings,
    ToggleUI(UIElement),
}

impl View for CommandAction {
    type V = ActionView;

    open spec fn view(&self) -> ActionView {
        match self {
            CommandAction::SwitchProfile(n) => ActionView::SwitchProfile(n@),
            CommandAction::SwitchRegion(n) => ActionView::SwitchRegion(n@),
            CommandAction::NavigateToService(s) => ActionView::NavigateToService(*s),
            CommandAction::NavigateToPage(p) => ActionView::NavigateToPage(p@),
            CommandAction::ExecuteServiceCommand(s, c) => ActionView::ExecuteServiceCommand(*s, *c),
            CommandAction::ShowHelp => ActionView::ShowHelp,
            CommandAction::OpenSettings => ActionView::OpenSettings,
            CommandAction::ToggleUI(e) => ActionView::ToggleUI(*e),
        }
    }
}

impl Clone for CommandAction {
    fn clone(&self) -> (r: Self)
        ensures
            r@ == self@,
    {
        match self {
            CommandAction::SwitchProfile(n) => CommandAction::SwitchProfile(n.clone()),
            CommandAction::SwitchRegion(n) => CommandAction::SwitchRegion(n.clone()),
            CommandAction::NavigateToService(s) => CommandAction::NavigateToService(*s),
            CommandAction::NavigateToPage(p) => CommandAction::NavigateToPage(p.clone()),
            CommandAction::ExecuteServiceCommand(s, c) => CommandAction::ExecuteServiceCommand(*s, *c),
            CommandAction::ShowHelp => CommandAction::ShowHelp,
            CommandAction::OpenSettings => CommandAction::OpenSettings,
            CommandAction::ToggleUI(e) => CommandAction::ToggleUI(*e),
        }
    }
}

/// Predicates over the context that a command declares as preconditions.
#[derive(Debug)]
pub enum ContextRequirement {
    ServiceSelected(ServiceType),
    ResourceSelected,
    ResourceOfTypeSelected(ServiceType),
    ProfilesAvailable,
    RegionsAvailable,
    OnPage(AppPage),
    NotOnPage(AppPage),
}

/// Model of a requirement.
pub enum RequirementView {
    ServiceSelected(ServiceType),
    ResourceSelected,
    ResourceOfTypeSelected(ServiceType),
    ProfilesAvailable,
    RegionsAvailable,
    OnPage(PageView),
    NotOnPage(PageView),
}

impl View for ContextRequirement {
    type V = RequirementView;

    open spec fn view(&self) -> RequirementView {
        match self {
            ContextRequirement::ServiceSelected(s) => RequirementView::ServiceSelected(*s),
            ContextRequirement::ResourceSelected => RequirementView::ResourceSelected,
            ContextRequirement::ResourceOfTypeSelected(s) => RequirementView::ResourceOfTypeSelected(*s),
            ContextRequirement::ProfilesAvailable => RequirementView::ProfilesAvailable,
            ContextRequirement::RegionsAvailable => RequirementView::RegionsAvailable,
            ContextRequirement::OnPage(p) => RequirementView::OnPage(p@),
            ContextRequirement::NotOnPage(p) => RequirementView::NotOnPage(p@),
        }
    }
}

impl Clone for ContextRequirement {
    fn clone(&self) -> (r: Self)
        ensures
            r@ == self@,
    {
        match self {
            ContextRequirement::ServiceSelected(s) => ContextRequirement::ServiceSelected(*s),
            ContextRequirement::ResourceSelected => ContextRequirement::ResourceSelected,
            ContextRequirement::ResourceOfTypeSelected(s) => ContextRequirement::ResourceOfTypeSelected(*s),
            ContextRequirement::ProfilesAvailable => ContextRequirement::ProfilesAvailable,
            ContextRequirement::RegionsAvailable => ContextRequirement::RegionsAvailable,
            ContextRequirement::OnPage(p) => ContextRequirement::OnPage(p.clone()),
            ContextRequirement::NotOnPage(p) => ContextRequirement::NotOnPage(p.clone()),
        }
    }
}

/// Views of a sequence of strings.
pub open spec fn strings_view(v: Seq<String>) -> Seq<Seq<char>> {
    v.map_values(|s: String| s@)
}

/// Views of a sequence of requirements.
pub open spec fn requirements_view(v: Seq<ContextRequirement>) -> Seq<RequirementView> {
    v.map_values(|r: ContextRequirement| r@)
}

/// One invocable action with its display text and availability predicates.
#[derive(Debug)]
pub struct Command {
    pub id: String,
    pub name: String,
    pub description: String,
    pub category: CommandCategory,
    pub action: CommandAction,
    pub icon: String,
    pub keywords: Vec<String>,
    pub enabled: bool,
    pub context_requirements: Vec<ContextRequirement>,
}

/// Model of a command.
pub struct CommandView {
    pub id: Seq<char>,
    pub name: Seq<char>,
    pub description: Seq<char>,
    pub category: CommandCategory,
    pub action: ActionView,
    pub icon: Seq<char>,
    pub keywords: Seq<Seq<char>>,
    pub enabled: bool,
    pub requirements: Seq<RequirementView>,
}

impl View for Command {
    type V = CommandView;

    open spec fn view(&self) -> CommandView {
        CommandView {
            id: self.id@,
            name: self.name@,
            description: self.description@,
            category: self.category,
            action: self.action@,
            icon: self.icon@,
            keywords: strings_view(self.keywords@),
            enabled: self.enabled,
            requirements: requirements_view(self.context_requirements@),
        }
    }
}

/// Views of a sequence of commands.
pub open spec fn commands_view(v: Seq<Command>) -> Seq<CommandView> {
    v.map_values(|c: Command| c@)
}

/// Copies a list of strings.
pub fn clone_strings(v: &Vec<String>) -> (r: Vec<String>)
    ensures
        strings_view(r@) == strings_view(v@),
{
    let mut r: Vec<String> = Vec::new();
    let mut i: usize = 0;
    while i < v.len()
        invariant
            i <= v.len(),
            r@.len() == i,
            forall|j: int| 0 <= j < i ==> (#[trigger] r@[j])@ == v@[j]@,
        decreases v.len() - i,
    {
        r.push(v[i].clone());
        i = i + 1;
    }
    assert(strings_view(r@) =~= strings_view(v@));
    r
}

/// Copies a list of requirements.
pub fn clone_requirements(v: &Vec<ContextRequirement>) -> (r: Vec<ContextRequirement>)
    ensures
        requirements_view(r@) == requirements_view(v@),
{
    let mut r: Vec<ContextRequirement> = Vec::new();
    let mut i: usize = 0;
    while i < v.len()
        invariant
            i <= v.len(),
            r@.len() == i,
            forall|j: int| 0 <= j < i ==> (#[trigger] r@[j])@ == v@[j]@,
        decreases v.len() - i,
    {
        r.push(v[i].clone());
        i = i + 1;
    }
    assert(requirements_view(r@) =~= requirements_view(v@));
    r
}

impl Clone for Command {
    fn clone(&self) -> (r: Self)
        ensures
            r@ == self@,
    {
        Command {
            id: self.id.clone(),
            name: self.name.clone(),
            description: self.description.clone(),
            category: self.category,
            action: self.action.clone(),
            icon: self.icon.clone(),
            keywords: clone_strings(&self.keywords),
            enabled: self.enabled,
            context_requirements: clone_requirements(&self.context_requirements),
        }
    }
}

impl Command {
    /// A command with no keywords, no requirements, enabled.
    pub fn new(
        id: String,
        name: String,
        description: String,
        category: CommandCategory,
        action: CommandAction,
        icon: String,
    ) -> (r: Self)
        ensures
            r.id@ == id@,
            r.name@ == name@,
            r.description@ == description@,
            r.category == category,
            r.action@ == action@,
            r.icon@ == icon@,
            r.keywords@.len() == 0,
            r.enabled,
            r.context_requirements@.len() == 0,
    {
        Command {
            id,
            name,
            description,
            category,
            action,
            icon,
            keywords: Vec::new(),
            enabled: true,
            context_requirements: Vec::new(),
        }
    }

    /// The same command with the given keywords.
    pub fn with_keywords(self, keywords: Vec<String>) -> (r: Self)
        ensures
            r@ == (CommandView { keywords: strings_view(keywords@), ..self@ }),
    {
        let mut c = self;
        c.keywords = keywords;
        c
    }

    /// The same command with the given requirements.
    pub fn with_context_requirements(self, requirements: Vec<ContextRequirement>) -> (r: Self)
        ensures
            r@ == (CommandView { requirements: requirements_view(requirements@), ..self@ }),
    {
        let mut c = self;
        c.context_requirements = requirements;
        c
    }

    /// The same command with the given enabled flag.
    pub fn with_enabled(self, enabled: bool) -> (r: Self)
        ensures
            r@ == (CommandView { enabled, ..self@ }),
    {
        let mut c = self;
        c.enabled = enabled;
        c
    }
}

/// Service-specific actions that a command can execute.
#[derive(Debug, Clone, Copy, PartialEq, Eq, Hash, Structural)]
pub enum ServiceCommand {
    StartInstance,
    StopInstance,
    RebootInstance,
    TerminateInstance,
    CreateInstance,
    DescribeInstance,
    ListInstances,
    CreateBucket,
    DeleteBucket,
    ListObjects,
    UploadObject,
    DownloadObject,
    ListBuckets,
    GetBucketInfo,
    StartDatabase,
    StopDatabase,
    RebootDatabase,
    CreateSnapshot,
    RestoreSnapshot,
    ListDatabases,
    DescribeDatabase,
    CreateUser,
    DeleteUser,
    CreateRole,
    DeleteRole,
    AttachPolicy,
    DetachPolicy,
    ListUsers,
    ListRoles,
    CreateSecret,
    UpdateSecret,
    DeleteSecret,
    GetSecretValue,
    ListSecrets,
    DescribeSecret,
    DescribeCluster,
    UpdateKubeconfig,
    ListNodeGroups,
    ListClusters,
    CreateCluster,
    DeleteCluster,
}

/// Display name of a service action.
pub open spec fn command_display_name(c: ServiceCommand) -> Seq<char> {
    match c {
        ServiceCommand::StartInstance => "Start Instance"@,
        ServiceCommand::StopInstance => "Stop Instance"@,
        ServiceCommand::RebootInstance => "Reboot Instance"@,
        ServiceCommand::TerminateInstance => "Terminate Instance"@,
        ServiceCommand::CreateInstance => "Create Instance"@,
        ServiceCommand::DescribeInstance => "Describe Instance"@,
        ServiceCommand::ListInstances => "List Instances"@,
        ServiceCommand::CreateBucket => "Create Bucket"@,
        ServiceCommand::DeleteBucket => "Delete Bucket"@,
        ServiceCommand::ListObjects => "List Objects"@,
        ServiceCommand::UploadObject => "Upload Object"@,
        ServiceCommand::DownloadObject => "Download Object"@,
        ServiceCommand::ListBuckets => "List Buckets"@,
        ServiceCommand::GetBucketInfo => "Get Bucket Info"@,
        ServiceCommand::StartDatabase => "Start Database"@,
        ServiceCommand::StopDatabase => "Stop Database"@,
        ServiceCommand::RebootDatabase => "Reboot Database"@,
        ServiceCommand::CreateSnapshot => "Create Snapshot"@,
        ServiceCommand::RestoreSnapshot => "Restore Snapshot"@,
        ServiceCommand::ListDatabases => "List Databases"@,
        ServiceCommand::DescribeDatabase => "Describe Database"@,
        ServiceCommand::CreateUser => "Create User"@,
        ServiceCommand::DeleteUser => "Delete User"@,
        ServiceCommand::CreateRole => "Create Role"@,
        ServiceCommand::DeleteRole => "Delete Role"@,
        ServiceCommand::AttachPolicy => "Attach Policy"@,
        ServiceCommand::DetachPolicy => "Detach Policy"@,
        ServiceCommand::ListUsers => "List Users"@,
        ServiceCommand::ListRoles => "List Roles"@,
        ServiceCommand::CreateSecret => "Create Secret"@,
        ServiceCommand::UpdateSecret => "Update Secret"@,
        ServiceCommand::DeleteSecret => "Delete Secret"@,
        ServiceCommand::GetSecretValue => "Get Secret Value"@,
        ServiceCommand::ListSecrets => "List Secrets"@,
        ServiceCommand::DescribeSecret => "Describe Secret"@,
        ServiceCommand::DescribeCluster => "Describe Cluster"@,
        ServiceCommand::UpdateKubeconfig => "Update Kubeconfig"@,
        ServiceCommand::ListNodeGroups => "List Node Groups"@,
        ServiceCommand::ListClusters => "List Clusters"@,
        ServiceCommand::CreateCluster => "Create Cluster"@,
        ServiceCommand::DeleteCluster => "Delete Cluster"@,
    }
}

/// Help text of a service action.
pub open spec fn command_description(c: ServiceCommand) -> Seq<char> {
    match c {
        ServiceCommand::StartInstance => "Start the selected EC2 instance"@,
        ServiceCommand::StopInstance => "Stop the selected EC2 instance"@,
        ServiceCommand::RebootInstance => "Reboot the selected EC2 instance"@,
        ServiceCommand::TerminateInstance => "Terminate the selected EC2 instance"@,
        ServiceCommand::CreateInstance => "Launch a new EC2 instance"@,
        ServiceCommand::DescribeInstance => "Show details of the selected instance"@,
        ServiceCommand::ListInstances => "List all EC2 instances"@,
        ServiceCommand::CreateBucket => "Create a new S3 bucket"@,
        ServiceCommand::DeleteBucket => "Delete the selected S3 bucket"@,
        ServiceCommand::ListObjects => "List objects in the selected bucket"@,
        ServiceCommand::UploadObject => "Upload an object to the selected bucket"@,
        ServiceCommand::DownloadObject => "Download the selected object"@,
        ServiceCommand::ListBuckets => "List all S3 buckets"@,
        ServiceCommand::GetBucketInfo => "Show details of the selected bucket"@,
        ServiceCommand::StartDatabase => "Start the selected RDS instance"@,
        ServiceCommand::StopDatabase => "Stop the selected RDS instance"@,
        ServiceCommand::RebootDatabase => "Reboot the selected RDS instance"@,
        ServiceCommand::CreateSnapshot => "Create a snapshot of the selected database"@,
        ServiceCommand::RestoreSnapshot => "Restore database from snapshot"@,
        ServiceCommand::ListDatabases => "List all RDS instances"@,
        ServiceCommand::DescribeDatabase => "Show details of the selected database"@,
        ServiceCommand::CreateUser => "Create a new IAM user"@,
        ServiceCommand::DeleteUser => "Delete the selected IAM user"@,
        ServiceCommand::CreateRole => "Create a new IAM role"@,
        ServiceCommand::DeleteRole => "Delete the selected IAM role"@,
        ServiceCommand::AttachPolicy => "Attach policy to user or role"@,
        ServiceCommand::DetachPolicy => "Detach policy from user or role"@,
        ServiceCommand::ListUsers => "List all IAM users"@,
        ServiceCommand::ListRoles => "List all IAM roles"@,
        ServiceCommand::CreateSecret => "Create a new secret"@,
        ServiceCommand::UpdateSecret => "Update the selected secret"@,
        ServiceCommand::DeleteSecret => "Delete the selected secret"@,
        ServiceCommand::GetSecretValue => "Retrieve the secret value"@,
        ServiceCommand::ListSecrets => "List all secrets"@,
        ServiceCommand::DescribeSecret => "Show details of the selected secret"@,
        ServiceCommand::DescribeCluster => "Show details of the selected cluster"@,
        ServiceCommand::UpdateKubeconfig => "Update kubeconfig for the cluster"@,
        ServiceCommand::ListNodeGroups => "List node groups in the cluster"@,
        ServiceCommand::ListClusters => "List all EKS clusters"@,
        ServiceCommand::CreateCluster => "Create a new EKS cluster"@,
        ServiceCommand::DeleteCluster => "Delete the selected EKS cluster"@,
    }
}

/// Lower-case key of a service action, used in command ids.
pub open spec fn command_key(c: ServiceCommand) -> Seq<char> {
    match c {
        ServiceCommand::StartInstance => "startinstance"@,
        ServiceCommand::StopInstance => "stopinstance"@,
        ServiceCommand::RebootInstance => "rebootinstance"@,
        ServiceCommand::TerminateInstance => "terminateinstance"@,
        ServiceCommand::CreateInstance => "createinstance"@,
        ServiceCommand::DescribeInstance => "describeinstance"@,
        ServiceCommand::ListInstances => "listinstances"@,
        ServiceCommand::CreateBucket => "createbucket"@,
        ServiceCommand::DeleteBucket => "deletebucket"@,
        ServiceCommand::ListObjects => "listobjects"@,
        ServiceCommand::UploadObject => "uploadobject"@,
        ServiceCommand::DownloadObject => "downloadobject"@,
        ServiceCommand::ListBuckets => "listbuckets"@,
        ServiceCommand::GetBucketInfo => "getbucketinfo"@,
        ServiceCommand::StartDatabase => "startdatabase"@,
        ServiceCommand::StopDatabase => "stopdatabase"@,
        ServiceCommand::RebootDatabase => "rebootdatabase"@,
        ServiceCommand::CreateSnapshot => "createsnapshot"@,
        ServiceCommand::RestoreSnapshot => "restoresnapshot"@,
        ServiceCommand::ListDatabases => "listdatabases"@,
        ServiceCommand::DescribeDatabase => "describedatabase"@,
        ServiceCommand::CreateUser => "createuser"@,
        ServiceCommand::DeleteUser => "deleteuser"@,
        ServiceCommand::CreateRole => "createrole"@,
        ServiceCommand::DeleteRole => "deleterole"@,
        ServiceCommand::AttachPolicy => "attachpolicy"@,
        ServiceCommand::DetachPolicy => "detachpolicy"@,
        ServiceCommand::ListUsers => "listusers"@,
        ServiceCommand::ListRoles => "listroles"@,
        ServiceCommand::CreateSecret => "createsecret"@,
        ServiceCommand::UpdateSecret => "updatesecret"@,
        ServiceCommand::DeleteSecret => "deletesecret"@,
        ServiceCommand::GetSecretValue => "getsecretvalue"@,
        ServiceCommand::ListSecrets => "listsecrets"@,
        ServiceCommand::DescribeSecret => "describesecret"@,
        ServiceCommand::DescribeCluster => "describecluster"@,
        ServiceCommand::UpdateKubeconfig => "updatekubeconfig"@,
        ServiceCommand::ListNodeGroups => "listnodegroups"@,
        ServiceCommand::ListClusters => "listclusters"@,
        ServiceCommand::CreateCluster => "createcluster"@,
        ServiceCommand::DeleteCluster => "deletecluster"@,
    }
}

/// The service a service action belongs to.
pub open spec fn command_service(c: ServiceCommand) -> ServiceType {
    match c {
        ServiceCommand::StartInstance => ServiceType::EC2,
        ServiceCommand::StopInstance => ServiceType::EC2,
        ServiceCommand::RebootInstance => ServiceType::EC2,
        ServiceCommand::TerminateInstance => ServiceType::EC2,
        ServiceCommand::CreateInstance => ServiceType::EC2,
        ServiceCommand::DescribeInstance => ServiceType::EC2,
        ServiceCommand::ListInstances => ServiceType::EC2,
        ServiceCommand::CreateBucket => ServiceType::S3,
        ServiceCommand::DeleteBucket => ServiceType::S3,
        ServiceCommand::ListObjects => ServiceType::S3,
        ServiceCommand::UploadObject => ServiceType::S3,
        ServiceCommand::DownloadObject => ServiceType::S3,
        ServiceCommand::ListBuckets => ServiceType::S3,
        ServiceCommand::GetBucketInfo => ServiceType::S3,
        ServiceCommand::StartDatabase => ServiceType::RDS,
        ServiceCommand::StopDatabase => ServiceType::RDS,
        ServiceCommand::RebootDatabase => ServiceType::RDS,
        ServiceCommand::CreateSnapshot => ServiceType::RDS,
        ServiceCommand::RestoreSnapshot => ServiceType::RDS,
        ServiceCommand::ListDatabases => ServiceType::RDS,
        ServiceCommand::DescribeDatabase => ServiceType::RDS,
        ServiceCommand::CreateUser => ServiceType::IAM,
        ServiceCommand::DeleteUser => ServiceType::IAM,
        ServiceCommand::CreateRole => ServiceType::IAM,
        ServiceCommand::DeleteRole => ServiceType::IAM,
        ServiceCommand::AttachPolicy => ServiceType::IAM,
        ServiceCommand::DetachPolicy => ServiceType::IAM,
        ServiceCommand::ListUsers => ServiceType::IAM,
        ServiceCommand::ListRoles => ServiceType::IAM,
        ServiceCommand::CreateSecret => ServiceType::Secrets,
        ServiceCommand::UpdateSecret => ServiceType::Secrets,
        ServiceCommand::DeleteSecret => ServiceType::Secrets,
        ServiceCommand::GetSecretValue => ServiceType::Secrets,
        ServiceCommand::ListSecrets => ServiceType::Secrets,
        ServiceCommand::DescribeSecret => ServiceType::Secrets,
        ServiceCommand::DescribeCluster => ServiceType::EKS,
        ServiceCommand::UpdateKubeconfig => ServiceType::EKS,
        ServiceCommand::ListNodeGroups => ServiceType::EKS,
        ServiceCommand::ListClusters => ServiceType::EKS,
        ServiceCommand::CreateCluster => ServiceType::EKS,
        ServiceCommand::DeleteCluster => ServiceType::EKS,
    }
}

/// Whether a service action acts on a selected resource.
pub open spec fn command_requires_resource(c: ServiceCommand) -> bool {
    match c {
        ServiceCommand::StartInstance => true,
        ServiceCommand::StopInstance => true,
        ServiceCommand::RebootInstance => true,
        ServiceCommand::TerminateInstance => true,
        ServiceCommand::CreateInstance => false,
        ServiceCommand::DescribeInstance => true,
        ServiceCommand::ListInstances => false,
        ServiceCommand::CreateBucket => false,
        ServiceCommand::DeleteBucket => true,
        ServiceCommand::ListObjects => true,
        ServiceCommand::UploadObject => true,
        ServiceCommand::DownloadObject => false,
        ServiceCommand::ListBuckets => false,
        ServiceCommand::GetBucketInfo => true,
        ServiceCommand::StartDatabase => true,
        ServiceCommand::StopDatabase => true,
        ServiceCommand::RebootDatabase => true,
        ServiceCommand::CreateSnapshot => true,
        ServiceCommand::RestoreSnapshot => false,
        ServiceCommand::ListDatabases => false,
        ServiceCommand::DescribeDatabase => true,
        ServiceCommand::CreateUser => false,
        ServiceCommand::DeleteUser => true,
        ServiceCommand::CreateRole => false,
        ServiceCommand::DeleteRole => true,
        ServiceCommand::AttachPolicy => true,
        ServiceCommand::DetachPolicy => true,
        ServiceCommand::ListUsers => false,
        ServiceCommand::ListRoles => false,
        ServiceCommand::CreateSecret => false,
        ServiceCommand::UpdateSecret => true,
        ServiceCommand::DeleteSecret => true,
        ServiceCommand::GetSecretValue => true,
        ServiceCommand::ListSecrets => false,
        ServiceCommand::DescribeSecret => true,
        ServiceCommand::DescribeCluster => true,
        ServiceCommand::UpdateKubeconfig => true,
        ServiceCommand::ListNodeGroups => true,
        ServiceCommand::ListClusters => false,
        ServiceCommand::CreateCluster => false,
        ServiceCommand::DeleteCluster => true,
    }
}

/// The service actions of a service, in their fixed order.
pub open spec fn actions_of(s: ServiceType) -> Seq<ServiceCommand> {
    match s {
        ServiceType::EC2 => seq![ServiceCommand::ListInstances, ServiceCommand::CreateInstance, ServiceCommand::StartInstance, ServiceCommand::StopInstance, ServiceCommand::RebootInstance, ServiceCommand::TerminateInstance, ServiceCommand::DescribeInstance],
        ServiceType::S3 => seq![ServiceCommand::ListBuckets, ServiceCommand::CreateBucket, ServiceCommand::DeleteBucket, ServiceCommand::GetBucketInfo, ServiceCommand::ListObjects, ServiceCommand::UploadObject, ServiceCommand::DownloadObject],
        ServiceType::RDS => seq![ServiceCommand::ListDatabases, ServiceCommand::StartDatabase, ServiceCommand::StopDatabase, ServiceCommand::RebootDatabase, ServiceCommand::DescribeDatabase, ServiceCommand::CreateSnapshot, ServiceCommand::RestoreSnapshot],
        ServiceType::IAM => seq![ServiceCommand::ListUsers, ServiceCommand::ListRoles, ServiceCommand::CreateUser, ServiceCommand::DeleteUser, ServiceCommand::CreateRole, ServiceCommand::DeleteRole, ServiceCommand::AttachPolicy, ServiceCommand::DetachPolicy],
        ServiceType::Secrets => seq![ServiceCommand::ListSecrets, ServiceCommand::CreateSecret, ServiceCommand::UpdateSecret, ServiceCommand::DeleteSecret, ServiceCommand::DescribeSecret, ServiceCommand::GetSecretValue],
        ServiceType::EKS => seq![ServiceCommand::ListClusters, ServiceCommand::CreateCluster, ServiceCommand::DeleteCluster, ServiceCommand::DescribeCluster, ServiceCommand::UpdateKubeconfig, ServiceCommand::ListNodeGroups],
    }
}

impl ServiceCommand {
    /// Display name of the action.
    pub fn display_name(&self) -> (r: &'static str)
        ensures
            r@ == command_display_name(*self),
    {
        match self {
            ServiceCommand::StartInstance => "Start Instance",
            ServiceCommand::StopInstance => "Stop Instance",
            ServiceCommand::RebootInstance => "Reboot Instance",
            ServiceCommand::TerminateInstance => "Terminate Instance",
            ServiceCommand::CreateInstance => "Create Instance",
            ServiceCommand::DescribeInstance => "Describe Instance",
            ServiceCommand::ListInstances => "List Instances",
            ServiceCommand::CreateBucket => "Create Bucket",
            ServiceCommand::DeleteBucket => "Delete Bucket",
            ServiceCommand::ListObjects => "List Objects",
            ServiceCommand::UploadObject => "Upload Object",
            ServiceCommand::DownloadObject => "Download Object",
            ServiceCommand::ListBuckets => "List Buckets",
            ServiceCommand::GetBucketInfo => "Get Bucket Info",
            ServiceCommand::StartDatabase => "Start Database",
            ServiceCommand::StopDatabase => "Stop Database",
            ServiceCommand::RebootDatabase => "Reboot Database",
            ServiceCommand::CreateSnapshot => "Create Snapshot",
            ServiceCommand::RestoreSnapshot => "Restore Snapshot",
            ServiceCommand::ListDatabases => "List Databases",
            ServiceCommand::DescribeDatabase => "Describe Database",
            ServiceCommand::CreateUser => "Create User",
            ServiceCommand::DeleteUser => "Delete User",
            ServiceCommand::CreateRole => "Create Role",
            ServiceCommand::DeleteRole => "Delete Role",
            ServiceCommand::AttachPolicy => "Attach Policy",
            ServiceCommand::DetachPolicy => "Detach Policy",
            ServiceCommand::ListUsers => "List Users",
            ServiceCommand::ListRoles => "List Roles",
            ServiceCommand::CreateSecret => "Create Secret",
            ServiceCommand::UpdateSecret => "Update Secret",
            ServiceCommand::DeleteSecret => "Delete Secret",
            ServiceCommand::GetSecretValue => "Get Secret Value",
            ServiceCommand::ListSecrets => "List Secrets",
            ServiceCommand::DescribeSecret => "Describe Secret",
            ServiceCommand::DescribeCluster => "Describe Cluster",
            ServiceCommand::UpdateKubeconfig => "Update Kubeconfig",
            ServiceCommand::ListNodeGroups => "List Node Groups",
            ServiceCommand::ListClusters => "List Clusters",
            ServiceCommand::CreateCluster => "Create Cluster",
            ServiceCommand::DeleteCluster => "Delete Cluster",
        }
    }

    /// Help text of the action.
    pub fn description(&self) -> (r: &'static str)
        ensures
            r@ == command_description(*self),
    {
        match self {
            ServiceCommand::StartInstance => "Start the selected EC2 instance",
            ServiceCommand::StopInstance => "Stop the selected EC2 instance",
            ServiceCommand::RebootInstance => "Reboot the selected EC2 instance",
            ServiceCommand::TerminateInstance => "Terminate the selected EC2 instance",
            ServiceCommand::CreateInstance => "Launch a new EC2 instance",
            ServiceCommand::DescribeInstance => "Show details of the selected instance",
            ServiceCommand::ListInstances => "List all EC2 instances",
            ServiceCommand::CreateBucket => "Create a new S3 bucket",
            ServiceCommand::DeleteBucket => "Delete the selected S3 bucket",
            ServiceCommand::ListObjects => "List objects in the selected bucket",
            ServiceCommand::UploadObject => "Upload an object to the selected bucket",
            ServiceCommand::DownloadObject => "Download the selected object",
            ServiceCommand::ListBuckets => "List all S3 buckets",
            ServiceCommand::GetBucketInfo => "Show details of the selected bucket",
            ServiceCommand::StartDatabase => "Start the selected RDS instance",
            ServiceCommand::StopDatabase => "Stop the selected RDS instance",
            ServiceCommand::RebootDatabase => "Reboot the selected RDS instance",
            ServiceCommand::CreateSnapshot => "Create a snapshot of the selected database",
            ServiceCommand::RestoreSnapshot => "Restore database from snapshot",
            ServiceCommand::ListDatabases => "List all RDS instances",
            ServiceCommand::DescribeDatabase => "Show details of the selected database",
            ServiceCommand::CreateUser => "Create a new IAM user",
            ServiceCommand::DeleteUser => "Delete the selected IAM user",
            ServiceCommand::CreateRole => "Create a new IAM role",
            ServiceCommand::DeleteRole => "Delete the selected IAM role",
            ServiceCommand::AttachPolicy => "Attach policy to user or role",
            ServiceCommand::DetachPolicy => "Detach policy from user or role",
            ServiceCommand::ListUsers => "List all IAM users",
            ServiceCommand::ListRoles => "List all IAM roles",
            ServiceCommand::CreateSecret => "Create a new secret",
            ServiceCommand::UpdateSecret => "Update the selected secret",
            ServiceCommand::DeleteSecret => "Delete the selected secret",
            ServiceCommand::GetSecretValue => "Retrieve the secret value",
            ServiceCommand::ListSecrets => "List all secrets",
            ServiceCommand::DescribeSecret => "Show details of the selected secret",
            ServiceCommand::DescribeCluster => "Show details of the selected cluster",
            ServiceCommand::UpdateKubeconfig => "Update kubeconfig for the cluster",
            ServiceCommand::ListNodeGroups => "List node groups in the cluster",
            ServiceCommand::ListClusters => "List all EKS clusters",
            ServiceCommand::CreateCluster => "Create a new EKS cluster",
            ServiceCommand::DeleteCluster => "Delete the selected EKS cluster",
        }
    }

    /// Lower-case key of the action, as used in command ids.
    pub fn key(&self) -> (r: &'static str)
        ensures
            r@ == command_key(*self),
    {
        match self {
            ServiceCommand::StartInstance => "startinstance",
            ServiceCommand::StopInstance => "stopinstance",
            ServiceCommand::RebootInstance => "rebootinstance",
            ServiceCommand::TerminateInstance => "terminateinstance",
            ServiceCommand::CreateInstance => "createinstance",
            ServiceCommand::DescribeInstance => "describeinstance",
            ServiceCommand::ListInstances => "listinstances",
            ServiceCommand::CreateBucket => "createbucket",
            ServiceCommand::DeleteBucket => "deletebucket",
            ServiceCommand::ListObjects => "listobjects",
            ServiceCommand::UploadObject => "uploadobject",
            ServiceCommand::DownloadObject => "downloadobject",
            ServiceCommand::ListBuckets => "listbuckets",
            ServiceCommand::GetBucketInfo => "getbucketinfo",
            ServiceCommand::StartDatabase => "startdatabase",
            ServiceCommand::StopDatabase => "stopdatabase",
            ServiceCommand::RebootDatabase => "rebootdatabase",
            ServiceCommand::CreateSnapshot => "createsnapshot",
            ServiceCommand::RestoreSnapshot => "restoresnapshot",
            ServiceCommand::ListDatabases => "listdatabases",
            ServiceCommand::DescribeDatabase => "describedatabase",
            ServiceCommand::CreateUser => "createuser",
            ServiceCommand::DeleteUser => "deleteuser",
            ServiceCommand::CreateRole => "createrole",
            ServiceCommand::DeleteRole => "deleterole",
            ServiceCommand::AttachPolicy => "attachpolicy",
            ServiceCommand::DetachPolicy => "detachpolicy",
            ServiceCommand::ListUsers => "listusers",
            ServiceCommand::ListRoles => "listroles",
            ServiceCommand::CreateSecret => "createsecret",
            ServiceCommand::UpdateSecret => "updatesecret",
            ServiceCommand::DeleteSecret => "deletesecret",
            ServiceCommand::GetSecretValue => "getsecretvalue",
            ServiceCommand::ListSecrets => "listsecrets",
            ServiceCommand::DescribeSecret => "describesecret",
            ServiceCommand::DescribeCluster => "describecluster",
            ServiceCommand::UpdateKubeconfig => "updatekubeconfig",
            ServiceCommand::ListNodeGroups => "listnodegroups",
            ServiceCommand::ListClusters => "listclusters",
            ServiceCommand::CreateCluster => "createcluster",
            ServiceCommand::DeleteCluster => "deletecluster",
        }
    }

    /// The service the action belongs to.
    pub fn service_type(&self) -> (r: ServiceType)
        ensures
            r == command_service(*self),
    {
        match self {
            ServiceCommand::StartInstance => ServiceType::EC2,
            ServiceCommand::StopInstance => ServiceType::EC2,
            ServiceCommand::RebootInstance => ServiceType::EC2,
            ServiceCommand::TerminateInstance => ServiceType::EC2,
            ServiceCommand::CreateInstance => ServiceType::EC2,
            ServiceCommand::DescribeInstance => ServiceType::EC2,
            ServiceCommand::ListInstances => ServiceType::EC2,
            ServiceCommand::CreateBucket => ServiceType::S3,
            ServiceCommand::DeleteBucket => ServiceType::S3,
            ServiceCommand::ListObjects => ServiceType::S3,
            ServiceCommand::UploadObject => ServiceType::S3,
            ServiceCommand::DownloadObject => ServiceType::S3,
            ServiceCommand::ListBuckets => ServiceType::S3,
            ServiceCommand::GetBucketInfo => ServiceType::S3,
            ServiceCommand::StartDatabase => ServiceType::RDS,
            ServiceCommand::StopDatabase => ServiceType::RDS,
            ServiceCommand::RebootDatabase => ServiceType::RDS,
            ServiceCommand::CreateSnapshot => ServiceType::RDS,
            ServiceCommand::RestoreSnapshot => ServiceType::RDS,
            ServiceCommand::ListDatabases => ServiceType::RDS,
            ServiceCommand::DescribeDatabase => ServiceType::RDS,
            ServiceCommand::CreateUser => ServiceType::IAM,
            ServiceCommand::DeleteUser => ServiceType::IAM,
            ServiceCommand::CreateRole => ServiceType::IAM,
            ServiceCommand::DeleteRole => ServiceType::IAM,
            ServiceCommand::AttachPolicy => ServiceType::IAM,
            ServiceCommand::DetachPolicy => ServiceType::IAM,
            ServiceCommand::ListUsers => ServiceType::IAM,
            ServiceCommand::ListRoles => ServiceType::IAM,
            ServiceCommand::CreateSecret => ServiceType::Secrets,
            ServiceCommand::UpdateSecret => ServiceType::Secrets,
            ServiceCommand::DeleteSecret => ServiceType::Secrets,
            ServiceCommand::GetSecretValue => ServiceType::Secrets,
            ServiceCommand::ListSecrets => ServiceType::Secrets,
            ServiceCommand::DescribeSecret => ServiceType::Secrets,
            ServiceCommand::DescribeCluster => ServiceType::EKS,
            ServiceCommand::UpdateKubeconfig => ServiceType::EKS,
            ServiceCommand::ListNodeGroups => ServiceType::EKS,
            ServiceCommand::ListClusters => ServiceType::EKS,
            ServiceCommand::CreateCluster => ServiceType::EKS,
            ServiceCommand::DeleteCluster => ServiceType::EKS,
        }
    }

    /// Whether the action needs a selected resource.
    pub fn requires_resource_selection(&self) -> (r: bool)
        ensures
            r == command_requires_resource(*self),
    {
        match self {
            ServiceCommand::StartInstance => true,
            ServiceCommand::StopInstance => true,
            ServiceCommand::RebootInstance => true,
            ServiceCommand::TerminateInstance => true,
            ServiceCommand::CreateInstance => false,
            ServiceCommand::DescribeInstance => true,
            ServiceCommand::ListInstances => false,
            ServiceCommand::CreateBucket => false,
            ServiceCommand::DeleteBucket => true,
            ServiceCommand::ListObjects => true,
            ServiceCommand::UploadObject => true,
            ServiceCommand::DownloadObject => false,
            ServiceCommand::ListBuckets => false,
            ServiceCommand::GetBucketInfo => true,
            ServiceCommand::StartDatabase => true,
            ServiceCommand::StopDatabase => true,
            ServiceCommand::RebootDatabase => true,
            ServiceCommand::CreateSnapshot => true,
            ServiceCommand::RestoreSnapshot => false,
            ServiceCommand::ListDatabases => false,
            ServiceCommand::DescribeDatabase => true,
            ServiceCommand::CreateUser => false,
            ServiceCommand::DeleteUser => true,
            ServiceCommand::CreateRole => false,
            ServiceCommand::DeleteRole => true,
            ServiceCommand::AttachPolicy => true,
            ServiceCommand::DetachPolicy => true,
            ServiceCommand::ListUsers => false,
            ServiceCommand::ListRoles => false,
            ServiceCommand::CreateSecret => false,
            ServiceCommand::UpdateSecret => true,
            ServiceCommand::DeleteSecret => true,
            ServiceCommand::GetSecretValue => true,
            ServiceCommand::ListSecrets => false,
            ServiceCommand::DescribeSecret => true,
            ServiceCommand::DescribeCluster => true,
            ServiceCommand::UpdateKubeconfig => true,
            ServiceCommand::ListNodeGroups => true,
            ServiceCommand::ListClusters => false,
            ServiceCommand::CreateCluster => false,
            ServiceCommand::DeleteCluster => true,
        }
    }

    /// All service actions of a service, in their fixed order.
    pub fn for_service(service_type: ServiceType) -> (r: Vec<ServiceCommand>)
        ensures
            r@ == actions_of(service_type),
    {
        let r = match service_type {
            ServiceType::EC2 => vec![ServiceCommand::ListInstances, ServiceCommand::CreateInstance, ServiceCommand::StartInstance, ServiceCommand::StopInstance, ServiceCommand::RebootInstance, ServiceCommand::TerminateInstance, ServiceCommand::DescribeInstance],
            ServiceType::S3 => vec![ServiceCommand::ListBuckets, ServiceCommand::CreateBucket, ServiceCommand::DeleteBucket, ServiceCommand::GetBucketInfo, ServiceCommand::ListObjects, ServiceCommand::UploadObject, ServiceCommand::DownloadObject],
            ServiceType::RDS => vec![ServiceCommand::ListDatabases, ServiceCommand::StartDatabase, ServiceCommand::StopDatabase, ServiceCommand::RebootDatabase, ServiceCommand::DescribeDatabase, ServiceCommand::CreateSnapshot, ServiceCommand::RestoreSnapshot],
            ServiceType::IAM => vec![ServiceCommand::ListUsers, ServiceCommand::ListRoles, ServiceCommand::CreateUser, ServiceCommand::DeleteUser, ServiceCommand::CreateRole, ServiceCommand::DeleteRole, ServiceCommand::AttachPolicy, ServiceCommand::DetachPolicy],
            ServiceType::Secrets => vec![ServiceCommand::ListSecrets, ServiceCommand::CreateSecret, ServiceCommand::UpdateSecret, ServiceCommand::DeleteSecret, ServiceCommand::DescribeSecret, ServiceCommand::GetSecretValue],
            ServiceType::EKS => vec![ServiceCommand::ListClusters, ServiceCommand::CreateCluster, ServiceCommand::DeleteCluster, ServiceCommand::DescribeCluster, ServiceCommand::UpdateKubeconfig, ServiceCommand::ListNodeGroups],
        };
        assert(r@ =~= actions_of(service_type));
        r
    }
}
} // verus!

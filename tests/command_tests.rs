use nimbus_ctl::commands::{CommandCategory, ContextRequirement};
use nimbus_ctl::context::CommandContext;
use nimbus_ctl::page::AppPage;
use nimbus_ctl::registry::CommandRegistry;
use nimbus_ctl::service::{AwsProfile, AwsRegion, ServiceType};

fn profile(name: &str, region: &str) -> AwsProfile {
    AwsProfile {
        name: name.to_string(),
        region: Some(region.to_string()),
        access_key_id: None,
        secret_access_key: None,
        session_token: None,
        role_arn: None,
        source_profile: None,
    }
}

fn create_test_context() -> CommandContext {
    let profiles = vec![profile("default", "us-east-1"), profile("dev", "us-west-2")];
    let regions = vec![
        AwsRegion {
            name: "us-east-1".to_string(),
            display_name: "US East (N. Virginia)".to_string(),
        },
        AwsRegion {
            name: "us-west-2".to_string(),
            display_name: "US West (Oregon)".to_string(),
        },
    ];
    CommandContext::new(
        AppPage::Dashboard,
        None,
        None,
        profiles,
        regions,
        "default".to_string(),
        "us-east-1".to_string(),
    )
}

#[test]
fn test_context_aware_command_generation() {
    let context = create_test_context();
    let commands = CommandRegistry::get_context_aware_commands(&context);
    assert!(!commands.is_empty());
    let profile_commands: Vec<_> = commands
        .iter()
        .filter(|cmd| matches!(cmd.category, CommandCategory::Profile))
        .collect();
    assert!(!profile_commands.is_empty());
    let region_commands: Vec<_> = commands
        .iter()
        .filter(|cmd| matches!(cmd.category, CommandCategory::Region))
        .collect();
    assert!(!region_commands.is_empty());
}

#[test]
fn test_service_specific_commands_when_service_selected() {
    let mut context = create_test_context();
    context.current_page = AppPage::ResourceList(ServiceType::EC2);
    context.selected_service = Some(ServiceType::EC2);
    let commands = CommandRegistry::get_context_aware_commands(&context);
    let ec2_commands: Vec<_> = commands
        .iter()
        .filter(|cmd| matches!(cmd.category, CommandCategory::Service(ServiceType::EC2)))
        .collect();
    assert!(!ec2_commands.is_empty());
    let list_command = ec2_commands
        .iter()
        .find(|cmd| cmd.name.contains("List EC2 Instances"));
    assert!(list_command.is_some());
    assert!(list_command.unwrap().enabled);
}

#[test]
fn test_resource_specific_commands_when_resource_selected() {
    let mut context = create_test_context();
    context.current_page =
        AppPage::ResourceDetail(ServiceType::EC2, "i-1234567890abcdef0".to_string());
    context.selected_service = Some(ServiceType::EC2);
    context.selected_resource = Some("i-1234567890abcdef0".to_string());
    let commands = CommandRegistry::get_context_aware_commands(&context);
    let ec2_commands: Vec<_> = commands
        .iter()
        .filter(|cmd| matches!(cmd.category, CommandCategory::Service(ServiceType::EC2)))
        .collect();
    assert!(!ec2_commands.is_empty());
    let start_command = ec2_commands
        .iter()
        .find(|cmd| cmd.name.contains("Start Instance"));
    assert!(start_command.is_some());
    assert!(start_command.unwrap().enabled);
}

#[test]
fn test_context_requirement_checking() {
    let context = create_test_context();
    assert!(context.satisfies_requirement(&ContextRequirement::ProfilesAvailable));
    assert!(context.satisfies_requirement(&ContextRequirement::RegionsAvailable));
    assert!(!context.satisfies_requirement(&ContextRequirement::ServiceSelected(ServiceType::EC2)));
    assert!(context.satisfies_requirement(&ContextRequirement::NotOnPage(AppPage::Settings)));
    assert!(!context.satisfies_requirement(&ContextRequirement::NotOnPage(AppPage::Dashboard)));
}

#[test]
fn test_command_filtering_by_context() {
    let mut context = create_test_context();
    let dashboard_commands = CommandRegistry::get_context_aware_commands(&context);
    let service_commands: Vec<_> = dashboard_commands
        .iter()
        .filter(|cmd| matches!(cmd.category, CommandCategory::Service(_)))
        .collect();
    assert!(service_commands.len() < 10);
    context.current_page = AppPage::ResourceList(ServiceType::S3);
    context.selected_service = Some(ServiceType::S3);
    let service_commands = CommandRegistry::get_context_aware_commands(&context);
    let s3_commands: Vec<_> = service_commands
        .iter()
        .filter(|cmd| matches!(cmd.category, CommandCategory::Service(ServiceType::S3)))
        .collect();
    assert!(!s3_commands.is_empty());
}

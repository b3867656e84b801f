use nimbus_ctl::builders::{
    create_general_commands, create_navigation_commands, create_profile_commands_for_context,
    create_region_commands_for_context,
};
use nimbus_ctl::commands::{
    Command, CommandAction, CommandCategory, ContextRequirement, ServiceCommand, UIElement,
};
use nimbus_ctl::context::CommandContext;
use nimbus_ctl::page::AppPage;
use nimbus_ctl::palette::CommandPalette;
use nimbus_ctl::registry::{build_catalog, resolve, CommandRegistry};
use nimbus_ctl::service::{AwsProfile, AwsRegion, ServiceType};
use nimbus_ctl::service_catalog::{create_ec2_commands, create_iam_commands, create_service_commands};

fn profile(name: &str) -> AwsProfile {
    AwsProfile {
        name: name.to_string(),
        region: None,
        access_key_id: None,
        secret_access_key: None,
        session_token: None,
        role_arn: None,
        source_profile: None,
    }
}

fn region(name: &str, display: &str) -> AwsRegion {
    AwsRegion { name: name.to_string(), display_name: display.to_string() }
}

fn context(page: AppPage, service: Option<ServiceType>, resource: Option<&str>) -> CommandContext {
    CommandContext::new(
        page,
        service,
        resource.map(|r| r.to_string()),
        vec![profile("default"), profile("dev"), profile("staging")],
        vec![region("us-east-1", "US East (N. Virginia)"), region("eu-west-1", "Europe (Ireland)")],
        "default".to_string(),
        "us-east-1".to_string(),
    )
}

fn names(cs: &[Command]) -> Vec<String> {
    cs.iter().map(|c| c.name.clone()).collect()
}

fn find<'a>(cs: &'a [Command], name: &str) -> Option<&'a Command> {
    cs.iter().find(|c| c.name == name)
}

#[test]
fn profile_commands_skip_current_profile() {
    let ctx = context(AppPage::Dashboard, None, None);
    let cs = create_profile_commands_for_context(&ctx);
    assert_eq!(cs.len(), 3);
    assert_eq!(cs[0].id, "profile.selector");
    assert_eq!(cs[1].name, "Switch to Profile: dev");
    assert_eq!(cs[1].id, "profile.switch.dev");
    assert_eq!(cs[2].name, "Switch to Profile: staging");
    for c in &cs {
        if let CommandAction::SwitchProfile(n) = &c.action {
            assert_ne!(n, "default");
        }
    }
}

#[test]
fn region_commands_skip_current_region() {
    let ctx = context(AppPage::Dashboard, None, None);
    let cs = create_region_commands_for_context(&ctx);
    assert_eq!(cs.len(), 2);
    assert_eq!(cs[1].name, "Switch to Region: Europe (Ireland)");
    assert_eq!(cs[1].description, "Switch to AWS region 'Europe (Ireland)' (eu-west-1)");
    assert_eq!(cs[1].id, "region.switch.eu-west-1");
    for c in &cs {
        if let CommandAction::SwitchRegion(n) = &c.action {
            assert_ne!(n, "us-east-1");
        }
    }
}

#[test]
fn navigation_commands_layout() {
    let cs = create_navigation_commands();
    assert_eq!(cs.len(), 8);
    assert_eq!(cs[0].name, "Go to Dashboard");
    assert_eq!(cs[1].name, "Go to Settings");
    assert_eq!(cs[2].id, "nav.service.ec2");
    assert_eq!(cs[6].name, "Go to Secrets Manager");
    assert_eq!(cs[6].description, "Navigate to Secrets Manager service");
    assert_eq!(cs[7].id, "nav.service.eks");
    let g = create_general_commands();
    assert_eq!(g[0].id, "general.help");
    assert_eq!(g[1].id, "general.settings");
}

#[test]
fn navigation_hidden_on_its_own_page() {
    let on_dash = CommandRegistry::get_context_aware_commands(&context(AppPage::Dashboard, None, None));
    assert!(find(&on_dash, "Go to Dashboard").is_none());
    assert!(find(&on_dash, "Go to Settings").is_some());
    let on_settings = CommandRegistry::get_context_aware_commands(&context(AppPage::Settings, None, None));
    assert!(find(&on_settings, "Go to Dashboard").is_some());
    assert!(find(&on_settings, "Go to Settings").is_none());
}

#[test]
fn start_instance_needs_selected_resource() {
    let without = CommandRegistry::get_context_aware_commands(&context(
        AppPage::ResourceList(ServiceType::EC2),
        Some(ServiceType::EC2),
        None,
    ));
    assert!(find(&without, "Start Instance").is_none());
    let with = CommandRegistry::get_context_aware_commands(&context(
        AppPage::ResourceList(ServiceType::EC2),
        Some(ServiceType::EC2),
        Some("i-1"),
    ));
    let start = find(&with, "Start Instance").unwrap();
    assert!(start.enabled);
    assert_eq!(start.id, "service.ec2.startinstance");
}

#[test]
fn dashboard_has_no_service_commands() {
    let cs = CommandRegistry::get_context_aware_commands(&context(AppPage::Dashboard, None, None));
    assert!(!cs.iter().any(|c| matches!(c.category, CommandCategory::Service(_))));
    assert_eq!(cs.len(), 7 + 3 + 2 + 2);
}

#[test]
fn every_requirement_in_isolation() {
    let detail = context(
        AppPage::ResourceDetail(ServiceType::S3, "b1".to_string()),
        Some(ServiceType::S3),
        Some("b1"),
    );
    assert!(detail.satisfies_requirement(&ContextRequirement::ServiceSelected(ServiceType::S3)));
    assert!(!detail.satisfies_requirement(&ContextRequirement::ServiceSelected(ServiceType::EC2)));
    assert!(detail.satisfies_requirement(&ContextRequirement::ResourceSelected));
    assert!(detail.satisfies_requirement(&ContextRequirement::ResourceOfTypeSelected(ServiceType::S3)));
    assert!(!detail.satisfies_requirement(&ContextRequirement::ResourceOfTypeSelected(ServiceType::RDS)));
    assert!(detail.satisfies_requirement(&ContextRequirement::OnPage(AppPage::ResourceDetail(
        ServiceType::S3,
        "b1".to_string()
    ))));
    assert!(!detail.satisfies_requirement(&ContextRequirement::OnPage(AppPage::ResourceDetail(
        ServiceType::S3,
        "b2".to_string()
    ))));
    assert!(detail.satisfies_requirement(&ContextRequirement::NotOnPage(AppPage::Dashboard)));
    let empty = CommandContext::new(AppPage::Dashboard, None, None, vec![], vec![], "x".to_string(), "y".to_string());
    assert!(!empty.satisfies_requirement(&ContextRequirement::ProfilesAvailable));
    assert!(!empty.satisfies_requirement(&ContextRequirement::RegionsAvailable));
    assert!(!empty.satisfies_requirement(&ContextRequirement::ResourceSelected));
    assert!(empty.satisfies_all_requirements(&[]));
    assert!(!detail.satisfies_all_requirements(&[
        ContextRequirement::ResourceSelected,
        ContextRequirement::OnPage(AppPage::Settings),
    ]));
}

#[test]
fn resolve_keeps_catalog_order_and_drops_disabled() {
    let ctx = context(AppPage::ResourceList(ServiceType::IAM), Some(ServiceType::IAM), None);
    let catalog = build_catalog(&ctx);
    let resolved = resolve(&catalog, &ctx);
    let mut last = 0usize;
    for c in &resolved {
        assert!(c.enabled);
        let pos = catalog.iter().position(|x| x.id == c.id).unwrap();
        assert!(pos >= last);
        last = pos;
    }
    let iam: Vec<String> = resolved
        .iter()
        .filter(|c| matches!(c.category, CommandCategory::Service(ServiceType::IAM)))
        .map(|c| c.name.clone())
        .collect();
    assert_eq!(iam, vec!["List Users", "List Roles", "Create User", "Create Role"]);
}

#[test]
fn static_catalogs() {
    let r = CommandRegistry::new();
    assert_eq!(r.commands.len(), 8 + 1 + 1 + 41 + 2);
    assert_eq!(create_service_commands().len(), 41);
    let ec2 = create_ec2_commands();
    assert_eq!(names(&ec2)[0], "List EC2 Instances");
    assert_eq!(ec2[1].name, "Create EC2 Instance");
    assert_eq!(ec2[1].description, "Launch a new EC2 instance");
    assert_eq!(ec2[2].context_requirements.len(), 2);
    let iam = create_iam_commands();
    assert_eq!(iam.len(), 8);
    assert_eq!(iam[3].id, "service.iam.createrole");
    let ctx = context(AppPage::Dashboard, None, None);
    let with_ctx = CommandRegistry::new_with_context(&ctx);
    assert_eq!(with_ctx.commands.len(), 8 + 3 + 2 + 41 + 2);
    let usable = with_ctx.get_commands_for_context(&ctx);
    assert_eq!(usable.len(), 7 + 3 + 2 + 2);
}

#[test]
fn service_command_tables() {
    assert_eq!(ServiceCommand::for_service(ServiceType::EC2).len(), 7);
    assert_eq!(ServiceCommand::for_service(ServiceType::IAM).len(), 8);
    assert_eq!(ServiceCommand::StartInstance.display_name(), "Start Instance");
    assert_eq!(ServiceCommand::GetSecretValue.description(), "Retrieve the secret value");
    assert_eq!(ServiceCommand::ListNodeGroups.service_type(), ServiceType::EKS);
    assert!(ServiceCommand::StartInstance.requires_resource_selection());
    assert!(!ServiceCommand::CreateInstance.requires_resource_selection());
    assert_eq!(CommandCategory::Service(ServiceType::S3).display_name(), "Service");
    assert_eq!(CommandCategory::Service(ServiceType::S3).icon(), ServiceType::S3.icon());
    assert_eq!(ServiceType::all().len(), 6);
    assert_eq!(ServiceType::Secrets.display_name(), "Secrets Manager");
}

#[test]
fn command_builder_methods() {
    let c = Command::new(
        "x".to_string(),
        "X".to_string(),
        "d".to_string(),
        CommandCategory::General,
        CommandAction::ToggleUI(UIElement::Help),
        "i".to_string(),
    );
    assert!(c.enabled && c.keywords.is_empty() && c.context_requirements.is_empty());
    let c = c
        .with_keywords(vec!["k".to_string()])
        .with_context_requirements(vec![ContextRequirement::ResourceSelected])
        .with_enabled(false);
    assert_eq!(c.keywords, vec!["k".to_string()]);
    assert_eq!(c.context_requirements.len(), 1);
    assert!(!c.enabled);
    let d = c.clone();
    assert_eq!(d.id, "x");
}

#[test]
fn context_queries() {
    let ctx = context(AppPage::ResourceDetail(ServiceType::RDS, "db".to_string()), None, None);
    assert_eq!(ctx.get_service_from_page(), Some(ServiceType::RDS));
    assert!(ctx.is_viewing_service(ServiceType::RDS));
    assert!(ctx.is_viewing_resource_detail());
    assert!(!ctx.is_viewing_resource_list());
    assert!(!ctx.is_on_dashboard());
    assert!(!ctx.is_on_settings());
    assert_eq!(ctx.get_profile_names(), vec!["default", "dev", "staging"]);
    assert_eq!(ctx.get_region_names(), vec!["us-east-1", "eu-west-1"]);
    assert!(ctx.has_profile("dev"));
    assert!(!ctx.has_profile("prod"));
    assert!(ctx.has_region("eu-west-1"));
    assert!(!ctx.has_region("eu-west-9"));
    let moved = ctx.with_page(AppPage::ResourceList(ServiceType::EKS));
    assert_eq!(moved.selected_service, Some(ServiceType::EKS));
    let moved = moved.with_selected_resource(Some("c1".to_string())).with_selected_service(None);
    assert_eq!(moved.selected_resource.as_deref(), Some("c1"));
    assert_eq!(moved.selected_service, None);
}

fn palette_for(ctx: CommandContext) -> CommandPalette {
    let commands = CommandRegistry::get_context_aware_commands(&ctx);
    let mut p = CommandPalette::new(ctx);
    p.set_commands(commands);
    p
}

#[test]
fn filtering_never_grows_and_stays_empty() {
    let mut p = palette_for(context(AppPage::ResourceList(ServiceType::EC2), Some(ServiceType::EC2), Some("i-1")));
    p.show();
    let all = p.filtered_count();
    assert!(all > 0);
    for ch in "inst".chars() {
        p.add_char(ch);
        assert!(p.filtered_count() <= all);
    }
    assert!(p.filtered_count() > 0);
    p.update_input("zzq".to_string());
    assert_eq!(p.filtered_count(), 0);
    p.add_char('x');
    assert_eq!(p.filtered_count(), 0);
    assert_eq!(p.get_selected_index(), 0);
}

#[test]
fn query_is_case_insensitive() {
    let mut p = palette_for(context(AppPage::ResourceList(ServiceType::EC2), Some(ServiceType::EC2), None));
    p.update_input("eC2".to_string());
    let shown = names(p.get_filtered_commands());
    assert!(shown.contains(&"List EC2 Instances".to_string()));
    assert!(shown.contains(&"Go to EC2".to_string()));
    p.update_input("NAVIGATION".to_string());
    assert!(p.get_filtered_commands().iter().all(|c| c.category == CommandCategory::Navigation));
    assert!(p.has_commands());
}

#[test]
fn selection_is_clamped() {
    let mut p = palette_for(context(AppPage::Dashboard, None, None));
    p.show();
    let n = p.filtered_count();
    for _ in 0..(n + 5) {
        p.select_next();
    }
    assert_eq!(p.get_selected_index(), n - 1);
    p.select_previous();
    assert_eq!(p.get_selected_index(), n - 2);
    for _ in 0..(n + 5) {
        p.select_previous();
    }
    assert_eq!(p.get_selected_index(), 0);
    p.add_char('s');
    assert!(p.get_selected_index() < p.filtered_count());
    p.add_char('q');
    p.add_char('q');
    assert_eq!(p.filtered_count(), 0);
    assert_eq!(p.get_selected_index(), 0);
    assert!(p.get_selected_command().is_none());
}

#[test]
fn palette_edit_and_visibility() {
    let mut p = palette_for(context(AppPage::Dashboard, None, None));
    assert!(!p.is_visible());
    p.toggle();
    assert!(p.is_visible());
    p.add_char('h');
    p.add_char('é');
    assert_eq!(p.get_input(), "hé");
    p.backspace();
    assert_eq!(p.get_input(), "h");
    p.backspace();
    p.backspace();
    assert_eq!(p.get_input(), "");
    p.update_input("help".to_string());
    assert_eq!(p.get_selected_command().unwrap().name, "Show Help");
    p.close();
    assert!(!p.is_visible());
    assert_eq!(p.get_input(), "");
    p.reset_input();
    assert_eq!(p.get_selected_index(), 0);
    p.update_context(context(AppPage::Settings, None, None));
    assert!(p.get_filtered_commands().iter().all(|c| c.name != "Go to Settings"));
}

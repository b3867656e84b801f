use nimbus_ctl::commands::{CommandAction, CommandCategory, ServiceCommand, UIElement};
use nimbus_ctl::page::AppPage;
use nimbus_ctl::service::{AwsProfile, AwsRegion, ServiceType};
use nimbus_ctl::state::{AppState, NotificationLevel, PaletteKey, SwitchRequest};

fn profile(name: &str) -> AwsProfile {
    AwsProfile {
        name: name.to_string(),
        region: None,
        access_key_id: None,
        secret_access_key: None,
        session_token: None,
        role_arn: None,
        source_profile: None,
    }
}

fn state() -> AppState {
    AppState::new(
        AppPage::Dashboard,
        vec![profile("default"), profile("staging")],
        vec![
            AwsRegion { name: "us-east-1".to_string(), display_name: "US East (N. Virginia)".to_string() },
            AwsRegion { name: "eu-west-1".to_string(), display_name: "Europe (Ireland)".to_string() },
        ],
        "default".to_string(),
        "us-east-1".to_string(),
    )
}

fn shown(s: &AppState) -> Vec<String> {
    s.command_palette.get_filtered_commands().iter().map(|c| c.name.clone()).collect()
}

#[test]
fn dashboard_to_ec2_to_resource_action() {
    let mut s = state();
    s.toggle_command_palette();
    assert!(!s
        .command_palette
        .get_filtered_commands()
        .iter()
        .any(|c| c.category == CommandCategory::Service(ServiceType::EC2)));
    s.toggle_command_palette();
    assert_eq!(s.execute_command(&CommandAction::NavigateToService(ServiceType::EC2)), None);
    assert_eq!(s.current_page, AppPage::ResourceList(ServiceType::EC2));
    assert_eq!(s.selected_service, Some(ServiceType::EC2));
    s.toggle_command_palette();
    let names = shown(&s);
    assert!(names.contains(&"List EC2 Instances".to_string()));
    assert!(names.contains(&"Create EC2 Instance".to_string()));
    assert!(!names.contains(&"Start Instance".to_string()));
    assert!(s.command_palette.get_filtered_commands().iter().all(|c| c.enabled));
    s.toggle_command_palette();
    s.set_selected_resource(Some("i-1234".to_string()));
    s.toggle_command_palette();
    let start = s
        .command_palette
        .get_filtered_commands()
        .iter()
        .find(|c| c.name == "Start Instance")
        .unwrap();
    assert!(start.enabled);
}

#[test]
fn profile_switch_failure_keeps_profile() {
    let mut s = state();
    let req = s.execute_command(&CommandAction::SwitchProfile("staging".to_string()));
    assert_eq!(req, Some(SwitchRequest::Profile("staging".to_string())));
    assert_eq!(s.current_profile, "default");
    s.switch_profile("staging", Err("access denied".to_string()));
    assert_eq!(s.current_profile, "default");
    let last = s.notifications.last().unwrap();
    assert_eq!(last.level, NotificationLevel::Error);
    assert_eq!(last.message, "Failed to switch profile: access denied");
}

#[test]
fn profile_and_region_switch_success() {
    let mut s = state();
    s.switch_profile("staging", Ok(()));
    assert_eq!(s.current_profile, "staging");
    assert_eq!(s.notifications.last().unwrap().level, NotificationLevel::Success);
    assert_eq!(s.command_palette.context.current_profile, "staging");
    s.switch_profile("nobody", Ok(()));
    assert_eq!(s.current_profile, "staging");
    assert_eq!(s.notifications.len(), 1);
    s.switch_region("eu-west-1", Ok(()));
    assert_eq!(s.current_region, "eu-west-1");
    assert_eq!(s.notifications.last().unwrap().message, "Switched to region: eu-west-1");
    s.switch_region("us-east-1", Err("timeout".to_string()));
    assert_eq!(s.current_region, "eu-west-1");
    assert_eq!(s.notifications.last().unwrap().message, "Failed to switch region: timeout");
}

#[test]
fn escape_closes_one_overlay_at_a_time() {
    let mut s = state();
    s.navigate_to_page(AppPage::Settings);
    let history = s.page_history.len();
    s.help_visible = true;
    s.toggle_command_palette();
    assert!(s.command_palette.is_visible());
    s.handle_escape();
    assert!(!s.command_palette.is_visible());
    assert!(s.help_visible);
    s.handle_escape();
    assert!(!s.help_visible);
    assert_eq!(s.page_history.len(), history);
    assert_eq!(s.current_page, AppPage::Settings);
    s.handle_escape();
    assert_eq!(s.current_page, AppPage::Dashboard);
    assert_eq!(s.page_history.len(), history - 1);
    s.handle_escape();
    assert_eq!(s.current_page, AppPage::Dashboard);
}

#[test]
fn escape_priority_order() {
    let mut s = state();
    s.quick_nav_visible = true;
    s.settings_visible = true;
    s.profile_selector_visible = true;
    s.region_selector_visible = true;
    s.handle_escape();
    assert!(!s.quick_nav_visible && s.settings_visible);
    s.handle_escape();
    assert!(!s.settings_visible && s.profile_selector_visible);
    s.handle_escape();
    assert!(!s.profile_selector_visible && s.region_selector_visible);
    s.handle_escape();
    assert!(!s.region_selector_visible);
}

#[test]
fn service_command_notifications() {
    let mut s = state();
    s.navigate_to_page(AppPage::ResourceList(ServiceType::EC2));
    s.execute_service_command(ServiceType::EC2, ServiceCommand::StartInstance);
    let last = s.notifications.last().unwrap();
    assert_eq!(last.level, NotificationLevel::Error);
    assert_eq!(last.message, "No resource selected for Start Instance");
    s.execute_command(&CommandAction::ExecuteServiceCommand(ServiceType::EC2, ServiceCommand::ListInstances));
    let last = s.notifications.last().unwrap();
    assert_eq!(last.level, NotificationLevel::Success);
    assert_eq!(last.message, "List Instances completed");
    s.clear_notifications();
    assert!(s.notifications.is_empty());
    s.add_notification("hi".to_string(), NotificationLevel::Warning);
    assert_eq!(s.notifications.len(), 1);
}

#[test]
fn navigation_updates_selection() {
    let mut s = state();
    s.navigate_to_page(AppPage::ResourceDetail(ServiceType::S3, "b1".to_string()));
    assert_eq!(s.selected_service, Some(ServiceType::S3));
    assert_eq!(s.selected_resource.as_deref(), Some("b1"));
    s.execute_command(&CommandAction::OpenSettings);
    assert_eq!(s.current_page, AppPage::Settings);
    assert_eq!(s.selected_service, None);
    assert_eq!(s.selected_resource, None);
    s.execute_command(&CommandAction::NavigateToPage(AppPage::ResourceList(ServiceType::RDS)));
    assert_eq!(s.selected_service, Some(ServiceType::RDS));
    assert_eq!(s.page_history.len(), 3);
    s.execute_command(&CommandAction::ShowHelp);
    assert!(s.help_visible);
    s.execute_command(&CommandAction::ToggleUI(UIElement::Help));
    assert!(!s.help_visible);
    s.execute_command(&CommandAction::ToggleUI(UIElement::RegionSelector));
    assert!(s.region_selector_visible);
    s.set_selected_service(Some(ServiceType::IAM));
    assert_eq!(s.command_palette.context.selected_service, Some(ServiceType::IAM));
}

#[test]
fn palette_keys_drive_execution() {
    let mut s = state();
    s.toggle_command_palette();
    for ch in "go to s3".chars() {
        assert_eq!(s.handle_palette_key(PaletteKey::Char(ch)), None);
    }
    assert_eq!(s.command_palette.get_input(), "go to s3");
    s.handle_palette_key(PaletteKey::Down);
    s.handle_palette_key(PaletteKey::Up);
    assert_eq!(s.handle_palette_key(PaletteKey::Enter), None);
    assert!(!s.command_palette.is_visible());
    assert_eq!(s.current_page, AppPage::ResourceList(ServiceType::S3));
    s.toggle_command_palette();
    for ch in "staging".chars() {
        s.handle_palette_key(PaletteKey::Char(ch));
    }
    let req = s.handle_palette_key(PaletteKey::Enter);
    assert_eq!(req, Some(SwitchRequest::Profile("staging".to_string())));
    s.toggle_command_palette();
    s.handle_palette_key(PaletteKey::Char('x'));
    s.handle_palette_key(PaletteKey::Backspace);
    assert_eq!(s.command_palette.get_input(), "");
    s.handle_palette_key(PaletteKey::Escape);
    assert!(!s.command_palette.is_visible());
}

#[test]
fn quick_navigation_filters_and_navigates() {
    let mut s = state();
    s.toggle_quick_nav();
    assert!(s.quick_nav_visible);
    assert_eq!(s.quick_nav_suggestions.len(), 6);
    for ch in "KUBER".chars() {
        s.handle_quick_nav_key(PaletteKey::Char(ch));
    }
    assert_eq!(s.quick_nav_suggestions.len(), 1);
    assert_eq!(s.quick_nav_suggestions[0].name, "EKS");
    assert_eq!(s.quick_nav_suggestions[0].description, "Browse EKS resources");
    s.handle_quick_nav_key(PaletteKey::Backspace);
    assert_eq!(s.quick_nav_input, "KUBE");
    s.handle_quick_nav_key(PaletteKey::Down);
    assert_eq!(s.quick_nav_selected_index, 0);
    s.handle_quick_nav_key(PaletteKey::Enter);
    assert!(!s.quick_nav_visible);
    assert_eq!(s.current_page, AppPage::ResourceList(ServiceType::EKS));
    assert_eq!(s.selected_service, Some(ServiceType::EKS));
    assert_eq!(s.command_palette.context.selected_service, Some(ServiceType::EKS));
    s.toggle_quick_nav();
    s.handle_quick_nav_key(PaletteKey::Char('s'));
    let n = s.quick_nav_suggestions.len();
    assert!(n > 1);
    s.handle_quick_nav_key(PaletteKey::Down);
    assert_eq!(s.quick_nav_selected_index, 1);
    s.handle_quick_nav_key(PaletteKey::Up);
    assert_eq!(s.quick_nav_selected_index, 0);
    s.handle_quick_nav_key(PaletteKey::Escape);
    assert!(!s.quick_nav_visible);
    assert!(s.quick_nav_suggestions.is_empty());
}

#[test]
fn quick_navigation_to_resource() {
    let mut s = state();
    s.execute_navigation_action(&nimbus_ctl::state::NavigationAction::NavigateToResource(
        ServiceType::S3,
        "logs".to_string(),
    ));
    assert_eq!(s.current_page, AppPage::ResourceDetail(ServiceType::S3, "logs".to_string()));
    assert_eq!(s.selected_resource.as_deref(), Some("logs"));
}

#[test]
fn resource_list_cursor_and_detail() {
    let mut s = state();
    s.handle_down();
    assert_eq!(s.selected_resource_index, 0);
    s.navigate_to_page(AppPage::ResourceList(ServiceType::EC2));
    for _ in 0..12 {
        s.handle_down();
    }
    s.handle_up();
    assert_eq!(s.selected_resource_index, 11);
    s.handle_enter();
    assert_eq!(s.current_page, AppPage::ResourceDetail(ServiceType::EC2, "resource-11".to_string()));
    assert_eq!(s.selected_resource.as_deref(), Some("resource-11"));
    s.toggle_command_palette();
    assert!(s.command_palette.get_filtered_commands().iter().any(|c| c.name == "Start Instance"));
    s.toggle_command_palette();
    s.handle_enter();
    assert_eq!(s.page_history.len(), 2);
    s.handle_escape();
    assert_eq!(s.current_page, AppPage::ResourceList(ServiceType::EC2));
    assert_eq!(s.selected_resource, None);
}

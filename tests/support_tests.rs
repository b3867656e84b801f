use nimbus_ctl::arn::{extract_region_from_arn, extract_resource_id, truncate_string};
use nimbus_ctl::config::{
    get_default_config, get_default_dashboard_widgets, get_default_keybindings,
    get_default_quick_actions, AppConfig, SettingsManager, UserConfig,
};
use nimbus_ctl::error::AppError;
use nimbus_ctl::page::AppPage;
use nimbus_ctl::profiles::ProfileManager;
use nimbus_ctl::provider::{MultiRegionAwsClients, RdsService, RegionClients, S3Service};
use nimbus_ctl::regions::RegionManager;
use nimbus_ctl::service::ServiceType;
use nimbus_ctl::text::{split_fields, str_eq, text_contains};

#[test]
fn service_from_identifier() {
    assert_eq!(ServiceType::from_arn("arn:aws:ec2:us-east-1:123:instance/i-1").unwrap(), ServiceType::EC2);
    assert_eq!(ServiceType::from_arn("arn:aws:secretsmanager:x:1:secret:a").unwrap(), ServiceType::Secrets);
    assert_eq!(ServiceType::from_arn("arn:aws:eks").unwrap(), ServiceType::EKS);
    match ServiceType::from_arn("arn:aws") {
        Err(AppError::Parse(m)) => assert_eq!(m, "Invalid ARN format: arn:aws"),
        _ => panic!("expected a parse error"),
    }
    match ServiceType::from_arn("arn:aws:lambda:x") {
        Err(AppError::Parse(m)) => assert_eq!(m, "Unknown service type in ARN: arn:aws:lambda:x"),
        _ => panic!("expected a parse error"),
    }
}

#[test]
fn identifier_parts() {
    assert_eq!(extract_resource_id("arn:aws:ec2:us-east-1:123:instance/i-1").unwrap(), "i-1");
    assert_eq!(extract_resource_id("arn:aws:s3:::bucket").unwrap(), "bucket");
    assert_eq!(extract_resource_id("arn:aws:iam::1:user/a/b").unwrap(), "b");
    assert!(matches!(extract_resource_id("arn:aws:s3::"), Err(AppError::Parse(_))));
    assert_eq!(extract_region_from_arn("arn:aws:ec2:us-east-1:123:x").unwrap(), "us-east-1");
    assert_eq!(extract_region_from_arn("arn:aws:s3:::b").unwrap(), "");
    match extract_region_from_arn("a:b:c") {
        Err(e) => assert_eq!(e.message(), "Parsing error: Invalid ARN format: a:b:c"),
        Ok(_) => panic!("expected an error"),
    }
}

#[test]
fn truncation() {
    assert_eq!(truncate_string("hello world", 8), "hello...");
    assert_eq!(truncate_string("hi", 5), "hi");
    assert_eq!(truncate_string("hello", 5), "hello");
    assert_eq!(truncate_string("hello", 2), "...");
}

#[test]
fn error_messages() {
    assert_eq!(AppError::Config("bad".to_string()).message(), "Configuration error: bad");
    assert_eq!(AppError::Profile("p".to_string()).message(), "Profile error: p");
    assert_eq!(AppError::ResourceNotFound("r".to_string()).message(), "Resource not found: r");
    assert_eq!(AppError::Auth("a".to_string()).message(), "Authentication error: a");
    assert_eq!(AppError::Network("n".to_string()).message(), "Network error: n");
    assert_eq!(AppError::General("g".to_string()).message(), "General error: g");
    assert_eq!(AppError::AwsSdk("s".to_string()).message(), "AWS SDK error: s");
    assert_eq!(AppError::AwsConfig("c".to_string()).message(), "AWS configuration error: c");
    assert_eq!(AppError::Io("i".to_string()).message(), "IO error: i");
    assert_eq!(AppError::Serde("j".to_string()).message(), "Serialization error: j");
}

#[test]
fn text_helpers() {
    assert!(text_contains("list ec2 instances", "ec2"));
    assert!(text_contains("abc", ""));
    assert!(!text_contains("ab", "abc"));
    assert!(!text_contains("abc", "ac"));
    assert!(str_eq("héllo", "héllo"));
    assert!(!str_eq("a", "ab"));
    assert_eq!(split_fields("a::b", ':'), vec!["a", "", "b"]);
    assert_eq!(split_fields("", ':'), vec![""]);
}

#[test]
fn default_configuration() {
    let c = get_default_config();
    assert_eq!(c.aws.default_profile, "default");
    assert_eq!(c.aws.default_region, "us-east-1");
    assert_eq!(c.aws.auto_refresh_interval, 300);
    assert_eq!(c.aws.max_concurrent_requests, 10);
    assert_eq!(c.display.theme, "default");
    assert_eq!(c.display.max_table_rows, 50);
    assert!(c.behavior.save_favorites);
    assert_eq!(c.dashboard.default_page, AppPage::Dashboard);
    assert_eq!(c.dashboard.enabled_widgets, get_default_dashboard_widgets());
    assert_eq!(c.dashboard.dashboard_refresh_interval, 60);
    assert_eq!(get_default_keybindings().len(), 18);
    assert_eq!(get_default_quick_actions()[2], ("Create RDS Database", "rds_create"));
}

#[test]
fn settings_edits() {
    let mut m = SettingsManager::new(UserConfig::default());
    m.update_aws_profile("dev".to_string());
    m.update_aws_region("eu-west-1".to_string());
    m.update_theme("dark".to_string());
    m.toggle_help_bar();
    m.toggle_status_bar();
    m.toggle_unicode_symbols();
    m.toggle_auto_refresh();
    m.toggle_confirm_actions();
    m.set_refresh_interval(5);
    m.set_dashboard_refresh_interval(7);
    m.set_max_recent_items(3);
    m.set_max_favorite_items(4);
    let c = m.get_config();
    assert_eq!(c.aws.default_profile, "dev");
    assert_eq!(c.aws.default_region, "eu-west-1");
    assert_eq!(c.display.theme, "dark");
    assert!(!c.display.show_help_bar && !c.display.show_status_bar && !c.display.use_unicode_symbols);
    assert!(!c.behavior.auto_refresh_resources && !c.behavior.confirm_destructive_actions);
    assert_eq!(c.aws.auto_refresh_interval, 5);
    assert_eq!(c.dashboard.dashboard_refresh_interval, 7);
    assert_eq!(c.dashboard.max_recent_items, 3);
    assert_eq!(c.dashboard.max_favorite_items, 4);
    m.get_config_mut().display.max_table_rows = 9;
    assert_eq!(m.get_config().display.max_table_rows, 9);
    m.reset_to_defaults();
    assert_eq!(m.get_config().display.theme, "default");
    let mut a = AppConfig::new(m.config, "/tmp/c.toml".to_string());
    a.user_config.display.theme = "x".to_string();
    a.reset_to_defaults();
    assert_eq!(a.user_config.display.theme, "default");
    assert_eq!(a.config_path, "/tmp/c.toml");
}

#[test]
fn region_table() {
    assert_eq!(RegionManager::get_all_regions().len(), 14);
    assert_eq!(RegionManager::get_region_by_name("eu-west-1").unwrap().display_name, "Europe (Ireland)");
    assert!(RegionManager::get_region_by_name("mars-1").is_none());
    assert!(RegionManager::is_valid_region("sa-east-1"));
    assert!(!RegionManager::is_valid_region("SA-EAST-1"));
}

#[test]
fn provider_stubs() {
    let mut c = MultiRegionAwsClients::new("default", "us-east-1").unwrap();
    assert!(c.switch_region("eu-west-1").is_ok());
    assert!(c.switch_profile("dev").is_ok());
    assert_eq!(c.current_region(), "eu-west-1");
    assert_eq!(c.current_profile(), "dev");
    assert_eq!(c.get_current_clients().unwrap().region, "eu-west-1");
    assert_eq!(c.get_clients_for_region("ap-south-1").unwrap().region, "ap-south-1");
    let rc = RegionClients { region: "x".to_string() };
    assert!(S3Service::new(&rc).create_bucket("b").is_ok());
    assert!(RdsService::new(&rc).list_instances().unwrap().is_empty());
}

fn section(name: &str, entries: &[(&str, &str)]) -> nimbus_ctl::profiles::IniSection {
    nimbus_ctl::profiles::IniSection {
        name: name.to_string(),
        entries: entries.iter().map(|(k, v)| (k.to_string(), Some(v.to_string()))).collect(),
    }
}

#[test]
fn profiles_from_credential_files() {
    let credentials = vec![
        section("default", &[("aws_access_key_id", "AK1"), ("aws_secret_access_key", "S1")]),
        section("partial", &[("aws_access_key_id", "AK2")]),
        section("dev", &[("aws_access_key_id", "AK3"), ("aws_secret_access_key", "S3"), ("region", "eu-west-1")]),
    ];
    let config = vec![
        section("default", &[("region", "us-east-1")]),
        section("profile dev", &[("role_arn", "arn:aws:iam::1:role/r")]),
        section("profile ops", &[("source_profile", "default")]),
        section("sso-session x", &[("region", "x")]),
    ];
    let mut m = ProfileManager::new();
    m.load_all_profiles(&credentials, &config);
    let names: Vec<String> = m.get_profiles().iter().map(|p| p.name.clone()).collect();
    assert_eq!(names, vec!["default", "dev", "ops"]);
    let d = m.get_default_profile().unwrap();
    assert_eq!(d.access_key_id.as_deref(), Some("AK1"));
    assert_eq!(d.region.as_deref(), Some("us-east-1"));
    let dev = m.get_profile("dev").unwrap();
    assert_eq!(dev.region.as_deref(), Some("eu-west-1"));
    assert_eq!(dev.role_arn.as_deref(), Some("arn:aws:iam::1:role/r"));
    assert_eq!(m.get_profile("ops").unwrap().source_profile.as_deref(), Some("default"));
    assert!(m.profile_exists("ops"));
    assert!(!m.profile_exists("partial"));
    assert!(m.get_profile("x").is_none());
}

#[test]
fn decimal_notation() {
    let mut s = String::from("n=");
    nimbus_ctl::text::push_decimal(&mut s, 0);
    assert_eq!(s, "n=0");
    let mut t = String::new();
    nimbus_ctl::text::push_decimal(&mut t, 1907);
    assert_eq!(t, "1907");
}

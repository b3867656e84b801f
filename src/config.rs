use vstd::prelude::*;
use crate::commands::strings_view;
use crate::page::{AppPage, PageView};

verus! {

/// Account defaults and request limits.
#[derive(Debug)]
pub struct AwsConfig {
    pub default_profile: String,
    pub default_region: String,
    pub auto_refresh_interval: u64,
    pub max_concurrent_requests: usize,
}

/// Display preferences.
#[derive(Debug)]
pub struct DisplayConfig {
    pub theme: String,
    pub show_help_bar: bool,
    pub show_status_bar: bool,
    pub use_unicode_symbols: bool,
    pub max_table_rows: usize,
}

/// Behaviour preferences.
#[derive(Debug, Clone, Copy, PartialEq, Eq, Structural)]
pub struct BehaviorConfig {
    pub auto_refresh_resources: bool,
    pub confirm_destructive_actions: bool,
    pub remember_last_page: bool,
    pub save_favorites: bool,
}

/// Dashboard layout preferences; widget positions are kept in insertion order.
#[derive(Debug)]
pub struct DashboardConfig {
    pub default_page: AppPage,
    pub enabled_widgets: Vec<String>,
    pub widget_positions: Vec<(String, (u16, u16))>,
    pub auto_refresh_dashboard: bool,
    pub dashboard_refresh_interval: u64,
    pub max_recent_items: usize,
    pub max_favorite_items: usize,
}

/// The persisted user configuration.
#[derive(Debug)]
pub struct UserConfig {
    pub aws: AwsConfig,
    pub display: DisplayConfig,
    pub behavior: BehaviorConfig,
    pub dashboard: DashboardConfig,
}

/// Names of the dashboard widgets enabled by default, in order.
pub open spec fn default_widgets() -> Seq<Seq<char>> {
    seq!["favorites"@, "recent"@, "quick_actions"@, "region_overview"@, "service_status"@]
}

pub open spec fn is_default_aws(c: &AwsConfig) -> bool {
    &&& c.default_profile@ == "default"@
    &&& c.default_region@ == "us-east-1"@
    &&& c.auto_refresh_interval == 300
    &&& c.max_concurrent_requests == 10
}

pub open spec fn is_default_display(c: &DisplayConfig) -> bool {
    &&& c.theme@ == "default"@
    &&& c.show_help_bar
    &&& c.show_status_bar
    &&& c.use_unicode_symbols
    &&& c.max_table_rows == 50
}

pub open spec fn is_default_behavior(c: &BehaviorConfig) -> bool {
    &&& c.auto_refresh_resources
    &&& c.confirm_destructive_actions
    &&& c.remember_last_page
    &&& c.save_favorites
}

pub open spec fn is_default_dashboard(c: &DashboardConfig) -> bool {
    &&& c.default_page@ == PageView::Dashboard
    &&& strings_view(c.enabled_widgets@) == default_widgets()
    &&& c.widget_positions@.len() == 0
    &&& c.auto_refresh_dashboard
    &&& c.dashboard_refresh_interval == 60
    &&& c.max_recent_items == 10
    &&& c.max_favorite_items == 10
}

/// Every field of the configuration holds its default.
pub open spec fn is_default_config(c: &UserConfig) -> bool {
    &&& is_default_aws(&c.aws)
    &&& is_default_display(&c.display)
    &&& is_default_behavior(&c.behavior)
    &&& is_default_dashboard(&c.dashboard)
}

impl Default for AwsConfig {
    fn default() -> (r: Self)
        ensures
            is_default_aws(&r),
    {
        AwsConfig {
            default_profile: "default".to_string(),
            default_region: "us-east-1".to_string(),
            auto_refresh_interval: 300,
            max_concurrent_requests: 10,
        }
    }
}

impl Default for DisplayConfig {
    fn default() -> (r: Self)
        ensures
            is_default_display(&r),
    {
        DisplayConfig {
            theme: "default".to_string(),
            show_help_bar: true,
            show_status_bar: true,
            use_unicode_symbols: true,
            max_table_rows: 50,
        }
    }
}

impl Default for BehaviorConfig {
    fn default() -> (r: Self)
        ensures
            is_default_behavior(&r),
    {
        BehaviorConfig {
            auto_refresh_resources: true,
            confirm_destructive_actions: true,
            remember_last_page: true,
            save_favorites: true,
        }
    }
}

impl Default for DashboardConfig {
    fn default() -> (r: Self)
        ensures
            is_default_dashboard(&r),
    {
        let r = DashboardConfig {
            default_page: AppPage::Dashboard,
            enabled_widgets: vec![
                "favorites".to_string(),
                "recent".to_string(),
                "quick_actions".to_string(),
                "region_overview".to_string(),
                "service_status".to_string(),
            ],
            widget_positions: Vec::new(),
            auto_refresh_dashboard: true,
            dashboard_refresh_interval: 60,
            max_recent_items: 10,
            max_favorite_items: 10,
        };
        assert(strings_view(r.enabled_widgets@) =~= default_widgets());
        r
    }
}

impl Default for UserConfig {
    fn default() -> (r: Self)
        ensures
            is_default_config(&r),
    {
        UserConfig {
            aws: AwsConfig::default(),
            display: DisplayConfig::default(),
            behavior: BehaviorConfig::default(),
            dashboard: DashboardConfig::default(),
        }
    }
}

/// The configuration with every field at its default.
pub fn get_default_config() -> (r: UserConfig)
    ensures
        is_default_config(&r),
{
    UserConfig::default()
}

/// Names of the dashboard widgets enabled by default.
pub fn get_default_dashboard_widgets() -> (r: Vec<&'static str>)
    ensures
        r@.map_values(|s: &str| s@) == default_widgets(),
{
    let r = vec!["favorites", "recent", "quick_actions", "region_overview", "service_status"];
    assert(r@.map_values(|s: &str| s@) =~= default_widgets());
    r
}

/// Key bindings shown in the help panel: key, then what it does.
pub fn get_default_keybindings() -> (r: Vec<(&'static str, &'static str)>)
    ensures
        r@.len() == 18,
        r@[0].0@ == "q"@ && r@[0].1@ == "Quit"@,
        r@[8].0@ == "Esc"@ && r@[8].1@ == "Back"@,
{
    vec![
        ("q", "Quit"),
        ("?", "Help"),
        ("Ctrl+p", "Quick navigation"),
        ("h", "Home/Dashboard"),
        ("Ctrl+r", "Region selector"),
        ("F2", "Settings"),
        ("Tab", "Navigate widgets"),
        ("Enter", "Select"),
        ("Esc", "Back"),
        ("↑↓", "Navigate"),
        ("←→", "Navigate"),
        ("1-9", "Quick actions"),
        ("Space", "Toggle favorite"),
        ("/", "Search"),
        ("c", "Create"),
        ("e", "Edit"),
        ("d", "Delete"),
        ("r", "Refresh"),
    ]
}

/// Quick actions of the dashboard: label, then action key.
pub fn get_default_quick_actions() -> (r: Vec<(&'static str, &'static str)>)
    ensures
        r@.len() == 5,
        r@[0].1@ == "ec2_launch"@,
        r@[1].1@ == "s3_create"@,
        r@[2].1@ == "rds_create"@,
        r@[3].1@ == "iam_create"@,
        r@[4].1@ == "secrets_create"@,
{
    vec![
        ("Launch EC2 Instance", "ec2_launch"),
        ("Create S3 Bucket", "s3_create"),
        ("Create RDS Database", "rds_create"),
        ("Create IAM User", "iam_create"),
        ("Create Secret", "secrets_create"),
    ]
}

/// The configuration together with where it is stored.
#[derive(Debug)]
pub struct AppConfig {
    pub user_config: UserConfig,
    pub config_path: String,
}

impl AppConfig {
    /// A configuration loaded from `config_path`.
    pub fn new(user_config: UserConfig, config_path: String) -> (r: Self)
        ensures
            r.user_config == user_config,
            r.config_path == config_path,
    {
        AppConfig { user_config, config_path }
    }

    /// Puts every field back to its default; the path stays.
    pub fn reset_to_defaults(&mut self)
        ensures
            is_default_config(&final(self).user_config),
            final(self).config_path == old(self).config_path,
    {
        self.user_config = UserConfig::default();
    }
}

/// Holds the configuration and applies the settings page's edits to it. Each
/// edit is followed by a save, which the caller performs.
#[derive(Debug)]
pub struct SettingsManager {
    pub config: UserConfig,
}

impl SettingsManager {
    pub fn new(config: UserConfig) -> (r: Self)
        ensures
            r.config == config,
    {
        SettingsManager { config }
    }

    pub fn get_config(&self) -> (r: &UserConfig)
        ensures
            r == &self.config,
    {
        &self.config
    }

    pub fn get_config_mut(&mut self) -> (r: &mut UserConfig)
        ensures
            *r == old(self).config,
            final(self).config == *final(r),
    {
        &mut self.config
    }

    pub fn reset_to_defaults(&mut self)
        ensures
            is_default_config(&final(self).config),
    {
        self.config = UserConfig::default();
    }

    pub fn update_aws_profile(&mut self, profile: String)
        ensures
            final(self).config.aws.default_profile == profile,
            final(self).config.aws.default_region == old(self).config.aws.default_region,
            final(self).config.display == old(self).config.display,
            final(self).config.behavior == old(self).config.behavior,
            final(self).config.dashboard == old(self).config.dashboard,
    {
        self.config.aws.default_profile = profile;
    }

    pub fn update_aws_region(&mut self, region: String)
        ensures
            final(self).config.aws.default_region == region,
            final(self).config.aws.default_profile == old(self).config.aws.default_profile,
            final(self).config.display == old(self).config.display,
            final(self).config.behavior == old(self).config.behavior,
            final(self).config.dashboard == old(self).config.dashboard,
    {
        self.config.aws.default_region = region;
    }

    pub fn update_theme(&mut self, theme: String)
        ensures
            final(self).config.display.theme == theme,
            final(self).config.aws == old(self).config.aws,
            final(self).config.behavior == old(self).config.behavior,
            final(self).config.dashboard == old(self).config.dashboard,
    {
        self.config.display.theme = theme;
    }

    pub fn toggle_help_bar(&mut self)
        ensures
            final(self).config.display.show_help_bar == !old(self).config.display.show_help_bar,
            final(self).config == (UserConfig {
                display: DisplayConfig {
                    show_help_bar: !old(self).config.display.show_help_bar,
                    ..old(self).config.display
                },
                ..old(self).config
            }),
    {
        self.config.display.show_help_bar = !self.config.display.show_help_bar;
    }

    pub fn toggle_status_bar(&mut self)
        ensures
            final(self).config == (UserConfig {
                display: DisplayConfig {
                    show_status_bar: !old(self).config.display.show_status_bar,
                    ..old(self).config.display
                },
                ..old(self).config
            }),
    {
        self.config.display.show_status_bar = !self.config.display.show_status_bar;
    }

    pub fn toggle_unicode_symbols(&mut self)
        ensures
            final(self).config == (UserConfig {
                display: DisplayConfig {
                    use_unicode_symbols: !old(self).config.display.use_unicode_symbols,
                    ..old(self).config.display
                },
                ..old(self).config
            }),
    {
        self.config.display.use_unicode_symbols = !self.config.display.use_unicode_symbols;
    }

    pub fn toggle_auto_refresh(&mut self)
        ensures
            final(self).config == (UserConfig {
                behavior: BehaviorConfig {
                    auto_refresh_resources: !old(self).config.behavior.auto_refresh_resources,
                    ..old(self).config.behavior
                },
                ..old(self).config
            }),
    {
        self.config.behavior.auto_refresh_resources = !self.config.behavior.auto_refresh_resources;
    }

    pub fn toggle_confirm_actions(&mut self)
        ensures
            final(self).config == (UserConfig {
                behavior: BehaviorConfig {
                    confirm_destructive_actions: !old(
                        self,
                    ).config.behavior.confirm_destructive_actions,
                    ..old(self).config.behavior
                },
                ..old(self).config
            }),
    {
        self.config.behavior.confirm_destructive_actions =
        !self.config.behavior.confirm_destructive_actions;
    }

    pub fn set_refresh_interval(&mut self, interval: u64)
        ensures
            final(self).config == (UserConfig {
                aws: AwsConfig { auto_refresh_interval: interval, ..old(self).config.aws },
                ..old(self).config
            }),
    {
        self.config.aws.auto_refresh_interval = interval;
    }

    pub fn set_dashboard_refresh_interval(&mut self, interval: u64)
        ensures
            final(self).config == (UserConfig {
                dashboard: DashboardConfig {
                    dashboard_refresh_interval: interval,
                    ..old(self).config.dashboard
                },
                ..old(self).config
            }),
    {
        self.config.dashboard.dashboard_refresh_interval = interval;
    }

    pub fn set_max_recent_items(&mut self, max: usize)
        ensures
            final(self).config == (UserConfig {
                dashboard: DashboardConfig { max_recent_items: max, ..old(self).config.dashboard },
                ..old(self).config
            }),
    {
        self.config.dashboard.max_recent_items = max;
    }

    pub fn set_max_favorite_items(&mut self, max: usize)
        ensures
            final(self).config == (UserConfig {
                dashboard: DashboardConfig {
                    max_favorite_items: max,
                    ..old(self).config.dashboard
                },
                ..old(self).config
            }),
    {
        self.config.dashboard.max_favorite_items = max;
    }
}

} // verus!

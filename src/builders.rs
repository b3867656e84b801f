use vstd::prelude::*;
use vstd::string::*;
use crate::commands::{
    ActionView, Command, CommandAction, CommandCategory, CommandView, ContextRequirement,
    RequirementView, UIElement, commands_view,
};
use crate::context::{CommandContext, ContextView, RegionView};
use crate::page::{AppPage, PageView};
use crate::service::{ServiceType, all_services, service_display_name, service_icon, service_key};

verus! {

/// `c` is the command that navigates to `page` from any other page.
pub open spec fn is_page_nav(c: CommandView, id: Seq<char>, name: Seq<char>, page: PageView) -> bool {
    &&& c.id == id
    &&& c.name == name
    &&& c.category == CommandCategory::Navigation
    &&& c.action == ActionView::NavigateToPage(page)
    &&& c.enabled
    &&& c.requirements == seq![RequirementView::NotOnPage(page)]
}

/// `c` is the unconditional command that navigates to service `s`.
pub open spec fn is_service_nav(c: CommandView, s: ServiceType) -> bool {
    &&& c.id == "nav.service."@ + service_key(s)
    &&& c.name == "Go to "@ + service_display_name(s)
    &&& c.description == "Navigate to "@ + service_display_name(s) + " service"@
    &&& c.category == CommandCategory::Navigation
    &&& c.action == ActionView::NavigateToService(s)
    &&& c.icon == service_icon(s)
    &&& c.enabled
    &&& c.requirements.len() == 0
}

/// The navigation part of the catalog: dashboard, settings, then one command per service.
pub open spec fn is_navigation_catalog(cs: Seq<CommandView>) -> bool {
    &&& cs.len() == 8
    &&& is_page_nav(cs[0], "nav.dashboard"@, "Go to Dashboard"@, PageView::Dashboard)
    &&& is_page_nav(cs[1], "nav.settings"@, "Go to Settings"@, PageView::Settings)
    &&& forall|j: int| 2 <= j < 8 ==> is_service_nav(#[trigger] cs[j], all_services()[j - 2])
}

/// Search keywords for a service; the first is the service's key.
pub fn get_service_keywords(service_type: ServiceType) -> (r: Vec<String>)
    ensures
        r@.len() > 0,
        r@[0]@ == service_key(service_type),
{
    match service_type {
        ServiceType::EC2 => vec![
            "ec2".to_string(),
            "compute".to_string(),
            "instances".to_string(),
            "virtual".to_string(),
            "servers".to_string(),
        ],
        ServiceType::S3 => vec![
            "s3".to_string(),
            "storage".to_string(),
            "bucket".to_string(),
            "object".to_string(),
            "files".to_string(),
        ],
        ServiceType::RDS => vec![
            "rds".to_string(),
            "database".to_string(),
            "mysql".to_string(),
            "postgres".to_string(),
            "db".to_string(),
        ],
        ServiceType::IAM => vec![
            "iam".to_string(),
            "identity".to_string(),
            "access".to_string(),
            "users".to_string(),
            "roles".to_string(),
            "permissions".to_string(),
        ],
        ServiceType::Secrets => vec![
            "secrets".to_string(),
            "secret".to_string(),
            "password".to_string(),
            "keys".to_string(),
            "credentials".to_string(),
        ],
        ServiceType::EKS => vec![
            "eks".to_string(),
            "kubernetes".to_string(),
            "k8s".to_string(),
            "cluster".to_string(),
            "containers".to_string(),
        ],
    }
}

fn service_nav(s: ServiceType) -> (r: Command)
    ensures
        is_service_nav(r@, s),
{
    let mut id = String::from_str("nav.service.");
    id.append(s.key());
    let mut name = String::from_str("Go to ");
    name.append(s.display_name());
    let mut description = String::from_str("Navigate to ");
    description.append(s.display_name());
    description.append(" service");
    Command {
        id,
        name,
        description,
        category: CommandCategory::Navigation,
        action: CommandAction::NavigateToService(s),
        icon: s.icon().to_string(),
        keywords: get_service_keywords(s),
        enabled: true,
        context_requirements: Vec::new(),
    }
}

/// Navigation commands: dashboard and settings (each hidden on its own page),
/// then one command per service.
pub fn create_navigation_commands() -> (r: Vec<Command>)
    ensures
        is_navigation_catalog(commands_view(r@)),
{
    let mut r: Vec<Command> = Vec::new();
    r.push(
        Command {
            id: "nav.dashboard".to_string(),
            name: "Go to Dashboard".to_string(),
            description: "Navigate to the main dashboard".to_string(),
            category: CommandCategory::Navigation,
            action: CommandAction::NavigateToPage(AppPage::Dashboard),
            icon: "🏠".to_string(),
            keywords: vec!["dashboard".to_string(), "home".to_string(), "main".to_string()],
            enabled: true,
            context_requirements: vec![ContextRequirement::NotOnPage(AppPage::Dashboard)],
        },
    );
    assert(r@.last()@.requirements =~= seq![RequirementView::NotOnPage(PageView::Dashboard)]);
    r.push(
        Command {
            id: "nav.settings".to_string(),
            name: "Go to Settings".to_string(),
            description: "Navigate to application settings".to_string(),
            category: CommandCategory::Navigation,
            action: CommandAction::NavigateToPage(AppPage::Settings),
            icon: "⚙️".to_string(),
            keywords: vec![
                "settings".to_string(),
                "config".to_string(),
                "preferences".to_string(),
            ],
            enabled: true,
            context_requirements: vec![ContextRequirement::NotOnPage(AppPage::Settings)],
        },
    );
    assert(r@.last()@.requirements =~= seq![RequirementView::NotOnPage(PageView::Settings)]);
    let services = ServiceType::all();
    let mut k: usize = 0;
    while k < services.len()
        invariant
            services@ == all_services(),
            k <= 6,
            r@.len() == 2 + k,
            is_page_nav(r@[0]@, "nav.dashboard"@, "Go to Dashboard"@, PageView::Dashboard),
            is_page_nav(r@[1]@, "nav.settings"@, "Go to Settings"@, PageView::Settings),
            forall|j: int| 2 <= j < 2 + k ==> is_service_nav(#[trigger] r@[j]@, all_services()[j - 2]),
        decreases 6 - k,
    {
        r.push(service_nav(services[k]));
        k = k + 1;
    }
    assert forall|j: int| 2 <= j < 8 implies is_service_nav(
        #[trigger] commands_view(r@)[j],
        all_services()[j - 2],
    ) by {
        assert(commands_view(r@)[j] == r@[j]@);
    }
    r
}

/// The names that are switch targets: all but the current one, in order.
pub open spec fn other_names(names: Seq<Seq<char>>, current: Seq<char>) -> Seq<Seq<char>> {
    names.filter(name_differs(current))
}

/// Predicate: a name differs from `current`.
pub open spec fn name_differs(current: Seq<char>) -> spec_fn(Seq<char>) -> bool {
    |n: Seq<char>| n != current
}

/// Predicate: a region's code name differs from `current`.
pub open spec fn region_differs(current: Seq<char>) -> spec_fn(RegionView) -> bool {
    |r: RegionView| r.name != current
}

/// The regions that are switch targets: all but the current one, in order.
pub open spec fn other_regions(regions: Seq<RegionView>, current: Seq<char>) -> Seq<RegionView> {
    regions.filter(region_differs(current))
}

/// `c` opens the selector `e`, which needs `req`.
pub open spec fn is_selector(
    c: CommandView,
    id: Seq<char>,
    category: CommandCategory,
    e: UIElement,
    req: RequirementView,
) -> bool {
    &&& c.id == id
    &&& c.category == category
    &&& c.action == ActionView::ToggleUI(e)
    &&& c.enabled
    &&& c.requirements == seq![req]
}

/// `c` switches to the profile `name`.
pub open spec fn is_profile_switch(c: CommandView, name: Seq<char>) -> bool {
    &&& c.id == "profile.switch."@ + name
    &&& c.name == "Switch to Profile: "@ + name
    &&& c.category == CommandCategory::Profile
    &&& c.action == ActionView::SwitchProfile(name)
    &&& c.enabled
    &&& c.requirements == seq![RequirementView::ProfilesAvailable]
}

/// `c` switches to the region `reg`.
pub open spec fn is_region_switch(c: CommandView, reg: RegionView) -> bool {
    &&& c.id == "region.switch."@ + reg.name
    &&& c.name == "Switch to Region: "@ + reg.display_name
    &&& c.category == CommandCategory::Region
    &&& c.action == ActionView::SwitchRegion(reg.name)
    &&& c.enabled
    &&& c.requirements == seq![RequirementView::RegionsAvailable]
}

/// The profile part of the catalog: the selector, then one switch command per
/// profile other than the current one.
pub open spec fn is_profile_catalog(cs: Seq<CommandView>, ctx: ContextView) -> bool {
    let others = other_names(ctx.profiles, ctx.profile);
    &&& cs.len() == others.len() + 1
    &&& is_selector(
        cs[0],
        "profile.selector"@,
        CommandCategory::Profile,
        UIElement::ProfileSelector,
        RequirementView::ProfilesAvailable,
    )
    &&& forall|j: int| 1 <= j < cs.len() ==> is_profile_switch(#[trigger] cs[j], others[j - 1])
}

/// The region part of the catalog: the selector, then one switch command per
/// region other than the current one.
pub open spec fn is_region_catalog(cs: Seq<CommandView>, ctx: ContextView) -> bool {
    let others = other_regions(ctx.regions, ctx.region);
    &&& cs.len() == others.len() + 1
    &&& is_selector(
        cs[0],
        "region.selector"@,
        CommandCategory::Region,
        UIElement::RegionSelector,
        RequirementView::RegionsAvailable,
    )
    &&& forall|j: int| 1 <= j < cs.len() ==> is_region_switch(#[trigger] cs[j], others[j - 1])
}

fn profile_switch(name: &String) -> (r: Command)
    ensures
        is_profile_switch(r@, name@),
{
    let mut id = String::from_str("profile.switch.");
    id.append(name.as_str());
    let mut title = String::from_str("Switch to Profile: ");
    title.append(name.as_str());
    let mut description = String::from_str("Switch to AWS profile '");
    description.append(name.as_str());
    description.append("'");
    let r = Command {
        id,
        name: title,
        description,
        category: CommandCategory::Profile,
        action: CommandAction::SwitchProfile(name.clone()),
        icon: "👤".to_string(),
        keywords: vec![
            "profile".to_string(),
            "switch".to_string(),
            name.clone(),
            "aws".to_string(),
            "account".to_string(),
        ],
        enabled: true,
        context_requirements: vec![ContextRequirement::ProfilesAvailable],
    };
    assert(r@.requirements =~= seq![RequirementView::ProfilesAvailable]);
    r
}

fn region_switch(name: &String, display_name: &String) -> (r: Command)
    ensures
        is_region_switch(r@, RegionView { name: name@, display_name: display_name@ }),
{
    let mut id = String::from_str("region.switch.");
    id.append(name.as_str());
    let mut title = String::from_str("Switch to Region: ");
    title.append(display_name.as_str());
    let mut description = String::from_str("Switch to AWS region '");
    description.append(display_name.as_str());
    description.append("' (");
    description.append(name.as_str());
    description.append(")");
    let r = Command {
        id,
        name: title,
        description,
        category: CommandCategory::Region,
        action: CommandAction::SwitchRegion(name.clone()),
        icon: "🌍".to_string(),
        keywords: vec![
            "region".to_string(),
            "switch".to_string(),
            name.clone(),
            display_name.clone(),
            "aws".to_string(),
            "location".to_string(),
        ],
        enabled: true,
        context_requirements: vec![ContextRequirement::RegionsAvailable],
    };
    assert(r@.requirements =~= seq![RequirementView::RegionsAvailable]);
    r
}

/// The profile selector, then a switch command for every available profile
/// except the current one.
pub fn create_profile_commands_for_context(context: &CommandContext) -> (r: Vec<Command>)
    ensures
        is_profile_catalog(commands_view(r@), context@),
        forall|j: int|
            0 <= j < r@.len() ==> (#[trigger] r@[j])@.action != ActionView::SwitchProfile(
                context@.profile,
            ),
{
    let ghost names = context@.profiles;
    let ghost cur = context@.profile;
    let ghost p = name_differs(cur);
    let mut r: Vec<Command> = Vec::new();
    r.push(
        Command {
            id: "profile.selector".to_string(),
            name: "Show Profile Selector".to_string(),
            description: "Open profile selector UI".to_string(),
            category: CommandCategory::Profile,
            action: CommandAction::ToggleUI(UIElement::ProfileSelector),
            icon: "👤".to_string(),
            keywords: vec![
                "profile".to_string(),
                "selector".to_string(),
                "choose".to_string(),
                "aws".to_string(),
            ],
            enabled: true,
            context_requirements: vec![ContextRequirement::ProfilesAvailable],
        },
    );
    assert(r@[0]@.requirements =~= seq![RequirementView::ProfilesAvailable]);
    let mut i: usize = 0;
    while i < context.available_profiles.len()
        invariant
            names == context@.profiles,
            cur == context@.profile,
            p == name_differs(cur),
            i <= names.len(),
            r@.len() == names.take(i as int).filter(p).len() + 1,
            is_selector(
                r@[0]@,
                "profile.selector"@,
                CommandCategory::Profile,
                UIElement::ProfileSelector,
                RequirementView::ProfilesAvailable,
            ),
            forall|j: int|
                1 <= j < r@.len() ==> is_profile_switch(
                    #[trigger] r@[j]@,
                    names.take(i as int).filter(p)[j - 1],
                ),
        decreases names.len() - i,
    {
        let profile = &context.available_profiles[i];
        assert(names.take(i + 1) == names.take(i as int).push(names[i as int]));
        proof {
            names.take(i as int).lemma_filter_push(names[i as int], p);
        }
        if !str_eq_string(&profile.name, &context.current_profile) {
            r.push(profile_switch(&profile.name));
        }
        i = i + 1;
    }
    assert(names.take(names.len() as int) == names);
    assert(other_names(context@.profiles, context@.profile) == names.filter(p));
    assert forall|j: int| 1 <= j < commands_view(r@).len() implies is_profile_switch(
        #[trigger] commands_view(r@)[j],
        other_names(context@.profiles, context@.profile)[j - 1],
    ) by {
        assert(commands_view(r@)[j] == r@[j]@);
    }
    assert forall|j: int|
        0 <= j < r@.len() implies (#[trigger] r@[j])@.action != ActionView::SwitchProfile(
        context@.profile,
    ) by {
        if j >= 1 {
            names.lemma_filter_pred(p, j - 1);
            assert(other_names(names, cur) == names.filter(p));
        }
    }
    r
}

/// The region selector, then a switch command for every available region
/// except the current one.
pub fn create_region_commands_for_context(context: &CommandContext) -> (r: Vec<Command>)
    ensures
        is_region_catalog(commands_view(r@), context@),
        forall|j: int|
            0 <= j < r@.len() ==> (#[trigger] r@[j])@.action != ActionView::SwitchRegion(
                context@.region,
            ),
{
    let ghost regs = context@.regions;
    let ghost cur = context@.region;
    let ghost p = region_differs(cur);
    let mut r: Vec<Command> = Vec::new();
    r.push(
        Command {
            id: "region.selector".to_string(),
            name: "Show Region Selector".to_string(),
            description: "Open region selector UI".to_string(),
            category: CommandCategory::Region,
            action: CommandAction::ToggleUI(UIElement::RegionSelector),
            icon: "🌍".to_string(),
            keywords: vec![
                "region".to_string(),
                "selector".to_string(),
                "choose".to_string(),
                "aws".to_string(),
            ],
            enabled: true,
            context_requirements: vec![ContextRequirement::RegionsAvailable],
        },
    );
    assert(r@[0]@.requirements =~= seq![RequirementView::RegionsAvailable]);
    let mut i: usize = 0;
    while i < context.available_regions.len()
        invariant
            regs == context@.regions,
            cur == context@.region,
            p == region_differs(cur),
            i <= regs.len(),
            r@.len() == regs.take(i as int).filter(p).len() + 1,
            is_selector(
                r@[0]@,
                "region.selector"@,
                CommandCategory::Region,
                UIElement::RegionSelector,
                RequirementView::RegionsAvailable,
            ),
            forall|j: int|
                1 <= j < r@.len() ==> is_region_switch(
                    #[trigger] r@[j]@,
                    regs.take(i as int).filter(p)[j - 1],
                ),
        decreases regs.len() - i,
    {
        let region = &context.available_regions[i];
        assert(regs.take(i + 1) == regs.take(i as int).push(regs[i as int]));
        proof {
            regs.take(i as int).lemma_filter_push(regs[i as int], p);
        }
        if !str_eq_string(&region.name, &context.current_region) {
            r.push(region_switch(&region.name, &region.display_name));
        }
        i = i + 1;
    }
    assert(regs.take(regs.len() as int) == regs);
    assert(other_regions(context@.regions, context@.region) == regs.filter(p));
    assert forall|j: int| 1 <= j < commands_view(r@).len() implies is_region_switch(
        #[trigger] commands_view(r@)[j],
        other_regions(context@.regions, context@.region)[j - 1],
    ) by {
        assert(commands_view(r@)[j] == r@[j]@);
    }
    assert forall|j: int|
        0 <= j < r@.len() implies (#[trigger] r@[j])@.action != ActionView::SwitchRegion(
        context@.region,
    ) by {
        if j >= 1 {
            regs.lemma_filter_pred(p, j - 1);
            assert(other_regions(regs, cur) == regs.filter(p));
        }
    }
    r
}

/// Whether two strings hold the same characters.
pub fn str_eq_string(a: &String, b: &String) -> (r: bool)
    ensures
        r == (a@ == b@),
{
    *a == *b
}

/// The single profile command of the catalog without a context: it opens the selector.
pub fn create_profile_commands() -> (r: Vec<Command>)
    ensures
        r@.len() == 1,
        is_selector(
            r@[0]@,
            "profile.switch"@,
            CommandCategory::Profile,
            UIElement::ProfileSelector,
            RequirementView::ProfilesAvailable,
        ),
{
    let r = vec![
        Command {
            id: "profile.switch".to_string(),
            name: "Switch Profile".to_string(),
            description: "Switch to a different AWS profile".to_string(),
            category: CommandCategory::Profile,
            action: CommandAction::ToggleUI(UIElement::ProfileSelector),
            icon: "👤".to_string(),
            keywords: vec![
                "profile".to_string(),
                "switch".to_string(),
                "account".to_string(),
                "aws".to_string(),
            ],
            enabled: true,
            context_requirements: vec![ContextRequirement::ProfilesAvailable],
        },
    ];
    assert(r@[0]@.requirements =~= seq![RequirementView::ProfilesAvailable]);
    r
}

/// The single region command of the catalog without a context: it opens the selector.
pub fn create_region_commands() -> (r: Vec<Command>)
    ensures
        r@.len() == 1,
        is_selector(
            r@[0]@,
            "region.switch"@,
            CommandCategory::Region,
            UIElement::RegionSelector,
            RequirementView::RegionsAvailable,
        ),
{
    let r = vec![
        Command {
            id: "region.switch".to_string(),
            name: "Switch Region".to_string(),
            description: "Switch to a different AWS region".to_string(),
            category: CommandCategory::Region,
            action: CommandAction::ToggleUI(UIElement::RegionSelector),
            icon: "🌍".to_string(),
            keywords: vec![
                "region".to_string(),
                "switch".to_string(),
                "location".to_string(),
                "aws".to_string(),
            ],
            enabled: true,
            context_requirements: vec![ContextRequirement::RegionsAvailable],
        },
    ];
    assert(r@[0]@.requirements =~= seq![RequirementView::RegionsAvailable]);
    r
}

/// The general part of the catalog: help and settings, always available.
pub open spec fn is_general_catalog(cs: Seq<CommandView>) -> bool {
    &&& cs.len() == 2
    &&& cs[0].id == "general.help"@
    &&& cs[0].category == CommandCategory::General
    &&& cs[0].action == ActionView::ShowHelp
    &&& cs[0].enabled
    &&& cs[0].requirements.len() == 0
    &&& cs[1].id == "general.settings"@
    &&& cs[1].category == CommandCategory::General
    &&& cs[1].action == ActionView::OpenSettings
    &&& cs[1].enabled
    &&& cs[1].requirements.len() == 0
}

/// Help and settings commands.
pub fn create_general_commands() -> (r: Vec<Command>)
    ensures
        is_general_catalog(commands_view(r@)),
{
    vec![
        Command {
            id: "general.help".to_string(),
            name: "Show Help".to_string(),
            description: "Display help information".to_string(),
            category: CommandCategory::General,
            action: CommandAction::ShowHelp,
            icon: "❓".to_string(),
            keywords: vec![
                "help".to_string(),
                "info".to_string(),
                "about".to_string(),
                "support".to_string(),
            ],
            enabled: true,
            context_requirements: Vec::new(),
        },
        Command {
            id: "general.settings".to_string(),
            name: "Open Settings".to_string(),
            description: "Open application settings".to_string(),
            category: CommandCategory::General,
            action: CommandAction::OpenSettings,
            icon: "⚙️".to_string(),
            keywords: vec![
                "settings".to_string(),
                "config".to_string(),
                "preferences".to_string(),
                "options".to_string(),
            ],
            enabled: true,
            context_requirements: Vec::new(),
        },
    ]
}

} // verus!

use vstd::prelude::*;
use vstd::string::*;
use crate::commands::{ActionView, CommandAction, CommandView, ServiceCommand, UIElement, commands_view, command_display_name, command_requires_resource};
use crate::context::{CommandContext, ContextView, clone_profiles, clone_regions, profile_names, region_names, regions_view};
use crate::page::{AppPage, PageView, page_service};
use crate::palette::CommandPalette;
use crate::quick_nav::{create_navigation_items, items_view, nav_items, quick_nav_suggestions, suggestions_for};
use crate::text::{decimal, pop_char, push_char, push_decimal};
use crate::registry::{CommandRegistry, is_catalog, resolved};
use crate::service::{AwsProfile, AwsRegion, ResourceId, ServiceType, clone_opt, opt_view};

verus! {

/// Severity of a notification.
#[derive(Debug, Clone, Copy, PartialEq, Eq, Structural)]
pub enum NotificationLevel {
    Info,
    Warning,
    Error,
    Success,
}

/// A message shown to the user.
#[derive(Debug)]
pub struct Notification {
    pub message: String,
    pub level: NotificationLevel,
}

/// Target of a quick-navigation entry.
#[derive(Debug)]
pub enum NavigationAction {
    NavigateToService(ServiceType),
    NavigateToResource(ServiceType, ResourceId),
}

/// An entry of the quick-navigation overlay.
#[derive(Debug)]
pub struct NavigationItem {
    pub name: String,
    pub description: String,
    pub action: NavigationAction,
    pub icon: String,
    pub keywords: Vec<String>,
}

/// A profile or region switch that the resource provider must confirm before it
/// takes effect.
#[derive(Debug, PartialEq, Eq)]
pub enum SwitchRequest {
    Profile(String),
    Region(String),
}

/// Keys that the open command palette reacts to.
#[derive(Debug, Clone, Copy, PartialEq, Eq, Structural)]
pub enum PaletteKey {
    Escape,
    Enter,
    Up,
    Down,
    Char(char),
    Backspace,
}

/// Navigation, selection, environment and overlay state of the application.
#[derive(Debug)]
pub struct AppState {
    pub current_page: AppPage,
    pub page_history: Vec<AppPage>,
    pub current_profile: String,
    pub current_region: String,
    pub available_profiles: Vec<AwsProfile>,
    pub available_regions: Vec<AwsRegion>,
    pub selected_resource: Option<ResourceId>,
    pub selected_service: Option<ServiceType>,
    pub selected_resource_index: usize,
    pub help_visible: bool,
    pub settings_visible: bool,
    pub profile_selector_visible: bool,
    pub region_selector_visible: bool,
    pub quick_nav_visible: bool,
    pub quick_nav_input: String,
    pub quick_nav_suggestions: Vec<NavigationItem>,
    pub quick_nav_selected_index: usize,
    pub command_palette: CommandPalette,
    pub notifications: Vec<Notification>,
}

/// Selected service and resource after entering a page: a list keeps its
/// service and drops the resource, a detail page selects both, dashboard and
/// settings select neither.
pub open spec fn selection_for(p: PageView) -> (Option<ServiceType>, Option<Seq<char>>) {
    match p {
        PageView::ResourceList(s) => (Some(s), None),
        PageView::ResourceDetail(s, id) => (Some(s), Some(id)),
        _ => (None, None),
    }
}

/// Views of a page history.
pub open spec fn pages_view(v: Seq<AppPage>) -> Seq<PageView> {
    v.map_values(|p: AppPage| p@)
}

/// Model of a switch request: whether it is a profile switch, and the target name.
pub open spec fn request_view(r: Option<SwitchRequest>) -> Option<(bool, Seq<char>)> {
    match r {
        Some(SwitchRequest::Profile(n)) => Some((true, n@)),
        Some(SwitchRequest::Region(n)) => Some((false, n@)),
        None => None,
    }
}

/// The state with the overlay of `e` flipped.
pub open spec fn toggled(s: &AppState, e: UIElement) -> AppState {
    match e {
        UIElement::ProfileSelector => AppState { profile_selector_visible: !s.profile_selector_visible, ..*s },
        UIElement::RegionSelector => AppState { region_selector_visible: !s.region_selector_visible, ..*s },
        UIElement::Help => AppState { help_visible: !s.help_visible, ..*s },
        UIElement::Settings => AppState { settings_visible: !s.settings_visible, ..*s },
    }
}

/// The page a quick-navigation action leads to.
pub open spec fn nav_target(a: NavigationAction) -> PageView {
    match a {
        NavigationAction::NavigateToService(s) => PageView::ResourceList(s),
        NavigationAction::NavigateToResource(s, id) => PageView::ResourceDetail(s, id@),
    }
}

impl AppState {
    /// The context that the state gives: the page's service stands in for an
    /// unselected service.
    pub open spec fn context_view(&self) -> ContextView {
        ContextView {
            page: self.current_page@,
            service: match self.selected_service {
                Some(s) => Some(s),
                None => page_service(self.current_page@),
            },
            resource: opt_view(self.selected_resource),
            profiles: profile_names(self.available_profiles@),
            regions: regions_view(self.available_regions@),
            profile: self.current_profile@,
            region: self.current_region@,
        }
    }

    /// The palette works on the current context, and its catalog is what that
    /// context resolves to.
    pub open spec fn synced(&self) -> bool {
        &&& self.command_palette.wf()
        &&& self.command_palette.context@ == self.context_view()
        &&& exists|cs: Seq<CommandView>|
            is_catalog(cs, self.context_view()) && commands_view(self.command_palette.commands@)
                == resolved(cs, self.context_view())
    }

    /// Page, history and selection are unchanged.
    pub open spec fn same_navigation(&self, o: &AppState) -> bool {
        &&& self.current_page@ == o.current_page@
        &&& pages_view(self.page_history@) == pages_view(o.page_history@)
        &&& self.selected_service == o.selected_service
        &&& opt_view(self.selected_resource) == opt_view(o.selected_resource)
    }

    /// Profiles, regions and the active ones are unchanged.
    pub open spec fn same_environment(&self, o: &AppState) -> bool {
        &&& profile_names(self.available_profiles@) == profile_names(o.available_profiles@)
        &&& regions_view(self.available_regions@) == regions_view(o.available_regions@)
        &&& self.current_profile@ == o.current_profile@
        &&& self.current_region@ == o.current_region@
    }

    /// Overlay flags are unchanged.
    pub open spec fn same_overlays(&self, o: &AppState) -> bool {
        &&& self.help_visible == o.help_visible
        &&& self.settings_visible == o.settings_visible
        &&& self.profile_selector_visible == o.profile_selector_visible
        &&& self.region_selector_visible == o.region_selector_visible
        &&& self.quick_nav_visible == o.quick_nav_visible
    }

    /// A state on `current_page` with the given environment, no selection, no
    /// overlay open, and a palette synchronised with it.
    pub fn new(
        current_page: AppPage,
        available_profiles: Vec<AwsProfile>,
        available_regions: Vec<AwsRegion>,
        current_profile: String,
        current_region: String,
    ) -> (r: Self)
        ensures
            r.synced(),
            r.current_page@ == current_page@,
            r.page_history@.len() == 0,
            r.selected_service is None,
            r.selected_resource is None,
            profile_names(r.available_profiles@) == profile_names(available_profiles@),
            regions_view(r.available_regions@) == regions_view(available_regions@),
            r.current_profile@ == current_profile@,
            r.current_region@ == current_region@,
            !r.help_visible && !r.settings_visible && !r.profile_selector_visible
                && !r.region_selector_visible && !r.quick_nav_visible,
            !r.command_palette.visible,
            r.notifications@.len() == 0,
    {
        let context = CommandContext::new(
            current_page.clone(),
            None,
            None,
            clone_profiles(&available_profiles),
            clone_regions(&available_regions),
            current_profile.clone(),
            current_region.clone(),
        );
        let mut r = AppState {
            current_page,
            page_history: Vec::new(),
            current_profile,
            current_region,
            available_profiles,
            available_regions,
            selected_resource: None,
            selected_service: None,
            selected_resource_index: 0,
            help_visible: false,
            settings_visible: false,
            profile_selector_visible: false,
            region_selector_visible: false,
            quick_nav_visible: false,
            quick_nav_input: String::new(),
            quick_nav_suggestions: Vec::new(),
            quick_nav_selected_index: 0,
            command_palette: CommandPalette::new(context),
            notifications: Vec::new(),
        };
        r.update_command_context();
        r
    }

    /// Rebuilds the context from the state and refreshes the palette with it.
    pub fn update_command_context(&mut self)
        ensures
            final(self).synced(),
            final(self).same_navigation(old(self)),
            final(self).same_environment(old(self)),
            final(self).same_overlays(old(self)),
            final(self).notifications@ == old(self).notifications@,
            final(self).page_history@ == old(self).page_history@,
            final(self).current_page == old(self).current_page,
            final(self).selected_service == old(self).selected_service,
            final(self).selected_resource == old(self).selected_resource,
            final(self).current_profile == old(self).current_profile,
            final(self).current_region == old(self).current_region,
            final(self).command_palette.visible == old(self).command_palette.visible,
            final(self).command_palette.input == old(self).command_palette.input,
            final(self).selected_resource_index == old(self).selected_resource_index,
            final(self).quick_nav_input == old(self).quick_nav_input,
            final(self).quick_nav_suggestions == old(self).quick_nav_suggestions,
            final(self).quick_nav_selected_index == old(self).quick_nav_selected_index,
    {
        let service = match self.selected_service {
            Some(s) => Some(s),
            None => self.current_page.service(),
        };
        let context = CommandContext::new(
            self.current_page.clone(),
            service,
            clone_opt(&self.selected_resource),
            clone_profiles(&self.available_profiles),
            clone_regions(&self.available_regions),
            self.current_profile.clone(),
            self.current_region.clone(),
        );
        let commands = CommandRegistry::get_context_aware_commands(&context);
        self.command_palette.update_context(context);
        self.command_palette.set_commands(commands);
    }


    /// Selects a resource (or none) and refreshes the palette.
    pub fn set_selected_resource(&mut self, resource_id: Option<ResourceId>)
        ensures
            final(self).synced(),
            final(self).selected_resource == resource_id,
            final(self).selected_service == old(self).selected_service,
            final(self).current_page == old(self).current_page,
            final(self).page_history@ == old(self).page_history@,
            final(self).same_environment(old(self)),
            final(self).same_overlays(old(self)),
            final(self).notifications@ == old(self).notifications@,
    {
        self.selected_resource = resource_id;
        self.update_command_context();
    }

    /// Selects a service (or none) and refreshes the palette.
    pub fn set_selected_service(&mut self, service_type: Option<ServiceType>)
        ensures
            final(self).synced(),
            final(self).selected_service == service_type,
            final(self).selected_resource == old(self).selected_resource,
            final(self).current_page == old(self).current_page,
            final(self).page_history@ == old(self).page_history@,
            final(self).same_environment(old(self)),
            final(self).same_overlays(old(self)),
            final(self).notifications@ == old(self).notifications@,
    {
        self.selected_service = service_type;
        self.update_command_context();
    }

    /// Sets page and selection as entering `page` gives them, without touching history.
    fn enter_page(&mut self, page: AppPage)
        ensures
            final(self).current_page@ == page@,
            (final(self).selected_service, opt_view(final(self).selected_resource)) == selection_for(page@),
            final(self).page_history == old(self).page_history,
            final(self).same_environment(old(self)),
            final(self).same_overlays(old(self)),
            final(self).notifications == old(self).notifications,
            final(self).command_palette == old(self).command_palette,
            final(self).selected_resource_index == old(self).selected_resource_index,
    {
        match &page {
            AppPage::ResourceList(s) => {
                self.selected_service = Some(*s);
                self.selected_resource = None;
            },
            AppPage::ResourceDetail(s, id) => {
                self.selected_service = Some(*s);
                self.selected_resource = Some(id.clone());
            },
            _ => {
                self.selected_service = None;
                self.selected_resource = None;
            },
        }
        self.current_page = page;
    }

    /// Remembers the current page in the history, moves to `page` with the
    /// selection that page gives, and refreshes the palette.
    pub fn navigate_to_page(&mut self, page: AppPage)
        ensures
            final(self).synced(),
            final(self).current_page@ == page@,
            pages_view(final(self).page_history@) == pages_view(old(self).page_history@).push(
                old(self).current_page@,
            ),
            (final(self).selected_service, opt_view(final(self).selected_resource)) == selection_for(page@),
            final(self).same_environment(old(self)),
            final(self).same_overlays(old(self)),
            final(self).notifications@ == old(self).notifications@,
    {
        let here = self.current_page.clone();
        self.page_history.push(here);
        assert(pages_view(self.page_history@) =~= pages_view(old(self).page_history@).push(
            old(self).current_page@,
        ));
        self.enter_page(page);
        self.update_command_context();
    }

    /// Opens or closes the palette; an opened palette is refreshed against the
    /// current state.
    pub fn toggle_command_palette(&mut self)
        requires
            old(self).synced(),
        ensures
            final(self).synced(),
            final(self).command_palette.visible == !old(self).command_palette.visible,
            final(self).command_palette.visible ==> final(self).command_palette.input@.len() == 0,
            final(self).same_navigation(old(self)),
            final(self).same_environment(old(self)),
            final(self).same_overlays(old(self)),
            final(self).notifications@ == old(self).notifications@,
    {
        self.command_palette.toggle();
        if self.command_palette.is_visible() {
            self.update_command_context();
        }
    }

    /// Closes the first open overlay in the order: command palette, quick
    /// navigation, help, settings, profile selector, region selector; with none
    /// open, returns to the previous page of the history.
    pub fn handle_escape(&mut self)
        requires
            old(self).synced(),
        ensures
            final(self).synced(),
            final(self).same_environment(old(self)),
            final(self).notifications@ == old(self).notifications@,
            old(self).command_palette.visible ==> {
                &&& !final(self).command_palette.visible
                &&& final(self).same_navigation(old(self))
                &&& final(self).same_overlays(old(self))
            },
            !old(self).command_palette.visible ==> !final(self).command_palette.visible,
            !old(self).command_palette.visible && old(self).quick_nav_visible ==> {
                &&& !final(self).quick_nav_visible
                &&& final(self).same_navigation(old(self))
                &&& final(self).help_visible == old(self).help_visible
                &&& final(self).settings_visible == old(self).settings_visible
                &&& final(self).profile_selector_visible == old(self).profile_selector_visible
                &&& final(self).region_selector_visible == old(self).region_selector_visible
            },
            !old(self).command_palette.visible && !old(self).quick_nav_visible
                && old(self).help_visible ==> {
                &&& final(self).same_navigation(old(self))
                &&& final(self).same_overlays(
                    &AppState { help_visible: false, ..*old(self) },
                )
            },
            !old(self).command_palette.visible && !old(self).quick_nav_visible
                && !old(self).help_visible && old(self).settings_visible ==> {
                &&& final(self).same_navigation(old(self))
                &&& final(self).same_overlays(
                    &AppState { settings_visible: false, ..*old(self) },
                )
            },
            !old(self).command_palette.visible && !old(self).quick_nav_visible
                && !old(self).help_visible && !old(self).settings_visible
                && old(self).profile_selector_visible ==> {
                &&& final(self).same_navigation(old(self))
                &&& final(self).same_overlays(
                    &AppState { profile_selector_visible: false, ..*old(self) },
                )
            },
            !old(self).command_palette.visible && !old(self).quick_nav_visible
                && !old(self).help_visible && !old(self).settings_visible
                && !old(self).profile_selector_visible && old(self).region_selector_visible ==> {
                &&& final(self).same_navigation(old(self))
                &&& final(self).same_overlays(
                    &AppState { region_selector_visible: false, ..*old(self) },
                )
            },
            !old(self).command_palette.visible && !old(self).quick_nav_visible
                && !old(self).help_visible && !old(self).settings_visible
                && !old(self).profile_selector_visible && !old(self).region_selector_visible ==> {
                &&& final(self).same_overlays(old(self))
                &&& (old(self).page_history@.len() == 0 ==> final(self).same_navigation(old(self)))
                &&& (old(self).page_history@.len() > 0 ==> {
                    &&& final(self).current_page@ == old(self).page_history@.last()@
                    &&& pages_view(final(self).page_history@) == pages_view(
                        old(self).page_history@.drop_last(),
                    )
                    &&& (final(self).selected_service, opt_view(final(self).selected_resource))
                        == selection_for(final(self).current_page@)
                })
            },
    {
        if self.command_palette.is_visible() {
            self.command_palette.close();
        } else if self.quick_nav_visible {
            self.quick_nav_visible = false;
            self.quick_nav_input = String::new();
            self.quick_nav_suggestions = Vec::new();
            self.quick_nav_selected_index = 0;
        } else if self.help_visible {
            self.help_visible = false;
        } else if self.settings_visible {
            self.settings_visible = false;
        } else if self.profile_selector_visible {
            self.profile_selector_visible = false;
        } else if self.region_selector_visible {
            self.region_selector_visible = false;
        } else {
            match self.page_history.pop() {
                Some(prev) => {
                    assert(pages_view(self.page_history@) =~= pages_view(
                        old(self).page_history@.drop_last(),
                    ));
                    self.enter_page(prev);
                    self.update_command_context();
                },
                None => {},
            }
        }
    }

    /// Applies the provider's answer to a profile switch: on success the profile
    /// becomes active and a success notification is added; on failure the active
    /// profile stays and an error notification is added. A name that is not an
    /// available profile changes nothing.
    pub fn switch_profile(&mut self, profile_name: &str, outcome: Result<(), String>)
        requires
            old(self).synced(),
        ensures
            final(self).synced(),
            final(self).same_navigation(old(self)),
            final(self).same_overlays(old(self)),
            profile_names(final(self).available_profiles@) == profile_names(old(self).available_profiles@),
            regions_view(final(self).available_regions@) == regions_view(old(self).available_regions@),
            final(self).current_region@ == old(self).current_region@,
            !profile_names(old(self).available_profiles@).contains(profile_name@) ==> {
                &&& final(self).current_profile@ == old(self).current_profile@
                &&& final(self).notifications@ == old(self).notifications@
            },
            profile_names(old(self).available_profiles@).contains(profile_name@) ==> {
                &&& final(self).notifications@.len() == old(self).notifications@.len() + 1
                &&& final(self).notifications@.drop_last() == old(self).notifications@
                &&& match outcome {
                    Ok(_) => {
                        &&& final(self).current_profile@ == profile_name@
                        &&& final(self).notifications@.last().level == NotificationLevel::Success
                        &&& final(self).notifications@.last().message@ == "Switched to profile: "@
                            + profile_name@
                    },
                    Err(e) => {
                        &&& final(self).current_profile@ == old(self).current_profile@
                        &&& final(self).notifications@.last().level == NotificationLevel::Error
                        &&& final(self).notifications@.last().message@
                            == "Failed to switch profile: "@ + e@
                    },
                }
            },
    {
        if !crate::context::profiles_contain(&self.available_profiles, profile_name) {
            return;
        }
        let mut message: String;
        match outcome {
            Ok(_) => {
                self.current_profile = profile_name.to_string();
                message = String::from_str("Switched to profile: ");
                message.append(profile_name);
                self.add_notification(message, NotificationLevel::Success);
            },
            Err(e) => {
                message = String::from_str("Failed to switch profile: ");
                message.append(e.as_str());
                self.add_notification(message, NotificationLevel::Error);
            },
        }
        self.update_command_context();
    }

    /// Applies the provider's answer to a region switch: on success the region
    /// becomes active and a success notification is added; on failure the active
    /// region stays and an error notification is added. A name that is not an
    /// available region changes nothing.
    pub fn switch_region(&mut self, region_name: &str, outcome: Result<(), String>)
        requires
            old(self).synced(),
        ensures
            final(self).synced(),
            final(self).same_navigation(old(self)),
            final(self).same_overlays(old(self)),
            profile_names(final(self).available_profiles@) == profile_names(old(self).available_profiles@),
            regions_view(final(self).available_regions@) == regions_view(old(self).available_regions@),
            final(self).current_profile@ == old(self).current_profile@,
            !region_names(regions_view(old(self).available_regions@)).contains(region_name@) ==> {
                &&& final(self).current_region@ == old(self).current_region@
                &&& final(self).notifications@ == old(self).notifications@
            },
            region_names(regions_view(old(self).available_regions@)).contains(region_name@) ==> {
                &&& final(self).notifications@.len() == old(self).notifications@.len() + 1
                &&& final(self).notifications@.drop_last() == old(self).notifications@
                &&& match outcome {
                    Ok(_) => {
                        &&& final(self).current_region@ == region_name@
                        &&& final(self).notifications@.last().level == NotificationLevel::Success
                        &&& final(self).notifications@.last().message@ == "Switched to region: "@
                            + region_name@
                    },
                    Err(e) => {
                        &&& final(self).current_region@ == old(self).current_region@
                        &&& final(self).notifications@.last().level == NotificationLevel::Error
                        &&& final(self).notifications@.last().message@
                            == "Failed to switch region: "@ + e@
                    },
                }
            },
    {
        if !crate::context::regions_contain(&self.available_regions, region_name) {
            return;
        }
        let mut message: String;
        match outcome {
            Ok(_) => {
                self.current_region = region_name.to_string();
                message = String::from_str("Switched to region: ");
                message.append(region_name);
                self.add_notification(message, NotificationLevel::Success);
            },
            Err(e) => {
                message = String::from_str("Failed to switch region: ");
                message.append(e.as_str());
                self.add_notification(message, NotificationLevel::Error);
            },
        }
        self.update_command_context();
    }


    /// Runs a service action on the current selection. An action that needs a
    /// selected resource fails with an error notification when none is selected;
    /// otherwise it succeeds with a success notification.
    pub fn execute_service_command(&mut self, service_type: ServiceType, command: ServiceCommand)
        requires
            old(self).synced(),
        ensures
            final(self).synced(),
            final(self).same_navigation(old(self)),
            final(self).same_environment(old(self)),
            final(self).same_overlays(old(self)),
            final(self).notifications@.len() == old(self).notifications@.len() + 1,
            final(self).notifications@.drop_last() == old(self).notifications@,
            final(self).notifications@.last().level == if command_requires_resource(command)
                && old(self).selected_resource is None {
                NotificationLevel::Error
            } else {
                NotificationLevel::Success
            },
            final(self).notifications@.last().message@ == if command_requires_resource(command)
                && old(self).selected_resource is None {
                "No resource selected for "@ + command_display_name(command)
            } else {
                command_display_name(command) + " completed"@
            },
    {
        if command.requires_resource_selection() && self.selected_resource.is_none() {
            let mut message = String::from_str("No resource selected for ");
            message.append(command.display_name());
            self.add_notification(message, NotificationLevel::Error);
        } else {
            let mut message = String::from_str(command.display_name());
            message.append(" completed");
            self.add_notification(message, NotificationLevel::Success);
        }
        self.update_command_context();
    }

    /// Executes a command's action. A profile or region switch is not applied
    /// here: it is handed back as a request, to be confirmed by the resource
    /// provider and then applied with `switch_profile` or `switch_region`.
    pub fn execute_command(&mut self, action: &CommandAction) -> (r: Option<SwitchRequest>)
        requires
            old(self).synced(),
        ensures
            final(self).synced(),
            final(self).same_environment(old(self)),
            match action@ {
                ActionView::SwitchProfile(n) => {
                    &&& request_view(r) == Some((true, n))
                    &&& final(self).same_navigation(old(self))
                    &&& final(self).same_overlays(old(self))
                    &&& final(self).notifications@ == old(self).notifications@
                },
                ActionView::SwitchRegion(n) => {
                    &&& request_view(r) == Some((false, n))
                    &&& final(self).same_navigation(old(self))
                    &&& final(self).same_overlays(old(self))
                    &&& final(self).notifications@ == old(self).notifications@
                },
                ActionView::NavigateToService(s) => {
                    &&& r is None
                    &&& final(self).current_page@ == PageView::ResourceList(s)
                    &&& pages_view(final(self).page_history@) == pages_view(
                        old(self).page_history@,
                    ).push(old(self).current_page@)
                    &&& final(self).selected_service == Some(s)
                    &&& final(self).selected_resource is None
                    &&& final(self).same_overlays(old(self))
                    &&& final(self).notifications@ == old(self).notifications@
                },
                ActionView::NavigateToPage(p) => {
                    &&& r is None
                    &&& final(self).current_page@ == p
                    &&& pages_view(final(self).page_history@) == pages_view(
                        old(self).page_history@,
                    ).push(old(self).current_page@)
                    &&& (final(self).selected_service, opt_view(final(self).selected_resource))
                        == selection_for(p)
                    &&& final(self).same_overlays(old(self))
                    &&& final(self).notifications@ == old(self).notifications@
                },
                ActionView::ExecuteServiceCommand(_, c) => {
                    &&& r is None
                    &&& final(self).same_navigation(old(self))
                    &&& final(self).same_overlays(old(self))
                    &&& final(self).notifications@.len() == old(self).notifications@.len() + 1
                    &&& final(self).notifications@.last().level == if command_requires_resource(c)
                        && old(self).selected_resource is None {
                        NotificationLevel::Error
                    } else {
                        NotificationLevel::Success
                    }
                },
                ActionView::ShowHelp => {
                    &&& r is None
                    &&& final(self).same_navigation(old(self))
                    &&& final(self).help_visible
                    &&& final(self).same_overlays(&AppState { help_visible: true, ..*old(self) })
                    &&& final(self).notifications@ == old(self).notifications@
                },
                ActionView::OpenSettings => {
                    &&& r is None
                    &&& final(self).current_page@ == PageView::Settings
                    &&& pages_view(final(self).page_history@) == pages_view(
                        old(self).page_history@,
                    ).push(old(self).current_page@)
                    &&& final(self).selected_service is None
                    &&& final(self).selected_resource is None
                    &&& final(self).same_overlays(old(self))
                    &&& final(self).notifications@ == old(self).notifications@
                },
                ActionView::ToggleUI(e) => {
                    &&& r is None
                    &&& final(self).same_navigation(old(self))
                    &&& final(self).same_overlays(&toggled(old(self), e))
                    &&& final(self).notifications@ == old(self).notifications@
                },
            },
    {
        match action {
            CommandAction::SwitchProfile(name) => {
                self.update_command_context();
                Some(SwitchRequest::Profile(name.clone()))
            },
            CommandAction::SwitchRegion(name) => {
                self.update_command_context();
                Some(SwitchRequest::Region(name.clone()))
            },
            CommandAction::NavigateToService(s) => {
                self.selected_resource_index = 0;
                self.navigate_to_page(AppPage::ResourceList(*s));
                None
            },
            CommandAction::NavigateToPage(p) => {
                self.navigate_to_page(p.clone());
                None
            },
            CommandAction::ExecuteServiceCommand(s, c) => {
                self.execute_service_command(*s, *c);
                None
            },
            CommandAction::ShowHelp => {
                self.help_visible = true;
                self.update_command_context();
                None
            },
            CommandAction::OpenSettings => {
                self.navigate_to_page(AppPage::Settings);
                None
            },
            CommandAction::ToggleUI(e) => {
                match e {
                    UIElement::ProfileSelector => {
                        self.profile_selector_visible = !self.profile_selector_visible;
                    },
                    UIElement::RegionSelector => {
                        self.region_selector_visible = !self.region_selector_visible;
                    },
                    UIElement::Help => {
                        self.help_visible = !self.help_visible;
                    },
                    UIElement::Settings => {
                        self.settings_visible = !self.settings_visible;
                    },
                }
                self.update_command_context();
                None
            },
        }
    }

    /// Handles a key while the palette is open. Enter closes the palette and
    /// executes the command under the cursor, if any; Escape closes it; the
    /// other keys edit the input or move the cursor.
    pub fn handle_palette_key(&mut self, key: PaletteKey) -> (r: Option<SwitchRequest>)
        requires
            old(self).synced(),
        ensures
            final(self).synced(),
            final(self).same_environment(old(self)),
            key != PaletteKey::Enter ==> {
                &&& r is None
                &&& final(self).same_navigation(old(self))
                &&& final(self).same_overlays(old(self))
                &&& final(self).notifications@ == old(self).notifications@
            },
            key == PaletteKey::Escape ==> !final(self).command_palette.visible,
            key == PaletteKey::Enter ==> !final(self).command_palette.visible,
            key == PaletteKey::Enter && old(self).command_palette.filtered_commands@.len() == 0 ==> {
                &&& r is None
                &&& final(self).same_navigation(old(self))
                &&& final(self).same_overlays(old(self))
                &&& final(self).notifications@ == old(self).notifications@
            },
            match key {
                PaletteKey::Char(c) => final(self).command_palette.input@
                    == old(self).command_palette.input@.push(c),
                PaletteKey::Up | PaletteKey::Down => final(self).command_palette.input
                    == old(self).command_palette.input,
                _ => true,
            },
    {
        match key {
            PaletteKey::Escape => {
                self.command_palette.close();
                None
            },
            PaletteKey::Enter => {
                let action = match self.command_palette.get_selected_command() {
                    Some(c) => Some(c.action.clone()),
                    None => None,
                };
                self.command_palette.close();
                match action {
                    Some(a) => {
                        let r = self.execute_command(&a);
                        if self.command_palette.is_visible() {
                            self.command_palette.close();
                        }
                        r
                    },
                    None => None,
                }
            },
            PaletteKey::Up => {
                self.command_palette.select_previous();
                None
            },
            PaletteKey::Down => {
                self.command_palette.select_next();
                None
            },
            PaletteKey::Char(c) => {
                self.command_palette.add_char(c);
                None
            },
            PaletteKey::Backspace => {
                self.command_palette.backspace();
                None
            },
        }
    }

    /// Opens or closes the quick-navigation overlay; it opens with an empty
    /// input showing every entry.
    pub fn toggle_quick_nav(&mut self)
        ensures
            final(self).quick_nav_visible == !old(self).quick_nav_visible,
            final(self).quick_nav_visible ==> {
                &&& final(self).quick_nav_input@.len() == 0
                &&& items_view(final(self).quick_nav_suggestions@) == nav_items()
                &&& final(self).quick_nav_selected_index == 0
            },
            final(self).current_page == old(self).current_page,
            final(self).page_history == old(self).page_history,
            final(self).selected_service == old(self).selected_service,
            final(self).selected_resource == old(self).selected_resource,
            final(self).command_palette == old(self).command_palette,
            final(self).notifications == old(self).notifications,
            final(self).same_environment(old(self)),
    {
        self.quick_nav_visible = !self.quick_nav_visible;
        if self.quick_nav_visible {
            self.quick_nav_input = String::new();
            self.quick_nav_suggestions = create_navigation_items();
            self.quick_nav_selected_index = 0;
        }
    }

    /// Recomputes the quick-navigation entries for the current input.
    pub fn update_quick_nav_suggestions(&mut self)
        ensures
            items_view(final(self).quick_nav_suggestions@) == suggestions_for(final(self).quick_nav_input@),
            final(self).quick_nav_input == old(self).quick_nav_input,
            final(self).quick_nav_visible == old(self).quick_nav_visible,
            final(self).quick_nav_selected_index == old(self).quick_nav_selected_index,
            final(self).current_page == old(self).current_page,
            final(self).page_history == old(self).page_history,
            final(self).selected_service == old(self).selected_service,
            final(self).selected_resource == old(self).selected_resource,
            final(self).command_palette == old(self).command_palette,
            final(self).notifications == old(self).notifications,
            final(self).same_environment(old(self)),
    {
        self.quick_nav_suggestions = quick_nav_suggestions(self.quick_nav_input.as_str());
    }

    /// Goes to the page a quick-navigation entry leads to.
    pub fn execute_navigation_action(&mut self, action: &NavigationAction)
        ensures
            final(self).synced(),
            final(self).current_page@ == nav_target(*action),
            pages_view(final(self).page_history@) == pages_view(old(self).page_history@).push(
                old(self).current_page@,
            ),
            (final(self).selected_service, opt_view(final(self).selected_resource)) == selection_for(
                nav_target(*action),
            ),
            final(self).same_environment(old(self)),
            final(self).same_overlays(old(self)),
            final(self).notifications@ == old(self).notifications@,
    {
        self.selected_resource_index = 0;
        match action {
            NavigationAction::NavigateToService(s) => self.navigate_to_page(AppPage::ResourceList(*s)),
            NavigationAction::NavigateToResource(s, id) => {
                self.navigate_to_page(AppPage::ResourceDetail(*s, id.clone()))
            },
        }
    }

    /// Handles a key while the quick-navigation overlay is open. Enter goes to
    /// the entry under the cursor and closes the overlay; Escape closes it; the
    /// other keys edit the input (showing the matching entries, cursor at the
    /// top) or move the cursor within the entries.
    pub fn handle_quick_nav_key(&mut self, key: PaletteKey)
        ensures
            final(self).same_environment(old(self)),
            key == PaletteKey::Escape ==> {
                &&& !final(self).quick_nav_visible
                &&& final(self).quick_nav_input@.len() == 0
                &&& final(self).same_navigation(old(self))
            },
            key == PaletteKey::Enter && old(self).quick_nav_selected_index
                < old(self).quick_nav_suggestions@.len() ==> {
                &&& !final(self).quick_nav_visible
                &&& final(self).synced()
                &&& final(self).current_page@ == old(
                    self,
                ).quick_nav_suggestions@[old(self).quick_nav_selected_index as int]@.target
            },
            match key {
                PaletteKey::Char(c) => {
                    &&& final(self).quick_nav_input@ == old(self).quick_nav_input@.push(c)
                    &&& items_view(final(self).quick_nav_suggestions@) == suggestions_for(
                        final(self).quick_nav_input@,
                    )
                    &&& final(self).quick_nav_selected_index == 0
                },
                PaletteKey::Backspace => {
                    &&& items_view(final(self).quick_nav_suggestions@) == suggestions_for(
                        final(self).quick_nav_input@,
                    )
                    &&& final(self).quick_nav_selected_index == 0
                },
                PaletteKey::Up => final(self).quick_nav_selected_index == if old(
                    self,
                ).quick_nav_selected_index > 0 {
                    (old(self).quick_nav_selected_index - 1) as usize
                } else {
                    0
                },
                PaletteKey::Down => final(self).quick_nav_selected_index == if old(
                    self,
                ).quick_nav_selected_index + 1 < old(self).quick_nav_suggestions@.len() {
                    (old(self).quick_nav_selected_index + 1) as usize
                } else {
                    old(self).quick_nav_selected_index
                },
                _ => true,
            },
    {
        match key {
            PaletteKey::Escape => {
                self.quick_nav_visible = false;
                self.quick_nav_input = String::new();
                self.quick_nav_suggestions = Vec::new();
                self.quick_nav_selected_index = 0;
            },
            PaletteKey::Enter => {
                if self.quick_nav_selected_index < self.quick_nav_suggestions.len() {
                    let action = self.quick_nav_suggestions[self.quick_nav_selected_index].action.clone();
                    proof {
                        assert(nav_target(action) == old(self).quick_nav_suggestions@[old(self).quick_nav_selected_index as int]@.target);
                    }
                    self.execute_navigation_action(&action);
                    self.quick_nav_visible = false;
                    self.quick_nav_input = String::new();
                    self.quick_nav_suggestions = Vec::new();
                    self.quick_nav_selected_index = 0;
                }
            },
            PaletteKey::Up => {
                if self.quick_nav_selected_index > 0 {
                    self.quick_nav_selected_index = self.quick_nav_selected_index - 1;
                }
            },
            PaletteKey::Down => {
                let n = self.quick_nav_suggestions.len();
                if n > 0 && self.quick_nav_selected_index < n - 1 {
                    self.quick_nav_selected_index = self.quick_nav_selected_index + 1;
                }
            },
            PaletteKey::Char(c) => {
                push_char(&mut self.quick_nav_input, c);
                self.update_quick_nav_suggestions();
                self.quick_nav_selected_index = 0;
            },
            PaletteKey::Backspace => {
                pop_char(&mut self.quick_nav_input);
                self.update_quick_nav_suggestions();
                self.quick_nav_selected_index = 0;
            },
        }
    }


    /// On a resource list, moves the resource cursor up by one (stopping at the
    /// top) and refreshes the palette; elsewhere does nothing.
    pub fn handle_up(&mut self)
        ensures
            final(self).same_navigation(old(self)),
            final(self).same_environment(old(self)),
            final(self).same_overlays(old(self)),
            final(self).notifications@ == old(self).notifications@,
            final(self).selected_resource_index == if (old(self).current_page@ is ResourceList)
                && old(self).selected_resource_index > 0 {
                (old(self).selected_resource_index - 1) as usize
            } else {
                old(self).selected_resource_index
            },
            (old(self).current_page@ is ResourceList) && old(self).selected_resource_index > 0
                ==> final(self).synced(),
    {
        if matches!(self.current_page, AppPage::ResourceList(_)) && self.selected_resource_index > 0 {
            self.selected_resource_index = self.selected_resource_index - 1;
            self.update_command_context();
        }
    }

    /// On a resource list, moves the resource cursor down by one and refreshes
    /// the palette; elsewhere does nothing.
    pub fn handle_down(&mut self)
        ensures
            final(self).same_navigation(old(self)),
            final(self).same_environment(old(self)),
            final(self).same_overlays(old(self)),
            final(self).notifications@ == old(self).notifications@,
            final(self).selected_resource_index == if (old(self).current_page@ is ResourceList)
                && old(self).selected_resource_index < usize::MAX {
                (old(self).selected_resource_index + 1) as usize
            } else {
                old(self).selected_resource_index
            },
            (old(self).current_page@ is ResourceList) ==> final(self).synced(),
    {
        if matches!(self.current_page, AppPage::ResourceList(_)) {
            if self.selected_resource_index < usize::MAX {
                self.selected_resource_index = self.selected_resource_index + 1;
            }
            self.update_command_context();
        }
    }

    /// On a resource list, opens the detail page of the resource under the
    /// cursor, named `resource-<index>`, which becomes the selected resource;
    /// elsewhere does nothing.
    pub fn handle_enter(&mut self)
        ensures
            final(self).same_environment(old(self)),
            final(self).same_overlays(old(self)),
            final(self).notifications@ == old(self).notifications@,
            match old(self).current_page@ {
                PageView::ResourceList(s) => {
                    &&& final(self).synced()
                    &&& final(self).current_page@ == PageView::ResourceDetail(
                        s,
                        "resource-"@ + decimal(old(self).selected_resource_index as nat),
                    )
                    &&& pages_view(final(self).page_history@) == pages_view(
                        old(self).page_history@,
                    ).push(old(self).current_page@)
                    &&& final(self).selected_service == Some(s)
                    &&& opt_view(final(self).selected_resource) == Some(
                        "resource-"@ + decimal(old(self).selected_resource_index as nat),
                    )
                },
                _ => final(self).same_navigation(old(self)),
            },
    {
        match self.current_page {
            AppPage::ResourceList(s) => {
                let mut id = String::from_str("resource-");
                push_decimal(&mut id, self.selected_resource_index);
                self.navigate_to_page(AppPage::ResourceDetail(s, id));
            },
            _ => {},
        }
    }

    /// Appends a notification.
    pub fn add_notification(&mut self, message: String, level: NotificationLevel)
        ensures
            final(self).notifications@.len() == old(self).notifications@.len() + 1,
            final(self).notifications@.last().message@ == message@,
            final(self).notifications@.last().level == level,
            final(self).notifications@.drop_last() == old(self).notifications@,
            final(self).current_page == old(self).current_page,
            final(self).page_history == old(self).page_history,
            final(self).selected_service == old(self).selected_service,
            final(self).selected_resource == old(self).selected_resource,
            final(self).current_profile == old(self).current_profile,
            final(self).current_region == old(self).current_region,
            final(self).available_profiles == old(self).available_profiles,
            final(self).available_regions == old(self).available_regions,
            final(self).command_palette == old(self).command_palette,
            final(self).same_overlays(old(self)),
    {
        self.notifications.push(Notification { message, level });
        assert(self.notifications@.drop_last() =~= old(self).notifications@);
    }

    /// Removes every notification.
    pub fn clear_notifications(&mut self)
        ensures
            final(self).notifications@.len() == 0,
            final(self).current_page == old(self).current_page,
            final(self).page_history == old(self).page_history,
            final(self).selected_service == old(self).selected_service,
            final(self).selected_resource == old(self).selected_resource,
            final(self).current_profile == old(self).current_profile,
            final(self).current_region == old(self).current_region,
            final(self).command_palette == old(self).command_palette,
    {
        self.notifications = Vec::new();
    }
}

} // verus!

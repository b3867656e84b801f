use vstd::prelude::*;
use crate::commands::{ContextRequirement, RequirementView};
use crate::page::{AppPage, PageView, page_service};
use crate::service::{AwsProfile, AwsRegion, ResourceId, ServiceType};
use crate::text::str_eq;

verus! {

/// Snapshot of navigation, selection and environment state.
#[derive(Debug)]
pub struct CommandContext {
    pub current_page: AppPage,
    pub selected_service: Option<ServiceType>,
    pub selected_resource: Option<ResourceId>,
    pub available_profiles: Vec<AwsProfile>,
    pub available_regions: Vec<AwsRegion>,
    pub current_profile: String,
    pub current_region: String,
}

/// Model of a region: code name and display name.
pub struct RegionView {
    pub name: Seq<char>,
    pub display_name: Seq<char>,
}

/// Model of a context: the profiles are known by their names.
pub struct ContextView {
    pub page: PageView,
    pub service: Option<ServiceType>,
    pub resource: Option<Seq<char>>,
    pub profiles: Seq<Seq<char>>,
    pub regions: Seq<RegionView>,
    pub profile: Seq<char>,
    pub region: Seq<char>,
}

pub open spec fn profile_names(v: Seq<AwsProfile>) -> Seq<Seq<char>> {
    v.map_values(|p: AwsProfile| p.name@)
}

pub open spec fn regions_view(v: Seq<AwsRegion>) -> Seq<RegionView> {
    v.map_values(|r: AwsRegion| RegionView { name: r.name@, display_name: r.display_name@ })
}

pub open spec fn region_names(v: Seq<RegionView>) -> Seq<Seq<char>> {
    v.map_values(|r: RegionView| r.name)
}

impl View for CommandContext {
    type V = ContextView;

    open spec fn view(&self) -> ContextView {
        ContextView {
            page: self.current_page@,
            service: self.selected_service,
            resource: crate::service::opt_view(self.selected_resource),
            profiles: profile_names(self.available_profiles@),
            regions: regions_view(self.available_regions@),
            profile: self.current_profile@,
            region: self.current_region@,
        }
    }
}

/// Whether a requirement holds in a context.
pub open spec fn satisfies(ctx: ContextView, r: RequirementView) -> bool {
    match r {
        RequirementView::ServiceSelected(s) => ctx.service == Some(s),
        RequirementView::ResourceSelected => ctx.resource is Some,
        RequirementView::ResourceOfTypeSelected(s) => ctx.resource is Some && ctx.service == Some(s),
        RequirementView::ProfilesAvailable => ctx.profiles.len() > 0,
        RequirementView::RegionsAvailable => ctx.regions.len() > 0,
        RequirementView::OnPage(p) => ctx.page == p,
        RequirementView::NotOnPage(p) => ctx.page != p,
    }
}

/// Whether every requirement of a list holds in a context.
pub open spec fn satisfies_all(ctx: ContextView, rs: Seq<RequirementView>) -> bool {
    forall|i: int| 0 <= i < rs.len() ==> #[trigger] satisfies(ctx, rs[i])
}

/// Whether an optional service is the given one.
pub fn is_service(o: Option<ServiceType>, s: ServiceType) -> (r: bool)
    ensures
        r == (o == Some(s)),
{
    match o {
        Some(t) => t == s,
        None => false,
    }
}

/// Whether a profile of that name is in the list.
pub fn profiles_contain(v: &Vec<AwsProfile>, name: &str) -> (r: bool)
    ensures
        r == profile_names(v@).contains(name@),
{
    let mut i: usize = 0;
    while i < v.len()
        invariant
            i <= v@.len(),
            forall|j: int| 0 <= j < i ==> profile_names(v@)[j] != name@,
        decreases v.len() - i,
    {
        if str_eq(v[i].name.as_str(), name) {
            assert(profile_names(v@)[i as int] == name@);
            return true;
        }
        i = i + 1;
    }
    false
}

/// Whether a region of that code name is in the list.
pub fn regions_contain(v: &Vec<AwsRegion>, name: &str) -> (r: bool)
    ensures
        r == region_names(regions_view(v@)).contains(name@),
{
    let mut i: usize = 0;
    while i < v.len()
        invariant
            i <= v@.len(),
            forall|j: int| 0 <= j < i ==> region_names(regions_view(v@))[j] != name@,
        decreases v.len() - i,
    {
        if str_eq(v[i].name.as_str(), name) {
            assert(region_names(regions_view(v@))[i as int] == name@);
            return true;
        }
        i = i + 1;
    }
    false
}

/// Copies a list of profiles.
pub fn clone_profiles(v: &Vec<AwsProfile>) -> (r: Vec<AwsProfile>)
    ensures
        profile_names(r@) == profile_names(v@),
{
    let mut r: Vec<AwsProfile> = Vec::new();
    let mut i: usize = 0;
    while i < v.len()
        invariant
            i <= v.len(),
            r@.len() == i,
            forall|j: int| 0 <= j < i ==> (#[trigger] r@[j]).name@ == v@[j].name@,
        decreases v.len() - i,
    {
        r.push(v[i].clone());
        i = i + 1;
    }
    assert(profile_names(r@) =~= profile_names(v@));
    r
}

/// Copies a list of regions.
pub fn clone_regions(v: &Vec<AwsRegion>) -> (r: Vec<AwsRegion>)
    ensures
        regions_view(r@) == regions_view(v@),
{
    let mut r: Vec<AwsRegion> = Vec::new();
    let mut i: usize = 0;
    while i < v.len()
        invariant
            i <= v.len(),
            r@.len() == i,
            forall|j: int|
                0 <= j < i ==> (#[trigger] r@[j]).name@ == v@[j].name@ && r@[j].display_name@
                    == v@[j].display_name@,
        decreases v.len() - i,
    {
        r.push(v[i].clone());
        i = i + 1;
    }
    assert(regions_view(r@) =~= regions_view(v@));
    r
}

impl Clone for CommandContext {
    fn clone(&self) -> (r: Self)
        ensures
            r@ == self@,
    {
        CommandContext {
            current_page: self.current_page.clone(),
            selected_service: self.selected_service,
            selected_resource: crate::service::clone_opt(&self.selected_resource),
            available_profiles: clone_profiles(&self.available_profiles),
            available_regions: clone_regions(&self.available_regions),
            current_profile: self.current_profile.clone(),
            current_region: self.current_region.clone(),
        }
    }
}

impl CommandContext {
    pub fn new(
        current_page: AppPage,
        selected_service: Option<ServiceType>,
        selected_resource: Option<ResourceId>,
        available_profiles: Vec<AwsProfile>,
        available_regions: Vec<AwsRegion>,
        current_profile: String,
        current_region: String,
    ) -> (r: Self)
        ensures
            r == (CommandContext {
                current_page,
                selected_service,
                selected_resource,
                available_profiles,
                available_regions,
                current_profile,
                current_region,
            }),
    {
        CommandContext {
            current_page,
            selected_service,
            selected_resource,
            available_profiles,
            available_regions,
            current_profile,
            current_region,
        }
    }

    /// Whether one requirement holds in this context.
    pub fn satisfies_requirement(&self, requirement: &ContextRequirement) -> (r: bool)
        ensures
            r == satisfies(self@, requirement@),
    {
        match requirement {
            ContextRequirement::ServiceSelected(s) => is_service(self.selected_service, *s),
            ContextRequirement::ResourceSelected => self.selected_resource.is_some(),
            ContextRequirement::ResourceOfTypeSelected(s) => {
                self.selected_resource.is_some() && is_service(self.selected_service, *s)
            },
            ContextRequirement::ProfilesAvailable => self.available_profiles.len() > 0,
            ContextRequirement::RegionsAvailable => self.available_regions.len() > 0,
            ContextRequirement::OnPage(page) => self.current_page == *page,
            ContextRequirement::NotOnPage(page) => !(self.current_page == *page),
        }
    }

    /// Whether every requirement of the list holds in this context.
    pub fn satisfies_all_requirements(&self, requirements: &[ContextRequirement]) -> (r: bool)
        ensures
            r == satisfies_all(self@, requirements@.map_values(|q: ContextRequirement| q@)),
    {
        let ghost rs = requirements@.map_values(|q: ContextRequirement| q@);
        let mut i: usize = 0;
        while i < requirements.len()
            invariant
                i <= requirements@.len(),
                rs == requirements@.map_values(|q: ContextRequirement| q@),
                forall|j: int| 0 <= j < i ==> #[trigger] satisfies(self@, rs[j]),
            decreases requirements.len() - i,
        {
            if !self.satisfies_requirement(&requirements[i]) {
                assert(!satisfies(self@, rs[i as int]));
                return false;
            }
            i = i + 1;
        }
        true
    }

    /// The service shown by the current page, if any.
    pub fn get_service_from_page(&self) -> (r: Option<ServiceType>)
        ensures
            r == page_service(self@.page),
    {
        self.current_page.service()
    }

    pub fn is_viewing_service(&self, service_type: ServiceType) -> (r: bool)
        ensures
            r == (page_service(self@.page) == Some(service_type)),
    {
        is_service(self.get_service_from_page(), service_type)
    }

    pub fn is_on_dashboard(&self) -> (r: bool)
        ensures
            r == (self@.page is Dashboard),
    {
        matches!(self.current_page, AppPage::Dashboard)
    }

    pub fn is_viewing_resource_list(&self) -> (r: bool)
        ensures
            r == (self@.page is ResourceList),
    {
        matches!(self.current_page, AppPage::ResourceList(_))
    }

    pub fn is_viewing_resource_detail(&self) -> (r: bool)
        ensures
            r == (self@.page is ResourceDetail),
    {
        matches!(self.current_page, AppPage::ResourceDetail(_, _))
    }

    pub fn is_on_settings(&self) -> (r: bool)
        ensures
            r == (self@.page is Settings),
    {
        matches!(self.current_page, AppPage::Settings)
    }

    /// Names of the available profiles, in order.
    pub fn get_profile_names(&self) -> (r: Vec<String>)
        ensures
            crate::commands::strings_view(r@) == self@.profiles,
    {
        let mut r: Vec<String> = Vec::new();
        let mut i: usize = 0;
        while i < self.available_profiles.len()
            invariant
                i <= self.available_profiles@.len(),
                r@.len() == i,
                forall|j: int|
                    0 <= j < i ==> (#[trigger] r@[j])@ == self.available_profiles@[j].name@,
            decreases self.available_profiles.len() - i,
        {
            r.push(self.available_profiles[i].name.clone());
            i = i + 1;
        }
        assert(crate::commands::strings_view(r@) =~= self@.profiles);
        r
    }

    /// Code names of the available regions, in order.
    pub fn get_region_names(&self) -> (r: Vec<String>)
        ensures
            crate::commands::strings_view(r@) == region_names(self@.regions),
    {
        let mut r: Vec<String> = Vec::new();
        let mut i: usize = 0;
        while i < self.available_regions.len()
            invariant
                i <= self.available_regions@.len(),
                r@.len() == i,
                forall|j: int|
                    0 <= j < i ==> (#[trigger] r@[j])@ == self.available_regions@[j].name@,
            decreases self.available_regions.len() - i,
        {
            r.push(self.available_regions[i].name.clone());
            i = i + 1;
        }
        assert(crate::commands::strings_view(r@) =~= region_names(self@.regions));
        r
    }

    /// Whether a profile of that name is available.
    pub fn has_profile(&self, profile_name: &str) -> (r: bool)
        ensures
            r == self@.profiles.contains(profile_name@),
    {
        profiles_contain(&self.available_profiles, profile_name)
    }

    /// Whether a region of that code name is available.
    pub fn has_region(&self, region_name: &str) -> (r: bool)
        ensures
            r == region_names(self@.regions).contains(region_name@),
    {
        regions_contain(&self.available_regions, region_name)
    }

    /// The same context on another page; the selected service follows the page.
    pub fn with_page(self, page: AppPage) -> (r: Self)
        ensures
            r@ == (ContextView { page: page@, service: page_service(page@), ..self@ }),
    {
        let mut c = self;
        c.current_page = page;
        c.selected_service = c.get_service_from_page();
        c
    }

    /// The same context with another selected resource.
    pub fn with_selected_resource(self, resource_id: Option<ResourceId>) -> (r: Self)
        ensures
            r@ == (ContextView { resource: crate::service::opt_view(resource_id), ..self@ }),
    {
        let mut c = self;
        c.selected_resource = resource_id;
        c
    }

    /// The same context with another selected service.
    pub fn with_selected_service(self, service_type: Option<ServiceType>) -> (r: Self)
        ensures
            r@ == (ContextView { service: service_type, ..self@ }),
    {
        let mut c = self;
        c.selected_service = service_type;
        c
    }
}

} // verus!

use vstd::prelude::*;
use crate::service::{ResourceId, ServiceType};

verus! {

/// A navigation location of the application.
#[derive(Debug)]
pub enum AppPage {
    Dashboard,
    ResourceList(ServiceType),
    ResourceDetail(ServiceType, ResourceId),
    Settings,
}

/// Mathematical model of a page: the resource id as a character sequence.
pub enum PageView {
    Dashboard,
    ResourceList(ServiceType),
    ResourceDetail(ServiceType, Seq<char>),
    Settings,
}

impl View for AppPage {
    type V = PageView;

    open spec fn view(&self) -> PageView {
        match self {
            AppPage::Dashboard => PageView::Dashboard,
            AppPage::ResourceList(s) => PageView::ResourceList(*s),
            AppPage::ResourceDetail(s, id) => PageView::ResourceDetail(*s, id@),
            AppPage::Settings => PageView::Settings,
        }
    }
}

/// The service a page shows, if any.
pub open spec fn page_service(p: PageView) -> Option<ServiceType> {
    match p {
        PageView::ResourceList(s) => Some(s),
        PageView::ResourceDetail(s, _) => Some(s),
        _ => None,
    }
}

impl Clone for AppPage {
    fn clone(&self) -> (r: Self)
        ensures
            r@ == self@,
    {
        match self {
            AppPage::Dashboard => AppPage::Dashboard,
            AppPage::ResourceList(s) => AppPage::ResourceList(*s),
            AppPage::ResourceDetail(s, id) => AppPage::ResourceDetail(*s, id.clone()),
            AppPage::Settings => AppPage::Settings,
        }
    }
}

impl PartialEq for AppPage {
    fn eq(&self, o: &AppPage) -> (r: bool) {
        match (self, o) {
            (AppPage::Dashboard, AppPage::Dashboard) => true,
            (AppPage::ResourceList(a), AppPage::ResourceList(b)) => *a == *b,
            (AppPage::ResourceDetail(a, x), AppPage::ResourceDetail(b, y)) => *a == *b && *x == *y,
            (AppPage::Settings, AppPage::Settings) => true,
            _ => false,
        }
    }
}

impl vstd::std_specs::cmp::PartialEqSpecImpl for AppPage {
    open spec fn obeys_eq_spec() -> bool {
        true
    }

    open spec fn eq_spec(&self, o: &AppPage) -> bool {
        self@ == o@
    }
}

impl Eq for AppPage {
}

impl AppPage {
    /// The service this page shows, if any.
    pub fn service(&self) -> (r: Option<ServiceType>)
        ensures
            r == page_service(self@),
    {
        match self {
            AppPage::ResourceList(s) => Some(*s),
            AppPage::ResourceDetail(s, _) => Some(*s),
            _ => None,
        }
    }
}

} // verus!

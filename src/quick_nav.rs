use vstd::prelude::*;
use vstd::string::*;
use crate::commands::{clone_strings, strings_view};
use crate::page::PageView;
use crate::palette::any_contains;
use crate::service::{ServiceType, all_services, service_display_name, service_icon};
use crate::state::{NavigationAction, NavigationItem, nav_target};
use crate::text::{lower_of, lowercase, seq_contains};

verus! {

/// Model of a quick-navigation entry: its texts and the page it leads to.
pub struct NavItemView {
    pub name: Seq<char>,
    pub description: Seq<char>,
    pub target: PageView,
    pub icon: Seq<char>,
    pub keywords: Seq<Seq<char>>,
}

impl View for NavigationItem {
    type V = NavItemView;

    open spec fn view(&self) -> NavItemView {
        NavItemView {
            name: self.name@,
            description: self.description@,
            target: nav_target(self.action),
            icon: self.icon@,
            keywords: strings_view(self.keywords@),
        }
    }
}

impl Clone for NavigationAction {
    fn clone(&self) -> (r: Self)
        ensures
            nav_target(r) == nav_target(*self),
    {
        match self {
            NavigationAction::NavigateToService(s) => NavigationAction::NavigateToService(*s),
            NavigationAction::NavigateToResource(s, id) => NavigationAction::NavigateToResource(*s, id.clone()),
        }
    }
}

impl Clone for NavigationItem {
    fn clone(&self) -> (r: Self)
        ensures
            r@ == self@,
    {
        NavigationItem {
            name: self.name.clone(),
            description: self.description.clone(),
            action: self.action.clone(),
            icon: self.icon.clone(),
            keywords: clone_strings(&self.keywords),
        }
    }
}

/// Search keywords of a service in the quick-navigation overlay.
pub open spec fn nav_keywords(s: ServiceType) -> Seq<Seq<char>> {
    match s {
        ServiceType::EC2 => seq!["ec2"@, "compute"@, "instances"@, "virtual"@],
        ServiceType::S3 => seq!["s3"@, "storage"@, "bucket"@, "object"@],
        ServiceType::RDS => seq!["rds"@, "database"@, "mysql"@, "postgres"@],
        ServiceType::IAM => seq!["iam"@, "identity"@, "access"@, "users"@, "roles"@],
        ServiceType::Secrets => seq!["secrets"@, "secret"@, "password"@, "keys"@],
        ServiceType::EKS => seq!["eks"@, "kubernetes"@, "k8s"@, "cluster"@],
    }
}

/// The quick-navigation entry of a service.
pub open spec fn nav_item(s: ServiceType) -> NavItemView {
    NavItemView {
        name: service_display_name(s),
        description: "Browse "@ + service_display_name(s) + " resources"@,
        target: PageView::ResourceList(s),
        icon: service_icon(s),
        keywords: nav_keywords(s),
    }
}

/// The quick-navigation entries of all services, in catalog order.
pub open spec fn nav_items() -> Seq<NavItemView> {
    all_services().map_values(|s: ServiceType| nav_item(s))
}

/// An entry matches a lower-case query when its lower-cased name, description or
/// one of its keywords contains the query.
pub open spec fn item_matches(item: NavItemView, q: Seq<char>) -> bool {
    ||| seq_contains(lower_of(item.name), q)
    ||| seq_contains(lower_of(item.description), q)
    ||| exists|k: int| 0 <= k < item.keywords.len() && seq_contains(lower_of(#[trigger] item.keywords[k]), q)
}

/// Predicate form of `item_matches`.
pub open spec fn matching(q: Seq<char>) -> spec_fn(NavItemView) -> bool {
    |item: NavItemView| item_matches(item, q)
}

/// The entries shown for an input: all for an empty input, else those matching
/// the lower-cased input, in catalog order.
pub open spec fn suggestions_for(input: Seq<char>) -> Seq<NavItemView> {
    if input.len() == 0 {
        nav_items()
    } else {
        nav_items().filter(matching(lower_of(input)))
    }
}

pub open spec fn items_view(v: Seq<NavigationItem>) -> Seq<NavItemView> {
    v.map_values(|i: NavigationItem| i@)
}

/// Search keywords of a service in the quick-navigation overlay.
pub fn navigation_keywords(service: ServiceType) -> (r: Vec<String>)
    ensures
        strings_view(r@) == nav_keywords(service),
{
    let r = match service {
        ServiceType::EC2 => vec!["ec2".to_string(), "compute".to_string(), "instances".to_string(), "virtual".to_string()],
        ServiceType::S3 => vec!["s3".to_string(), "storage".to_string(), "bucket".to_string(), "object".to_string()],
        ServiceType::RDS => vec!["rds".to_string(), "database".to_string(), "mysql".to_string(), "postgres".to_string()],
        ServiceType::IAM => vec!["iam".to_string(), "identity".to_string(), "access".to_string(), "users".to_string(), "roles".to_string()],
        ServiceType::Secrets => vec!["secrets".to_string(), "secret".to_string(), "password".to_string(), "keys".to_string()],
        ServiceType::EKS => vec!["eks".to_string(), "kubernetes".to_string(), "k8s".to_string(), "cluster".to_string()],
    };
    assert(strings_view(r@) =~= nav_keywords(service));
    r
}

fn service_item(s: ServiceType) -> (r: NavigationItem)
    ensures
        r@ == nav_item(s),
{
    let mut description = String::from_str("Browse ");
    description.append(s.display_name());
    description.append(" resources");
    NavigationItem {
        name: s.display_name().to_string(),
        description,
        action: NavigationAction::NavigateToService(s),
        icon: s.icon().to_string(),
        keywords: navigation_keywords(s),
    }
}

/// One quick-navigation entry per service, in catalog order.
pub fn create_navigation_items() -> (r: Vec<NavigationItem>)
    ensures
        items_view(r@) == nav_items(),
{
    let services = ServiceType::all();
    let mut r: Vec<NavigationItem> = Vec::new();
    let mut k: usize = 0;
    while k < services.len()
        invariant
            services@ == all_services(),
            k <= 6,
            r@.len() == k,
            forall|j: int| 0 <= j < k ==> (#[trigger] r@[j])@ == nav_item(all_services()[j]),
        decreases 6 - k,
    {
        r.push(service_item(services[k]));
        k = k + 1;
    }
    assert(items_view(r@) =~= nav_items());
    r
}

/// Whether an entry matches a query that is already lower-case.
pub fn navigation_item_matches(item: &NavigationItem, query: &str) -> (r: bool)
    ensures
        r == item_matches(item@, query@),
{
    let mut texts: Vec<String> = Vec::new();
    texts.push(lowercase(item.name.as_str()));
    texts.push(lowercase(item.description.as_str()));
    let mut i: usize = 0;
    while i < item.keywords.len()
        invariant
            i <= item.keywords@.len(),
            texts@.len() == 2 + i,
            texts@[0]@ == lower_of(item@.name),
            texts@[1]@ == lower_of(item@.description),
            forall|k: int| 0 <= k < i ==> (#[trigger] texts@[2 + k])@ == lower_of(item@.keywords[k]),
        decreases item.keywords.len() - i,
    {
        texts.push(lowercase(item.keywords[i].as_str()));
        i = i + 1;
    }
    let r = any_contains(&texts, query);
    proof {
        let q = query@;
        if item_matches(item@, q) {
            if seq_contains(lower_of(item@.name), q) {
                assert(seq_contains(texts@[0]@, q));
            } else if seq_contains(lower_of(item@.description), q) {
                assert(seq_contains(texts@[1]@, q));
            } else {
                let k = choose|k: int|
                    0 <= k < item@.keywords.len() && seq_contains(lower_of(#[trigger] item@.keywords[k]), q);
                assert(seq_contains(texts@[2 + k]@, q));
            }
        }
        if r {
            let k = choose|k: int| 0 <= k < texts@.len() && seq_contains(#[trigger] texts@[k]@, q);
            if k >= 2 {
                assert(texts@[2 + (k - 2)]@ == lower_of(item@.keywords[k - 2]));
            }
        }
    }
    r
}

/// The quick-navigation entries shown for `input`.
pub fn quick_nav_suggestions(input: &str) -> (r: Vec<NavigationItem>)
    ensures
        items_view(r@) == suggestions_for(input@),
{
    let all = create_navigation_items();
    if input.is_empty() {
        return all;
    }
    let query = lowercase(input);
    let ghost cs = items_view(all@);
    let ghost p = matching(lower_of(input@));
    let mut out: Vec<NavigationItem> = Vec::new();
    let mut i: usize = 0;
    while i < all.len()
        invariant
            cs == items_view(all@),
            cs == nav_items(),
            p == matching(lower_of(input@)),
            query@ == lower_of(input@),
            i <= all@.len(),
            items_view(out@) == cs.take(i as int).filter(p),
        decreases all.len() - i,
    {
        proof {
            assert(cs.take(i + 1) == cs.take(i as int).push(cs[i as int]));
            cs.take(i as int).lemma_filter_push(cs[i as int], p);
        }
        if navigation_item_matches(&all[i], query.as_str()) {
            let ghost before = out@;
            out.push(all[i].clone());
            assert(items_view(out@) =~= items_view(before).push(cs[i as int]));
        }
        i = i + 1;
    }
    assert(cs.take(all@.len() as int) == cs);
    out
}

} // verus!

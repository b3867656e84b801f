use vstd::prelude::*;
use vstd::string::*;
use crate::service::ServiceType;
use crate::text::{lower_of, lowercase, seq_contains, str_eq, text_contains};

verus! {

/// One recorded action on a resource; the time is in seconds since the epoch.
#[derive(Debug)]
pub struct ActivityEntry {
    pub timestamp: i64,
    pub action: String,
    pub resource_id: String,
    pub resource_name: String,
    pub service_type: ServiceType,
    pub region: String,
}

/// Model of an activity entry.
pub struct EntryView {
    pub timestamp: i64,
    pub action: Seq<char>,
    pub resource_id: Seq<char>,
    pub resource_name: Seq<char>,
    pub service_type: ServiceType,
    pub region: Seq<char>,
}

impl View for ActivityEntry {
    type V = EntryView;

    open spec fn view(&self) -> EntryView {
        EntryView {
            timestamp: self.timestamp,
            action: self.action@,
            resource_id: self.resource_id@,
            resource_name: self.resource_name@,
            service_type: self.service_type,
            region: self.region@,
        }
    }
}

impl Clone for ActivityEntry {
    fn clone(&self) -> (r: Self)
        ensures
            r@ == self@,
    {
        ActivityEntry {
            timestamp: self.timestamp,
            action: self.action.clone(),
            resource_id: self.resource_id.clone(),
            resource_name: self.resource_name.clone(),
            service_type: self.service_type,
            region: self.region.clone(),
        }
    }
}

impl ActivityEntry {
    pub fn new(
        timestamp: i64,
        action: String,
        resource_id: String,
        resource_name: String,
        service_type: ServiceType,
        region: String,
    ) -> (r: Self)
        ensures
            r == (ActivityEntry { timestamp, action, resource_id, resource_name, service_type, region }),
    {
        ActivityEntry { timestamp, action, resource_id, resource_name, service_type, region }
    }

    pub fn created(
        timestamp: i64,
        resource_id: String,
        resource_name: String,
        service_type: ServiceType,
        region: String,
    ) -> (r: Self)
        ensures
            r@.action == "Created"@,
            r.resource_id == resource_id && r.resource_name == resource_name && r.region == region,
            r.service_type == service_type && r.timestamp == timestamp,
    {
        Self::new(timestamp, "Created".to_string(), resource_id, resource_name, service_type, region)
    }

    pub fn accessed(
        timestamp: i64,
        resource_id: String,
        resource_name: String,
        service_type: ServiceType,
        region: String,
    ) -> (r: Self)
        ensures
            r@.action == "Accessed"@,
            r.resource_id == resource_id && r.resource_name == resource_name && r.region == region,
            r.service_type == service_type && r.timestamp == timestamp,
    {
        Self::new(timestamp, "Accessed".to_string(), resource_id, resource_name, service_type, region)
    }

    pub fn modified(
        timestamp: i64,
        resource_id: String,
        resource_name: String,
        service_type: ServiceType,
        region: String,
    ) -> (r: Self)
        ensures
            r@.action == "Modified"@,
            r.resource_id == resource_id && r.resource_name == resource_name && r.region == region,
            r.service_type == service_type && r.timestamp == timestamp,
    {
        Self::new(timestamp, "Modified".to_string(), resource_id, resource_name, service_type, region)
    }

    pub fn deleted(
        timestamp: i64,
        resource_id: String,
        resource_name: String,
        service_type: ServiceType,
        region: String,
    ) -> (r: Self)
        ensures
            r@.action == "Deleted"@,
            r.resource_id == resource_id && r.resource_name == resource_name && r.region == region,
            r.service_type == service_type && r.timestamp == timestamp,
    {
        Self::new(timestamp, "Deleted".to_string(), resource_id, resource_name, service_type, region)
    }
}

pub open spec fn entries_view(v: Seq<ActivityEntry>) -> Seq<EntryView> {
    v.map_values(|e: ActivityEntry| e@)
}

/// Predicate: the entry is not about resource `id`.
pub open spec fn other_resource(id: Seq<char>) -> spec_fn(EntryView) -> bool {
    |e: EntryView| e.resource_id != id
}

/// Predicate: the entry is about service `s`.
pub open spec fn of_service(s: ServiceType) -> spec_fn(EntryView) -> bool {
    |e: EntryView| e.service_type == s
}

/// Predicate: the entry is in region `region`.
pub open spec fn in_region(region: Seq<char>) -> spec_fn(EntryView) -> bool {
    |e: EntryView| e.region == region
}

/// Predicate: the entry's action contains `text`.
pub open spec fn action_contains(text: Seq<char>) -> spec_fn(EntryView) -> bool {
    |e: EntryView| seq_contains(e.action, text)
}

/// Predicate: the entry is newer than `cutoff`.
pub open spec fn newer_than(cutoff: int) -> spec_fn(EntryView) -> bool {
    |e: EntryView| e.timestamp > cutoff
}

/// Predicate: the lower-cased name, id or action of the entry contains `q`.
pub open spec fn mentions(q: Seq<char>) -> spec_fn(EntryView) -> bool {
    |e: EntryView|
        seq_contains(lower_of(e.resource_name), q) || seq_contains(lower_of(e.resource_id), q)
            || seq_contains(lower_of(e.action), q)
}

/// The first `n` elements of `s`, or all of them when there are fewer.
pub open spec fn first_n<A>(s: Seq<A>, n: int) -> Seq<A> {
    if n < s.len() {
        s.take(n)
    } else {
        s
    }
}

/// Recent activity, most recent first, at most one entry per resource, and no
/// more than `max_items` entries once an entry has been added.
#[derive(Debug)]
pub struct RecentActivity {
    pub activities: Vec<ActivityEntry>,
    pub max_items: usize,
}

/// The ways entries are selected.
pub enum EntryFilter<'a> {
    OtherResource(&'a str),
    Service(ServiceType),
    Region(&'a str),
    ActionContains(&'a str),
    ActionIs(&'a str),
    NewerThan(i128),
    Mentions(&'a str),
}

/// The predicate a filter stands for.
pub open spec fn filter_pred(f: EntryFilter) -> spec_fn(EntryView) -> bool {
    match f {
        EntryFilter::OtherResource(id) => other_resource(id@),
        EntryFilter::Service(s) => of_service(s),
        EntryFilter::Region(r) => in_region(r@),
        EntryFilter::ActionContains(a) => action_contains(a@),
        EntryFilter::ActionIs(a) => action_is(a@),
        EntryFilter::NewerThan(c) => newer_than(c as int),
        EntryFilter::Mentions(q) => mentions(q@),
    }
}

/// Whether a filter selects an entry.
pub fn selects(f: &EntryFilter, e: &ActivityEntry) -> (r: bool)
    ensures
        r == filter_pred(*f)(e@),
{
    match f {
        EntryFilter::OtherResource(id) => !str_eq(e.resource_id.as_str(), id),
        EntryFilter::Service(s) => e.service_type == *s,
        EntryFilter::Region(r) => str_eq(e.region.as_str(), r),
        EntryFilter::ActionContains(a) => text_contains(e.action.as_str(), a),
        EntryFilter::ActionIs(a) => str_eq(e.action.as_str(), a),
        EntryFilter::NewerThan(c) => (e.timestamp as i128) > *c,
        EntryFilter::Mentions(q) => {
            let name = lowercase(e.resource_name.as_str());
            let id = lowercase(e.resource_id.as_str());
            let action = lowercase(e.action.as_str());
            text_contains(name.as_str(), q) || text_contains(id.as_str(), q) || text_contains(
                action.as_str(),
                q,
            )
        },
    }
}

/// The entries of `v` that `f` selects, in order.
fn retain_entries(v: &Vec<ActivityEntry>, f: &EntryFilter) -> (r: Vec<ActivityEntry>)
    ensures
        entries_view(r@) == entries_view(v@).filter(filter_pred(*f)),
{
    let ghost p = filter_pred(*f);
    let ghost es = entries_view(v@);
    let mut r: Vec<ActivityEntry> = Vec::new();
    let mut i: usize = 0;
    while i < v.len()
        invariant
            es == entries_view(v@),
            i <= v@.len(),
            p == filter_pred(*f),
            entries_view(r@) == es.take(i as int).filter(p),
        decreases v.len() - i,
    {
        proof {
            assert(es.take(i + 1) == es.take(i as int).push(es[i as int]));
            es.take(i as int).lemma_filter_push(es[i as int], p);
        }
        if selects(f, &v[i]) {
            let ghost before = r@;
            r.push(v[i].clone());
            assert(entries_view(r@) =~= entries_view(before).push(es[i as int]));
        }
        i = i + 1;
    }
    assert(es.take(v@.len() as int) == es);
    r
}

/// The first `n` entries of `v` (all of them when there are fewer).
fn first_entries(v: &Vec<ActivityEntry>, n: usize) -> (r: Vec<ActivityEntry>)
    ensures
        entries_view(r@) == first_n(entries_view(v@), n as int),
{
    let mut r: Vec<ActivityEntry> = Vec::new();
    let mut i: usize = 0;
    while i < v.len() && i < n
        invariant
            i <= v@.len(),
            i <= n,
            r@.len() == i,
            forall|j: int| 0 <= j < i ==> (#[trigger] r@[j])@ == v@[j]@,
        decreases v.len() - i,
    {
        r.push(v[i].clone());
        i = i + 1;
    }
    assert(entries_view(r@) =~= first_n(entries_view(v@), n as int));
    r
}

/// How many entries of `v` the filter `f` selects.
fn count_entries(v: &Vec<ActivityEntry>, f: &EntryFilter) -> (r: usize)
    ensures
        r == entries_view(v@).filter(filter_pred(*f)).len(),
{
    let ghost p = filter_pred(*f);
    let ghost es = entries_view(v@);
    let mut r: usize = 0;
    let mut i: usize = 0;
    while i < v.len()
        invariant
            es == entries_view(v@),
            i <= v@.len(),
            p == filter_pred(*f),
            r == es.take(i as int).filter(p).len(),
        decreases v.len() - i,
    {
        proof {
            assert(es.take(i + 1) == es.take(i as int).push(es[i as int]));
            es.take(i as int).lemma_filter_push(es[i as int], p);
            es.take(i as int).lemma_filter_len(p);
        }
        if selects(f, &v[i]) {
            r = r + 1;
        }
        i = i + 1;
    }
    assert(es.take(v@.len() as int) == es);
    r
}

/// Per-kind counts of the recorded activity.
#[derive(Debug)]
pub struct ActivitySummary {
    pub total_count: usize,
    pub service_counts: Vec<(ServiceType, usize)>,
    pub action_counts: Vec<(String, usize)>,
}

/// Some pair of `counts` is keyed by action `a`.
pub open spec fn action_listed(counts: Seq<(String, usize)>, a: Seq<char>) -> bool {
    exists|k: int| 0 <= k < counts.len() && counts[k].0@ == a
}

/// Predicate: the entry's action is exactly `a`.
pub open spec fn action_is(a: Seq<char>) -> spec_fn(EntryView) -> bool {
    |e: EntryView| e.action == a
}

impl RecentActivity {
    /// The store with the entries read back from disk.
    pub fn new(max_items: usize, loaded: Vec<ActivityEntry>) -> (r: Self)
        ensures
            r.activities == loaded,
            r.max_items == max_items,
    {
        RecentActivity { activities: loaded, max_items }
    }

    /// Puts `activity` first, drops the older entry of the same resource, and
    /// then the oldest entries beyond `max_items`.
    pub fn add_activity(&mut self, activity: ActivityEntry)
        ensures
            final(self).max_items == old(self).max_items,
            entries_view(final(self).activities@) == first_n(
                seq![activity@] + entries_view(old(self).activities@).filter(
                    other_resource(activity@.resource_id),
                ),
                old(self).max_items as int,
            ),
    {
        let id = activity.resource_id.clone();
        let others = retain_entries(&self.activities, &EntryFilter::OtherResource(id.as_str()));
        let ghost rest = entries_view(others@);
        let mut all: Vec<ActivityEntry> = vec![activity];
        let mut tail = others;
        let ghost head = all@;
        all.append(&mut tail);
        assert(entries_view(all@) =~= seq![head[0]@] + rest);
        self.activities = first_entries(&all, self.max_items);
    }

    /// The most recent entries, at most `limit` (or `max_items`) of them.
    pub fn get_recent_activities(&self, limit: Option<usize>) -> (r: Vec<ActivityEntry>)
        ensures
            entries_view(r@) == first_n(
                entries_view(self.activities@),
                match limit {
                    Some(n) => n as int,
                    None => self.max_items as int,
                },
            ),
    {
        let n = match limit {
            Some(n) => n,
            None => self.max_items,
        };
        first_entries(&self.activities, n)
    }

    /// The most recent entries of a service, at most `limit` (or `max_items`).
    pub fn get_recent_by_service(&self, service_type: ServiceType, limit: Option<usize>) -> (r: Vec<ActivityEntry>)
        ensures
            entries_view(r@) == first_n(
                entries_view(self.activities@).filter(of_service(service_type)),
                match limit {
                    Some(n) => n as int,
                    None => self.max_items as int,
                },
            ),
    {
        let n = match limit {
            Some(n) => n,
            None => self.max_items,
        };
        let matching = retain_entries(&self.activities, &EntryFilter::Service(service_type));
        first_entries(&matching, n)
    }

    /// The most recent entries in a region, at most `limit` (or `max_items`).
    pub fn get_recent_by_region(&self, region: &str, limit: Option<usize>) -> (r: Vec<ActivityEntry>)
        ensures
            entries_view(r@) == first_n(
                entries_view(self.activities@).filter(in_region(region@)),
                match limit {
                    Some(n) => n as int,
                    None => self.max_items as int,
                },
            ),
    {
        let n = match limit {
            Some(n) => n,
            None => self.max_items,
        };
        let matching = retain_entries(&self.activities, &EntryFilter::Region(region));
        first_entries(&matching, n)
    }

    /// The most recent entries whose action contains `action`, at most `limit`
    /// (or `max_items`).
    pub fn get_recent_by_action(&self, action: &str, limit: Option<usize>) -> (r: Vec<ActivityEntry>)
        ensures
            entries_view(r@) == first_n(
                entries_view(self.activities@).filter(action_contains(action@)),
                match limit {
                    Some(n) => n as int,
                    None => self.max_items as int,
                },
            ),
    {
        let n = match limit {
            Some(n) => n,
            None => self.max_items,
        };
        let matching = retain_entries(&self.activities, &EntryFilter::ActionContains(action));
        first_entries(&matching, n)
    }

    /// The most recent entry of a resource, if any.
    pub fn get_recent_for_resource(&self, resource_id: &str) -> (r: Option<ActivityEntry>)
        ensures
            match r {
                None => forall|j: int|
                    0 <= j < self.activities@.len() ==> (#[trigger] self.activities@[j])@.resource_id
                        != resource_id@,
                Some(e) => exists|i: int|
                    0 <= i < self.activities@.len() && e@ == (#[trigger] self.activities@[i])@
                        && e@.resource_id == resource_id@ && forall|j: int|
                        0 <= j < i ==> self.activities@[j]@.resource_id != resource_id@,
            },
    {
        let mut i: usize = 0;
        while i < self.activities.len()
            invariant
                i <= self.activities@.len(),
                forall|j: int| 0 <= j < i ==> (#[trigger] self.activities@[j])@.resource_id != resource_id@,
            decreases self.activities.len() - i,
        {
            if str_eq(self.activities[i].resource_id.as_str(), resource_id) {
                let e = self.activities[i].clone();
                assert(e@ == self.activities@[i as int]@);
                return Some(e);
            }
            i = i + 1;
        }
        None
    }

    /// Drops every entry of a resource.
    pub fn remove_activity(&mut self, resource_id: &str)
        ensures
            final(self).max_items == old(self).max_items,
            entries_view(final(self).activities@) == entries_view(old(self).activities@).filter(
                other_resource(resource_id@),
            ),
    {
        self.activities = retain_entries(&self.activities, &EntryFilter::OtherResource(resource_id));
    }

    /// Drops every entry.
    pub fn clear_activities(&mut self)
        ensures
            final(self).activities@.len() == 0,
            final(self).max_items == old(self).max_items,
    {
        self.activities = Vec::new();
    }

    /// Keeps the entries recorded less than `max_age` seconds before `now`.
    pub fn clear_old_activities(&mut self, now: i64, max_age: i64)
        ensures
            final(self).max_items == old(self).max_items,
            entries_view(final(self).activities@) == entries_view(old(self).activities@).filter(
                newer_than(now - max_age),
            ),
    {
        let cutoff: i128 = now as i128 - max_age as i128;
        self.activities = retain_entries(&self.activities, &EntryFilter::NewerThan(cutoff));
    }

    pub fn count(&self) -> (r: usize)
        ensures
            r == self.activities@.len(),
    {
        self.activities.len()
    }

    /// How many entries are about a service.
    pub fn count_by_service(&self, service_type: ServiceType) -> (r: usize)
        ensures
            r == entries_view(self.activities@).filter(of_service(service_type)).len(),
    {
        count_entries(&self.activities, &EntryFilter::Service(service_type))
    }

    /// The entries whose resource name, resource id or action contains the
    /// query, ignoring case.
    pub fn search(&self, query: &str) -> (r: Vec<ActivityEntry>)
        ensures
            entries_view(r@) == entries_view(self.activities@).filter(mentions(lower_of(query@))),
    {
        let q = lowercase(query);
        retain_entries(&self.activities, &EntryFilter::Mentions(q.as_str()))
    }

    /// Total count, the count of each service in catalog order, and the count of
    /// each distinct action in order of first appearance.
    pub fn get_activity_summary(&self) -> (r: ActivitySummary)
        ensures
            r.total_count == self.activities@.len(),
            r.service_counts@.len() == 6,
            forall|k: int|
                0 <= k < 6 ==> (#[trigger] r.service_counts@[k]).0 == crate::service::all_services()[k]
                    && r.service_counts@[k].1 == entries_view(self.activities@).filter(
                    of_service(crate::service::all_services()[k]),
                ).len(),
            forall|k: int|
                0 <= k < r.action_counts@.len() ==> (#[trigger] r.action_counts@[k]).1
                    == entries_view(self.activities@).filter(action_is(r.action_counts@[k].0@)).len(),
            forall|i: int|
                0 <= i < self.activities@.len() ==> action_listed(
                    r.action_counts@,
                    (#[trigger] self.activities@[i])@.action,
                ),
    {
        let services = ServiceType::all();
        let mut service_counts: Vec<(ServiceType, usize)> = Vec::new();
        let mut k: usize = 0;
        while k < services.len()
            invariant
                services@ == crate::service::all_services(),
                k <= 6,
                service_counts@.len() == k,
                forall|j: int|
                    0 <= j < k ==> (#[trigger] service_counts@[j]).0 == crate::service::all_services()[j]
                        && service_counts@[j].1 == entries_view(self.activities@).filter(
                        of_service(crate::service::all_services()[j]),
                    ).len(),
            decreases 6 - k,
        {
            let s = services[k];
            service_counts.push((s, self.count_by_service(s)));
            k = k + 1;
        }
        let mut action_counts: Vec<(String, usize)> = Vec::new();
        let mut i: usize = 0;
        while i < self.activities.len()
            invariant
                i <= self.activities@.len(),
                forall|k: int|
                    0 <= k < action_counts@.len() ==> (#[trigger] action_counts@[k]).1
                        == entries_view(self.activities@).filter(action_is(action_counts@[k].0@)).len(),
                forall|j: int|
                    0 <= j < i ==> action_listed(
                        action_counts@,
                        (#[trigger] self.activities@[j])@.action,
                    ),
            decreases self.activities.len() - i,
        {
            let a = &self.activities[i].action;
            let mut known = false;
            let mut k: usize = 0;
            while k < action_counts.len()
                invariant
                    k <= action_counts@.len(),
                    known ==> action_listed(action_counts@, a@),
                decreases action_counts.len() - k,
            {
                if str_eq(action_counts[k].0.as_str(), a.as_str()) {
                    known = true;
                    assert(action_counts@[k as int].0@ == a@);
                }
                k = k + 1;
            }
            if !known {
                let n = count_entries(&self.activities, &EntryFilter::ActionIs(a.as_str()));
                let ghost before = action_counts@;
                action_counts.push((a.clone(), n));
                assert forall|j: int| 0 <= j <= i implies action_listed(
                    action_counts@,
                    (#[trigger] self.activities@[j])@.action,
                ) by {
                    if j < i {
                        assert(action_listed(before, self.activities@[j]@.action));
                        let k = choose|k: int| 0 <= k < before.len() && before[k].0@ == self.activities@[j]@.action;
                        assert(action_counts@[k] == before[k]);
                    } else {
                        assert(action_counts@[before.len() as int].0@ == self.activities@[j]@.action);
                    }
                }
            } else {
                assert forall|j: int| 0 <= j <= i implies action_listed(
                    action_counts@,
                    (#[trigger] self.activities@[j])@.action,
                ) by {}
            }
            i = i + 1;
        }
        ActivitySummary { total_count: self.activities.len(), service_counts, action_counts }
    }
}

} // verus!

use vstd::prelude::*;
use crate::service::ServiceType;
use crate::text::{lower_of, lowercase, seq_contains, str_eq, text_contains};

verus! {

/// A resource the user marked as a favourite. Times are seconds since the epoch;
/// tags keep their order of insertion.
#[derive(Debug)]
pub struct FavoriteResource {
    pub id: String,
    pub name: String,
    pub service_type: ServiceType,
    pub region: String,
    pub arn: String,
    pub tags: Vec<(String, String)>,
    pub added_at: i64,
    pub last_accessed: i64,
    pub access_count: u32,
}

/// Model of a favourite.
pub struct FavoriteView {
    pub id: Seq<char>,
    pub name: Seq<char>,
    pub service_type: ServiceType,
    pub region: Seq<char>,
    pub arn: Seq<char>,
    pub tags: Seq<(Seq<char>, Seq<char>)>,
    pub added_at: i64,
    pub last_accessed: i64,
    pub access_count: u32,
}

pub open spec fn tags_view(t: Seq<(String, String)>) -> Seq<(Seq<char>, Seq<char>)> {
    t.map_values(|p: (String, String)| (p.0@, p.1@))
}

impl View for FavoriteResource {
    type V = FavoriteView;

    open spec fn view(&self) -> FavoriteView {
        FavoriteView {
            id: self.id@,
            name: self.name@,
            service_type: self.service_type,
            region: self.region@,
            arn: self.arn@,
            tags: tags_view(self.tags@),
            added_at: self.added_at,
            last_accessed: self.last_accessed,
            access_count: self.access_count,
        }
    }
}

fn clone_tags(t: &Vec<(String, String)>) -> (r: Vec<(String, String)>)
    ensures
        tags_view(r@) == tags_view(t@),
{
    let mut r: Vec<(String, String)> = Vec::new();
    let mut i: usize = 0;
    while i < t.len()
        invariant
            i <= t@.len(),
            r@.len() == i,
            forall|j: int| 0 <= j < i ==> (#[trigger] r@[j]).0@ == t@[j].0@ && r@[j].1@ == t@[j].1@,
        decreases t.len() - i,
    {
        r.push((t[i].0.clone(), t[i].1.clone()));
        i = i + 1;
    }
    assert(tags_view(r@) =~= tags_view(t@));
    r
}

impl Clone for FavoriteResource {
    fn clone(&self) -> (r: Self)
        ensures
            r@ == self@,
    {
        FavoriteResource {
            id: self.id.clone(),
            name: self.name.clone(),
            service_type: self.service_type,
            region: self.region.clone(),
            arn: self.arn.clone(),
            tags: clone_tags(&self.tags),
            added_at: self.added_at,
            last_accessed: self.last_accessed,
            access_count: self.access_count,
        }
    }
}

pub open spec fn favorites_view(v: Seq<FavoriteResource>) -> Seq<FavoriteView> {
    v.map_values(|f: FavoriteResource| f@)
}

pub open spec fn ids_of(v: Seq<FavoriteView>) -> Seq<Seq<char>> {
    v.map_values(|f: FavoriteView| f.id)
}

/// The ordering keys favourites are listed by.
#[derive(Debug, Clone, Copy, PartialEq, Eq, Structural)]
pub enum FavoriteOrder {
    LastAccessed,
    AccessCount,
    AddedAt,
}

/// The key of a favourite under an ordering.
pub open spec fn order_key(o: FavoriteOrder, f: FavoriteView) -> int {
    match o {
        FavoriteOrder::LastAccessed => f.last_accessed as int,
        FavoriteOrder::AccessCount => f.access_count as int,
        FavoriteOrder::AddedAt => f.added_at as int,
    }
}

fn key_of(o: FavoriteOrder, f: &FavoriteResource) -> (r: i64)
    ensures
        r as int == order_key(o, f@),
{
    match o {
        FavoriteOrder::LastAccessed => f.last_accessed,
        FavoriteOrder::AccessCount => f.access_count as i64,
        FavoriteOrder::AddedAt => f.added_at,
    }
}

/// Largest key first.
pub open spec fn sorted_desc(v: Seq<FavoriteView>, o: FavoriteOrder) -> bool {
    forall|i: int, j: int| 0 <= i < j < v.len() ==> order_key(o, v[i]) >= order_key(o, v[j])
}

/// `a` and `b` hold the same elements the same number of times.
pub open spec fn same_elements(a: Seq<FavoriteView>, b: Seq<FavoriteView>) -> bool {
    a.to_multiset() =~= b.to_multiset()
}

/// The favourites of `v` ordered by `o`, largest key first; favourites with the
/// same key keep their order.
pub fn sort_by_key(v: Vec<FavoriteResource>, o: FavoriteOrder) -> (r: Vec<FavoriteResource>)
    ensures
        sorted_desc(favorites_view(r@), o),
        same_elements(favorites_view(r@), favorites_view(v@)),
{
    broadcast use vstd::seq_lib::group_to_multiset_ensures;

    let ghost src = favorites_view(v@);
    let mut rest = v;
    let mut out: Vec<FavoriteResource> = Vec::new();
    assert(favorites_view(out@) =~= Seq::<FavoriteView>::empty());
    while rest.len() > 0
        invariant
            sorted_desc(favorites_view(out@), o),
            favorites_view(out@).to_multiset().add(favorites_view(rest@).to_multiset())
                =~= src.to_multiset(),
        decreases rest.len(),
    {
        let ghost rv = favorites_view(rest@);
        let x = rest.remove(0);
        let ghost xv = x@;
        assert(favorites_view(rest@) =~= rv.remove(0));
        assert(rv[0] == xv);
        let k = key_of(o, &x);
        let mut pos: usize = 0;
        let mut found = false;
        while pos < out.len() && !found
            invariant
                pos <= out@.len(),
                forall|j: int| 0 <= j < pos ==> order_key(o, (#[trigger] out@[j])@) >= k,
                found ==> pos < out@.len() && order_key(o, out@[pos as int]@) < k,
            decreases out.len() - pos + (if found { 0int } else { 1int }),
        {
            if key_of(o, &out[pos]) < k {
                found = true;
            } else {
                pos = pos + 1;
            }
        }
        let ghost before = out@;
        let ghost bv = favorites_view(before);
        out.insert(pos, x);
        proof {
            let ov = favorites_view(out@);
            assert(ov =~= bv.insert(pos as int, xv));
            assert forall|i: int, j: int| 0 <= i < j < ov.len() implies order_key(o, ov[i])
                >= order_key(o, ov[j]) by {
                if j < pos {
                    assert(ov[i] == bv[i] && ov[j] == bv[j]);
                } else if j == pos {
                    assert(ov[i] == bv[i]);
                    assert(order_key(o, before[i]@) >= k);
                } else if i == pos {
                    assert(ov[j] == bv[j - 1]);
                    assert(order_key(o, bv[pos as int]) >= order_key(o, bv[j - 1]));
                } else if i < pos {
                    assert(ov[i] == bv[i] && ov[j] == bv[j - 1]);
                } else {
                    assert(ov[i] == bv[i - 1] && ov[j] == bv[j - 1]);
                }
            }
            vstd::seq_lib::to_multiset_insert(bv, pos as int, xv);
            vstd::seq_lib::to_multiset_remove(rv, 0);
            assert(rv.contains(xv));
            vstd::seq_lib::to_multiset_contains(rv, xv);
        }
    }
    assert(favorites_view(rest@) =~= Seq::<FavoriteView>::empty());
    out
}

/// The value of the first tag with key `key`, if any.
pub open spec fn tag_value(tags: Seq<(Seq<char>, Seq<char>)>, key: Seq<char>) -> Option<Seq<char>>
    decreases tags.len(),
{
    if tags.len() == 0 {
        None
    } else if tags[0].0 == key {
        Some(tags[0].1)
    } else {
        tag_value(tags.drop_first(), key)
    }
}

fn find_tag(tags: &Vec<(String, String)>, key: &str) -> (r: Option<usize>)
    ensures
        match r {
            Some(i) => i < tags@.len() && tag_value(tags_view(tags@), key@) == Some(tags@[i as int].1@),
            None => tag_value(tags_view(tags@), key@) is None,
        },
{
    let ghost tv = tags_view(tags@);
    let mut i: usize = 0;
    assert(tv.skip(0) =~= tv);
    while i < tags.len()
        invariant
            tv == tags_view(tags@),
            i <= tags@.len(),
            tag_value(tv.skip(i as int), key@) == tag_value(tv, key@),
        decreases tags.len() - i,
    {
        assert(tv.skip(i as int).drop_first() =~= tv.skip(i + 1));
        assert(tv.skip(i as int)[0] == tv[i as int]);
        if str_eq(tags[i].0.as_str(), key) {
            return Some(i);
        }
        i = i + 1;
    }
    assert(tv.skip(i as int).len() == 0);
    None
}

/// The ways favourites are selected.
pub enum FavoriteFilter<'a> {
    OtherId(&'a str),
    Service(ServiceType),
    Tag(&'a str, Option<&'a str>),
    Mentions(&'a str),
}

/// A favourite carries tag `key`, with value `value` when one is given.
pub open spec fn has_tag(f: FavoriteView, key: Seq<char>, value: Option<Seq<char>>) -> bool {
    match tag_value(f.tags, key) {
        None => false,
        Some(v) => match value {
            None => true,
            Some(w) => v == w,
        },
    }
}

/// The lower-cased name, id or one tag value of the favourite contains `q`.
pub open spec fn favorite_mentions(f: FavoriteView, q: Seq<char>) -> bool {
    ||| seq_contains(lower_of(f.name), q)
    ||| seq_contains(lower_of(f.id), q)
    ||| exists|k: int| 0 <= k < f.tags.len() && seq_contains(lower_of(#[trigger] f.tags[k].1), q)
}

pub open spec fn opt_str(o: Option<&str>) -> Option<Seq<char>> {
    match o {
        Some(s) => Some(s@),
        None => None,
    }
}

/// The predicate a filter stands for.
pub open spec fn favorite_pred(f: FavoriteFilter) -> spec_fn(FavoriteView) -> bool {
    match f {
        FavoriteFilter::OtherId(id) => |v: FavoriteView| v.id != id@,
        FavoriteFilter::Service(s) => |v: FavoriteView| v.service_type == s,
        FavoriteFilter::Tag(k, w) => |v: FavoriteView| has_tag(v, k@, opt_str(w)),
        FavoriteFilter::Mentions(q) => |v: FavoriteView| favorite_mentions(v, q@),
    }
}

/// Whether a filter selects a favourite.
pub fn favorite_selected(filter: &FavoriteFilter, f: &FavoriteResource) -> (r: bool)
    ensures
        r == favorite_pred(*filter)(f@),
{
    match filter {
        FavoriteFilter::OtherId(id) => !str_eq(f.id.as_str(), id),
        FavoriteFilter::Service(s) => f.service_type == *s,
        FavoriteFilter::Tag(k, w) => match find_tag(&f.tags, k) {
            None => false,
            Some(i) => match w {
                None => true,
                Some(w) => str_eq(f.tags[i].1.as_str(), w),
            },
        },
        FavoriteFilter::Mentions(q) => {
            let name = lowercase(f.name.as_str());
            if text_contains(name.as_str(), q) {
                return true;
            }
            let id = lowercase(f.id.as_str());
            if text_contains(id.as_str(), q) {
                return true;
            }
            let mut i: usize = 0;
            while i < f.tags.len()
                invariant
                    *filter == FavoriteFilter::Mentions(*q),
                    i <= f.tags@.len(),
                    forall|k: int| 0 <= k < i ==> !seq_contains(lower_of((#[trigger] f@.tags[k]).1), q@),
                decreases f.tags.len() - i,
            {
                let v = lowercase(f.tags[i].1.as_str());
                if text_contains(v.as_str(), q) {
                    assert(f@.tags[i as int].1 == f.tags@[i as int].1@);
                    assert(seq_contains(lower_of(f@.tags[i as int].1), q@));
                    assert(favorite_mentions(f@, q@));
                    return true;
                }
                assert(f@.tags[i as int].1 == f.tags@[i as int].1@);
                i = i + 1;
            }
            false
        },
    }
}

/// The favourites of `v` that `filter` selects, in order.
fn select_favorites(v: &Vec<FavoriteResource>, filter: &FavoriteFilter) -> (r: Vec<FavoriteResource>)
    ensures
        favorites_view(r@) == favorites_view(v@).filter(favorite_pred(*filter)),
{
    let ghost fs = favorites_view(v@);
    let ghost p = favorite_pred(*filter);
    let mut r: Vec<FavoriteResource> = Vec::new();
    let mut i: usize = 0;
    while i < v.len()
        invariant
            fs == favorites_view(v@),
            p == favorite_pred(*filter),
            i <= v@.len(),
            favorites_view(r@) == fs.take(i as int).filter(p),
        decreases v.len() - i,
    {
        proof {
            assert(fs.take(i + 1) == fs.take(i as int).push(fs[i as int]));
            fs.take(i as int).lemma_filter_push(fs[i as int], p);
        }
        if favorite_selected(filter, &v[i]) {
            let ghost before = r@;
            r.push(v[i].clone());
            assert(favorites_view(r@) =~= favorites_view(before).push(fs[i as int]));
        }
        i = i + 1;
    }
    assert(fs.take(v@.len() as int) == fs);
    r
}

/// Copies of all favourites, in order.
fn copy_all(v: &Vec<FavoriteResource>) -> (r: Vec<FavoriteResource>)
    ensures
        favorites_view(r@) == favorites_view(v@),
{
    let mut r: Vec<FavoriteResource> = Vec::new();
    let mut i: usize = 0;
    while i < v.len()
        invariant
            i <= v@.len(),
            r@.len() == i,
            forall|j: int| 0 <= j < i ==> (#[trigger] r@[j])@ == v@[j]@,
        decreases v.len() - i,
    {
        r.push(v[i].clone());
        i = i + 1;
    }
    assert(favorites_view(r@) =~= favorites_view(v@));
    r
}

/// Ids are pairwise distinct.
pub open spec fn unique_ids(v: Seq<FavoriteView>) -> bool {
    forall|i: int, j: int| 0 <= i < v.len() && 0 <= j < v.len() && i != j ==> v[i].id != v[j].id
}

/// Favourite resources, one per id.
#[derive(Debug)]
pub struct FavoritesManager {
    pub favorites: Vec<FavoriteResource>,
}

impl FavoritesManager {
    pub open spec fn wf(&self) -> bool {
        unique_ids(favorites_view(self.favorites@))
    }

    /// The store with the favourites read back from disk; of several with the
    /// same id the last one stays.
    pub fn new(loaded: Vec<FavoriteResource>) -> (r: Self)
        ensures
            r.wf(),
            forall|i: int| 0 <= i < loaded@.len() ==> ids_of(favorites_view(r.favorites@)).contains(
                (#[trigger] loaded@[i])@.id,
            ),
    {
        let mut m = FavoritesManager { favorites: Vec::new() };
        let mut i: usize = 0;
        while i < loaded.len()
            invariant
                m.wf(),
                i <= loaded@.len(),
                forall|j: int| 0 <= j < i ==> ids_of(favorites_view(m.favorites@)).contains(
                    (#[trigger] loaded@[j])@.id,
                ),
            decreases loaded.len() - i,
        {
            let ghost before = ids_of(favorites_view(m.favorites@));
            m.add_favorite(loaded[i].clone());
            proof {
                assert forall|j: int| 0 <= j <= i implies ids_of(favorites_view(m.favorites@)).contains(
                    (#[trigger] loaded@[j])@.id,
                ) by {
                    if j < i {
                        let t = choose|t: int| 0 <= t < before.len() && before[t] == loaded@[j]@.id;
                        assert(ids_of(favorites_view(m.favorites@))[t] == before[t]);
                    } else {
                        let t = choose|t: int|
                            0 <= t < m.favorites@.len() && (#[trigger] m.favorites@[t])@ == loaded@[j]@;
                        assert(ids_of(favorites_view(m.favorites@))[t] == loaded@[j]@.id);
                    }
                }
            }
            i = i + 1;
        }
        m
    }

    fn position(&self, id: &str) -> (r: Option<usize>)
        ensures
            match r {
                Some(i) => i < self.favorites@.len() && self.favorites@[i as int]@.id == id@,
                None => forall|j: int| 0 <= j < self.favorites@.len() ==> (#[trigger] self.favorites@[j])@.id != id@,
            },
    {
        let mut i: usize = 0;
        while i < self.favorites.len()
            invariant
                i <= self.favorites@.len(),
                forall|j: int| 0 <= j < i ==> (#[trigger] self.favorites@[j])@.id != id@,
            decreases self.favorites.len() - i,
        {
            if str_eq(self.favorites[i].id.as_str(), id) {
                return Some(i);
            }
            i = i + 1;
        }
        None
    }

    /// Stores `resource`, replacing the favourite with the same id if there is one.
    pub fn add_favorite(&mut self, resource: FavoriteResource)
        requires
            old(self).wf(),
        ensures
            final(self).wf(),
            exists|i: int| 0 <= i < final(self).favorites@.len() && (#[trigger] final(self).favorites@[i])@ == resource@,
            ids_of(favorites_view(old(self).favorites@)).contains(resource@.id) ==> ids_of(
                favorites_view(final(self).favorites@),
            ) == ids_of(favorites_view(old(self).favorites@)),
            !ids_of(favorites_view(old(self).favorites@)).contains(resource@.id) ==> ids_of(
                favorites_view(final(self).favorites@),
            ) == ids_of(favorites_view(old(self).favorites@)).push(resource@.id),
            forall|j: int|
                0 <= j < old(self).favorites@.len() && (#[trigger] old(self).favorites@[j])@.id != resource@.id
                    ==> favorites_view(final(self).favorites@).contains(old(self).favorites@[j]@),
    {
        let ghost rv = resource@;
        let ghost ov = favorites_view(self.favorites@);
        match self.position(resource.id.as_str()) {
            Some(i) => {
                proof {
                    assert(ov[i as int] == old(self).favorites@[i as int]@);
                    assert(ids_of(ov)[i as int] == rv.id);
                }
                self.favorites.set(i, resource);
                proof {
                    let nv = favorites_view(self.favorites@);
                    assert(nv =~= ov.update(i as int, rv));
                    assert(ids_of(nv) =~= ids_of(ov));
                    assert forall|a: int, b: int| 0 <= a < nv.len() && 0 <= b < nv.len() && a != b implies nv[a].id != nv[b].id by {
                        assert(nv[a].id == ids_of(nv)[a] && ids_of(nv)[a] == ids_of(ov)[a] && ids_of(ov)[a] == ov[a].id);
                        assert(nv[b].id == ids_of(nv)[b] && ids_of(nv)[b] == ids_of(ov)[b] && ids_of(ov)[b] == ov[b].id);
                    }
                    assert(self.favorites@[i as int]@ == rv);
                    assert forall|j: int|
                        0 <= j < ov.len() && (#[trigger] old(self).favorites@[j])@.id != rv.id implies nv.contains(
                        old(self).favorites@[j]@,
                    ) by {
                        assert(j != i);
                        assert(nv[j] == ov[j]);
                    }
                }
            },
            None => {
                self.favorites.push(resource);
                proof {
                    let nv = favorites_view(self.favorites@);
                    assert(nv =~= ov.push(rv));
                    assert(ids_of(nv) =~= ids_of(ov).push(rv.id));
                    assert(self.favorites@[ov.len() as int]@ == rv);
                    if ids_of(ov).contains(rv.id) {
                        let t = choose|t: int| 0 <= t < ids_of(ov).len() && ids_of(ov)[t] == rv.id;
                        assert(old(self).favorites@[t]@.id == rv.id);
                    }
                    assert forall|a: int, b: int| 0 <= a < nv.len() && 0 <= b < nv.len() && a != b implies nv[a].id != nv[b].id by {
                        if a < ov.len() && b < ov.len() {
                            assert(nv[a] == ov[a] && nv[b] == ov[b]);
                        } else if a < ov.len() {
                            assert(nv[a] == ov[a] && ov[a] == old(self).favorites@[a]@);
                        } else {
                            assert(nv[b] == ov[b] && ov[b] == old(self).favorites@[b]@);
                        }
                    }
                    assert forall|j: int|
                        0 <= j < ov.len() && (#[trigger] old(self).favorites@[j])@.id != rv.id implies nv.contains(
                        old(self).favorites@[j]@,
                    ) by {
                        assert(nv[j] == ov[j]);
                    }
                }
            },
        }
    }

    /// Drops the favourite with that id, if any.
    pub fn remove_favorite(&mut self, resource_id: &str)
        requires
            old(self).wf(),
        ensures
            final(self).wf(),
            favorites_view(final(self).favorites@) == favorites_view(old(self).favorites@).filter(
                favorite_pred(FavoriteFilter::OtherId(resource_id)),
            ),
    {
        let kept = select_favorites(&self.favorites, &FavoriteFilter::OtherId(resource_id));
        proof {
            let p = favorite_pred(FavoriteFilter::OtherId(resource_id));
            let ov = favorites_view(self.favorites@);
            let nv = favorites_view(kept@);
            assert forall|i: int, j: int| 0 <= i < nv.len() && 0 <= j < nv.len() && i != j implies nv[i].id != nv[j].id by {
                lemma_filter_unique(ov, p);
            }
        }
        self.favorites = kept;
    }

    /// All favourites, most recently accessed first.
    pub fn get_favorites(&self) -> (r: Vec<FavoriteResource>)
        ensures
            sorted_desc(favorites_view(r@), FavoriteOrder::LastAccessed),
            same_elements(favorites_view(r@), favorites_view(self.favorites@)),
    {
        sort_by_key(copy_all(&self.favorites), FavoriteOrder::LastAccessed)
    }

    /// The favourites of a service, most recently accessed first.
    pub fn get_favorites_by_service(&self, service_type: ServiceType) -> (r: Vec<FavoriteResource>)
        ensures
            sorted_desc(favorites_view(r@), FavoriteOrder::LastAccessed),
            same_elements(
                favorites_view(r@),
                favorites_view(self.favorites@).filter(favorite_pred(FavoriteFilter::Service(service_type))),
            ),
    {
        sort_by_key(
            select_favorites(&self.favorites, &FavoriteFilter::Service(service_type)),
            FavoriteOrder::LastAccessed,
        )
    }

    /// The favourite with that id, if any.
    pub fn get_favorite(&self, resource_id: &str) -> (r: Option<&FavoriteResource>)
        ensures
            match r {
                Some(f) => f@.id == resource_id@ && self.favorites@.contains(*f),
                None => !ids_of(favorites_view(self.favorites@)).contains(resource_id@),
            },
    {
        match self.position(resource_id) {
            Some(i) => Some(&self.favorites[i]),
            None => {
                proof {
                    if ids_of(favorites_view(self.favorites@)).contains(resource_id@) {
                        let t = choose|t: int| 0 <= t < self.favorites@.len() && ids_of(favorites_view(self.favorites@))[t] == resource_id@;
                        assert(self.favorites@[t]@.id == resource_id@);
                    }
                }
                None
            },
        }
    }

    pub fn is_favorite(&self, resource_id: &str) -> (r: bool)
        ensures
            r == ids_of(favorites_view(self.favorites@)).contains(resource_id@),
    {
        let r = self.position(resource_id);
        proof {
            match r {
                Some(i) => {
                    assert(ids_of(favorites_view(self.favorites@))[i as int] == resource_id@);
                },
                None => {
                    if ids_of(favorites_view(self.favorites@)).contains(resource_id@) {
                        let t = choose|t: int| 0 <= t < self.favorites@.len() && ids_of(favorites_view(self.favorites@))[t] == resource_id@;
                        assert(self.favorites@[t]@.id == resource_id@);
                    }
                },
            }
        }
        r.is_some()
    }

    /// Records an access at time `now`: the favourite's last access becomes
    /// `now` and its count grows by one (staying at the largest count).
    pub fn update_access(&mut self, resource_id: &str, now: i64)
        requires
            old(self).wf(),
        ensures
            final(self).wf(),
            final(self).favorites@.len() == old(self).favorites@.len(),
            forall|j: int|
                0 <= j < old(self).favorites@.len() ==> {
                    let o = (#[trigger] old(self).favorites@[j])@;
                    let n = final(self).favorites@[j]@;
                    if o.id == resource_id@ {
                        n == FavoriteView {
                            last_accessed: now,
                            access_count: if o.access_count < u32::MAX {
                                (o.access_count + 1) as u32
                            } else {
                                o.access_count
                            },
                            ..o
                        }
                    } else {
                        n == o
                    }
                },
    {
        match self.position(resource_id) {
            Some(i) => {
                let mut f = self.favorites[i].clone();
                f.last_accessed = now;
                f.access_count = f.access_count.saturating_add(1);
                let ghost fv = f@;
                self.favorites.set(i, f);
                proof {
                    assert forall|j: int| 0 <= j < old(self).favorites@.len() implies {
                        let o = (#[trigger] old(self).favorites@[j])@;
                        let n = self.favorites@[j]@;
                        if o.id == resource_id@ {
                            n == FavoriteView {
                                last_accessed: now,
                                access_count: if o.access_count < u32::MAX {
                                    (o.access_count + 1) as u32
                                } else {
                                    o.access_count
                                },
                                ..o
                            }
                        } else {
                            n == o
                        }
                    } by {
                        if j != i {
                            let ov = favorites_view(old(self).favorites@);
                            assert(ov[j] == old(self).favorites@[j]@ && ov[i as int] == old(self).favorites@[i as int]@);
                            assert(ov[j].id != ov[i as int].id);
                        }
                    }
                    assert(favorites_view(self.favorites@) =~= favorites_view(old(self).favorites@).update(i as int, fv));
                    let nv = favorites_view(self.favorites@);
                    assert forall|a: int, b: int| 0 <= a < nv.len() && 0 <= b < nv.len() && a != b implies nv[a].id != nv[b].id by {
                        let ov = favorites_view(old(self).favorites@);
                        assert(ov[a].id != ov[b].id);
                        if a == i {
                            assert(nv[a].id == ov[a].id);
                        } else if b == i {
                            assert(nv[b].id == ov[b].id);
                        }
                    }
                }
            },
            None => {},
        }
    }

    /// The `limit` most accessed favourites, most accessed first.
    pub fn get_most_accessed(&self, limit: usize) -> (r: Vec<FavoriteResource>)
        ensures
            exists|all: Seq<FavoriteView>|
                sorted_desc(all, FavoriteOrder::AccessCount) && same_elements(all, favorites_view(self.favorites@))
                    && favorites_view(r@) == crate::recent::first_n(all, limit as int),
    {
        let sorted = sort_by_key(copy_all(&self.favorites), FavoriteOrder::AccessCount);
        let r = first_favorites(&sorted, limit);
        assert(sorted_desc(favorites_view(sorted@), FavoriteOrder::AccessCount));
        r
    }

    /// The `limit` most recently added favourites, newest first.
    pub fn get_recently_added(&self, limit: usize) -> (r: Vec<FavoriteResource>)
        ensures
            exists|all: Seq<FavoriteView>|
                sorted_desc(all, FavoriteOrder::AddedAt) && same_elements(all, favorites_view(self.favorites@))
                    && favorites_view(r@) == crate::recent::first_n(all, limit as int),
    {
        let sorted = sort_by_key(copy_all(&self.favorites), FavoriteOrder::AddedAt);
        let r = first_favorites(&sorted, limit);
        assert(sorted_desc(favorites_view(sorted@), FavoriteOrder::AddedAt));
        r
    }

    /// The favourites with tag `tag_key` (and value `tag_value`, if given), in order.
    pub fn get_by_tag(&self, tag_key: &str, tag_value: Option<&str>) -> (r: Vec<FavoriteResource>)
        ensures
            favorites_view(r@) == favorites_view(self.favorites@).filter(
                favorite_pred(FavoriteFilter::Tag(tag_key, tag_value)),
            ),
    {
        select_favorites(&self.favorites, &FavoriteFilter::Tag(tag_key, tag_value))
    }

    /// The favourites whose name, id or a tag value contains the query,
    /// ignoring case, in order.
    pub fn search(&self, query: &str) -> (r: Vec<FavoriteResource>)
        ensures
            favorites_view(r@) == favorites_view(self.favorites@).filter(
                |v: FavoriteView| favorite_mentions(v, lower_of(query@)),
            ),
    {
        let q = lowercase(query);
        let r = select_favorites(&self.favorites, &FavoriteFilter::Mentions(q.as_str()));
        r
    }

    pub fn count(&self) -> (r: usize)
        ensures
            r == self.favorites@.len(),
    {
        self.favorites.len()
    }

    /// How many favourites belong to a service.
    pub fn count_by_service(&self, service_type: ServiceType) -> (r: usize)
        ensures
            r == favorites_view(self.favorites@).filter(favorite_pred(FavoriteFilter::Service(service_type))).len(),
    {
        select_favorites(&self.favorites, &FavoriteFilter::Service(service_type)).len()
    }
}

/// The first `n` favourites of `v` (all of them when there are fewer).
fn first_favorites(v: &Vec<FavoriteResource>, n: usize) -> (r: Vec<FavoriteResource>)
    ensures
        favorites_view(r@) == crate::recent::first_n(favorites_view(v@), n as int),
{
    let mut r: Vec<FavoriteResource> = Vec::new();
    let mut i: usize = 0;
    while i < v.len() && i < n
        invariant
            i <= v@.len(),
            i <= n,
            r@.len() == i,
            forall|j: int| 0 <= j < i ==> (#[trigger] r@[j])@ == v@[j]@,
        decreases v.len() - i,
    {
        r.push(v[i].clone());
        i = i + 1;
    }
    assert(favorites_view(r@) =~= crate::recent::first_n(favorites_view(v@), n as int));
    r
}

/// Filtering keeps ids distinct.
pub proof fn lemma_filter_unique(v: Seq<FavoriteView>, p: spec_fn(FavoriteView) -> bool)
    requires
        unique_ids(v),
    ensures
        unique_ids(v.filter(p)),
    decreases v.len(),
{
    reveal(Seq::filter);
    if v.len() > 0 {
        let rest = v.drop_last();
        assert(unique_ids(rest)) by {
            assert forall|i: int, j: int| 0 <= i < rest.len() && 0 <= j < rest.len() && i != j implies rest[i].id != rest[j].id by {
                assert(rest[i] == v[i] && rest[j] == v[j]);
            }
        }
        lemma_filter_unique(rest, p);
        if p(v.last()) {
            let f = rest.filter(p);
            assert forall|k: int| 0 <= k < f.len() implies f[k].id != v.last().id by {
                rest.lemma_filter_pred(p, k);
                assert(f.contains(f[k]));
                rest.lemma_filter_contains_rev(p, f[k]);
                let t = choose|t: int| 0 <= t < rest.len() && rest[t] == f[k];
                assert(v[t] == rest[t]);
                assert(t != v.len() - 1);
            }
        }
    }
}

} // verus!

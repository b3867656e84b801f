use nimbus_ctl::favorites::{FavoriteResource, FavoritesManager};
use nimbus_ctl::service::ServiceType;

fn fav(id: &str, s: ServiceType, added: i64, accessed: i64, count: u32, tags: &[(&str, &str)]) -> FavoriteResource {
    FavoriteResource {
        id: id.to_string(),
        name: format!("Res {}", id),
        service_type: s,
        region: "us-east-1".to_string(),
        arn: format!("arn:aws:x:::{}", id),
        tags: tags.iter().map(|(k, v)| (k.to_string(), v.to_string())).collect(),
        added_at: added,
        last_accessed: accessed,
        access_count: count,
    }
}

fn ids(v: &[FavoriteResource]) -> Vec<String> {
    v.iter().map(|f| f.id.clone()).collect()
}

fn store() -> FavoritesManager {
    FavoritesManager::new(vec![
        fav("a", ServiceType::EC2, 1, 30, 5, &[("env", "prod")]),
        fav("b", ServiceType::S3, 2, 10, 9, &[("env", "dev"), ("team", "Blue")]),
        fav("c", ServiceType::EC2, 3, 20, 1, &[]),
    ])
}

#[test]
fn favourites_are_keyed_by_id() {
    let mut m = store();
    assert_eq!(m.count(), 3);
    m.add_favorite(fav("a", ServiceType::EC2, 1, 40, 6, &[]));
    assert_eq!(m.count(), 3);
    assert_eq!(m.get_favorite("a").unwrap().last_accessed, 40);
    assert!(m.is_favorite("b"));
    m.remove_favorite("b");
    assert!(!m.is_favorite("b"));
    assert!(m.get_favorite("b").is_none());
    assert_eq!(m.count(), 2);
    let dup = FavoritesManager::new(vec![
        fav("x", ServiceType::IAM, 1, 1, 1, &[]),
        fav("x", ServiceType::IAM, 2, 2, 2, &[]),
    ]);
    assert_eq!(dup.count(), 1);
    assert_eq!(dup.get_favorite("x").unwrap().added_at, 2);
}

#[test]
fn favourites_orderings() {
    let m = store();
    assert_eq!(ids(&m.get_favorites()), vec!["a", "c", "b"]);
    assert_eq!(ids(&m.get_favorites_by_service(ServiceType::EC2)), vec!["a", "c"]);
    assert_eq!(ids(&m.get_most_accessed(2)), vec!["b", "a"]);
    assert_eq!(ids(&m.get_recently_added(10)), vec!["c", "b", "a"]);
    assert_eq!(m.count_by_service(ServiceType::EC2), 2);
}

#[test]
fn favourites_access_tags_and_search() {
    let mut m = store();
    m.update_access("c", 99);
    let c = m.get_favorite("c").unwrap();
    assert_eq!(c.last_accessed, 99);
    assert_eq!(c.access_count, 2);
    assert_eq!(ids(&m.get_favorites())[0], "c");
    m.update_access("zzz", 100);
    assert_eq!(m.count(), 3);
    assert_eq!(ids(&m.get_by_tag("env", None)), vec!["a", "b"]);
    assert_eq!(ids(&m.get_by_tag("env", Some("dev"))), vec!["b"]);
    assert!(m.get_by_tag("owner", None).is_empty());
    assert_eq!(ids(&m.search("blue")), vec!["b"]);
    assert_eq!(ids(&m.search("RES C")), vec!["c"]);
    let mut top = store();
    top.add_favorite(fav("m", ServiceType::EKS, 1, 1, u32::MAX, &[]));
    top.update_access("m", 5);
    assert_eq!(top.get_favorite("m").unwrap().access_count, u32::MAX);
}

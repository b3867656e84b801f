use nimbus_ctl::recent::{ActivityEntry, RecentActivity};
use nimbus_ctl::service::ServiceType;

fn entry(t: i64, action: &str, id: &str, s: ServiceType, region: &str) -> ActivityEntry {
    ActivityEntry::new(t, action.to_string(), id.to_string(), format!("Name {}", id), s, region.to_string())
}

fn ids(v: &[ActivityEntry]) -> Vec<String> {
    v.iter().map(|e| e.resource_id.clone()).collect()
}

#[test]
fn add_moves_to_front_and_evicts_oldest() {
    let mut r = RecentActivity::new(3, Vec::new());
    r.add_activity(entry(1, "Created", "a", ServiceType::EC2, "us-east-1"));
    r.add_activity(entry(2, "Created", "b", ServiceType::S3, "us-east-1"));
    r.add_activity(entry(3, "Created", "c", ServiceType::EC2, "eu-west-1"));
    assert_eq!(ids(&r.activities), vec!["c", "b", "a"]);
    r.add_activity(entry(4, "Accessed", "a", ServiceType::EC2, "us-east-1"));
    assert_eq!(ids(&r.activities), vec!["a", "c", "b"]);
    r.add_activity(entry(5, "Created", "d", ServiceType::RDS, "us-east-1"));
    assert_eq!(ids(&r.activities), vec!["d", "a", "c"]);
    assert_eq!(r.count(), 3);
    let mut zero = RecentActivity::new(0, Vec::new());
    zero.add_activity(entry(1, "Created", "a", ServiceType::EC2, "x"));
    assert_eq!(zero.count(), 0);
}

#[test]
fn queries_and_limits() {
    let mut r = RecentActivity::new(10, Vec::new());
    r.add_activity(entry(1, "Created", "a", ServiceType::EC2, "us-east-1"));
    r.add_activity(entry(2, "Modified", "b", ServiceType::S3, "eu-west-1"));
    r.add_activity(entry(3, "Deleted", "c", ServiceType::EC2, "eu-west-1"));
    assert_eq!(ids(&r.get_recent_activities(Some(2))), vec!["c", "b"]);
    assert_eq!(ids(&r.get_recent_activities(None)), vec!["c", "b", "a"]);
    assert_eq!(ids(&r.get_recent_by_service(ServiceType::EC2, None)), vec!["c", "a"]);
    assert_eq!(ids(&r.get_recent_by_service(ServiceType::EC2, Some(1))), vec!["c"]);
    assert_eq!(ids(&r.get_recent_by_region("eu-west-1", None)), vec!["c", "b"]);
    assert_eq!(ids(&r.get_recent_by_action("ified", None)), vec!["b"]);
    assert_eq!(r.get_recent_for_resource("b").unwrap().action, "Modified");
    assert!(r.get_recent_for_resource("z").is_none());
    assert_eq!(r.count_by_service(ServiceType::EC2), 2);
    assert_eq!(ids(&r.search("NAME B")), vec!["b"]);
    assert_eq!(ids(&r.search("deleted")), vec!["c"]);
    r.remove_activity("b");
    assert_eq!(ids(&r.activities), vec!["c", "a"]);
    r.clear_old_activities(10, 8);
    assert_eq!(ids(&r.activities), vec!["c"]);
    r.clear_activities();
    assert_eq!(r.count(), 0);
}

#[test]
fn activity_summary_counts() {
    let mut r = RecentActivity::new(10, Vec::new());
    r.add_activity(ActivityEntry::created(1, "a".to_string(), "A".to_string(), ServiceType::EC2, "x".to_string()));
    r.add_activity(ActivityEntry::accessed(2, "b".to_string(), "B".to_string(), ServiceType::EC2, "x".to_string()));
    r.add_activity(ActivityEntry::created(3, "c".to_string(), "C".to_string(), ServiceType::IAM, "x".to_string()));
    r.add_activity(ActivityEntry::modified(4, "d".to_string(), "D".to_string(), ServiceType::EKS, "x".to_string()));
    r.add_activity(ActivityEntry::deleted(5, "e".to_string(), "E".to_string(), ServiceType::EKS, "x".to_string()));
    let s = r.get_activity_summary();
    assert_eq!(s.total_count, 5);
    assert_eq!(s.service_counts[0], (ServiceType::EC2, 2));
    assert_eq!(s.service_counts[3], (ServiceType::IAM, 1));
    assert_eq!(s.service_counts[5], (ServiceType::EKS, 2));
    let created = s.action_counts.iter().find(|(a, _)| a == "Created").unwrap();
    assert_eq!(created.1, 2);
    assert_eq!(s.action_counts.len(), 4);
}

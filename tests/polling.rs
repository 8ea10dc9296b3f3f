use lab_status::icons::{default_icon_set, IconSet};
use lab_status::probe::{aggregate_health, probe_targets, status_report};
use lab_status::scheduler::Scheduler;
use lab_status::service::Service;
use lab_status::store::HealthStore;

fn svc(name: &str, ip: &str, port: &str) -> Service {
    Service::new(name.to_string(), ip.to_string(), port.to_string())
}

#[test]
fn first_tick_probes_despite_ten_second_interval() {
    let store = HealthStore::with_defaults();
    let sched = Scheduler::new();
    assert_eq!(store.get_interval(), 10);
    assert!(sched.is_due(0, store.get_interval()));
    assert!(sched.is_due(500, store.get_interval()));
}

#[test]
fn interval_throttles_after_a_probe() {
    let store = HealthStore::with_defaults();
    let mut sched = Scheduler::new();
    let snap = store.poll_snapshot();
    sched.finish(1_000, &snap, &vec![true, true]);
    assert_eq!(sched.last_check_ms(), Some(1_000));
    assert!(!sched.is_due(2_000, 10));
    assert!(!sched.is_due(10_999, 10));
    assert!(sched.is_due(11_000, 10));
    // an interval change applies to the next check
    assert!(sched.is_due(2_000, 1));
}

#[test]
fn zero_interval_probes_every_tick() {
    let mut sched = Scheduler::new();
    let store = HealthStore::with_defaults();
    sched.finish(5_000, &store.poll_snapshot(), &vec![true, false]);
    assert!(sched.is_due(5_000, 0));
    assert!(sched.is_due(6_000, 0));
    assert!(sched.is_due(4_000, 0));
}

#[test]
fn aggregate_of_no_services_is_healthy() {
    assert!(aggregate_health(&vec![]));
}

#[test]
fn aggregate_with_one_down_is_unhealthy() {
    assert!(!aggregate_health(&vec![true, false, true]));
    assert!(!aggregate_health(&vec![false]));
}

#[test]
fn aggregate_with_all_up_is_healthy() {
    assert!(aggregate_health(&vec![true, true, true]));
}

#[test]
fn targets_join_host_and_port() {
    let services = vec![svc("a", "8.8.8.8", "53"), svc("b", "bad host", "x")];
    let targets = probe_targets(&services);
    assert_eq!(targets, vec!["8.8.8.8:53".to_string(), "bad host:x".to_string()]);
}

#[test]
fn report_keeps_service_order() {
    let services = vec![svc("a", "h", "1"), svc("b", "h", "2"), svc("c", "h", "3")];
    let r = status_report(&services, &vec![true, false, true], IconSet::Alt);
    assert!(!r.healthy);
    assert_eq!(r.icon_set, IconSet::Alt);
    let got: Vec<(String, bool)> = r.entries.iter().map(|e| (e.name.clone(), e.healthy)).collect();
    assert_eq!(
        got,
        vec![("a".to_string(), true), ("b".to_string(), false), ("c".to_string(), true)]
    );
}

#[test]
fn icon_files_per_preference() {
    assert_eq!(IconSet::Default.icon_file(true), "green.png");
    assert_eq!(IconSet::Default.icon_file(false), "red.png");
    assert_eq!(IconSet::Alt.icon_file(true), "checked.png");
    assert_eq!(IconSet::Alt.icon_file(false), "cross.png");
    assert!(IconSet::Alt.is_template());
    assert!(!IconSet::Default.is_template());
}

#[test]
fn icon_set_names() {
    assert_eq!(default_icon_set(), "default");
    assert_eq!(IconSet::from_name("alt"), IconSet::Alt);
    assert_eq!(IconSet::from_name("default"), IconSet::Default);
    assert_eq!(IconSet::from_name(""), IconSet::Default);
    assert_eq!(IconSet::Alt.name(), "alt");
    assert_eq!(IconSet::Default.name(), "default");
}

#[test]
fn duplicate_keeps_fields() {
    let s = svc("n", "1.1.1.1", "443");
    let d = s.duplicate();
    assert_eq!((d.name, d.ip, d.port), ("n".to_string(), "1.1.1.1".to_string(), "443".to_string()));
}

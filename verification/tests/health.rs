use lb_proxy::health::evaluate_probe;
use lb_proxy::health::finish_probe;
use lb_proxy::health::HealthChecker;
use lb_proxy::health::ProbeStatus;
use lb_proxy::registry::Health;
use lb_proxy::registry::Registry;
use lb_proxy::selection::RoundRobin;
use lb_proxy::selection::Selection;

fn addrs(list: &[&str]) -> Vec<String> {
    list.iter().map(|a| String::from(*a)).collect()
}

fn snapshot_addrs(reg: &Registry) -> Vec<String> {
    reg.healthy_snapshot().into_iter().map(|b| b.addr).collect()
}

#[test]
fn silent_probe_fails_exactly_when_its_timeout_elapses() {
    // Not immediately: while the timeout has not elapsed the probe is
    // still pending, down to the last millisecond.
    assert_eq!(evaluate_probe(None, 0, 1000), ProbeStatus::Pending);
    assert_eq!(evaluate_probe(None, 999, 1000), ProbeStatus::Pending);
    // Not indefinitely: from the instant the timeout elapses it is a
    // failure.
    assert_eq!(evaluate_probe(None, 1000, 1000), ProbeStatus::Failure);
    assert_eq!(evaluate_probe(None, 5000, 1000), ProbeStatus::Failure);
}

#[test]
fn answered_probe_is_judged_by_its_reply() {
    assert_eq!(evaluate_probe(Some(true), 3, 1000), ProbeStatus::Success);
    assert_eq!(evaluate_probe(Some(false), 3, 1000), ProbeStatus::Failure);
    // A reply that only lands after the timeout does not count.
    assert_eq!(evaluate_probe(Some(true), 1001, 1000), ProbeStatus::Failure);
}

#[test]
fn finished_probe_reports_latency_only_on_success() {
    let ok = finish_probe(ProbeStatus::Success, 42);
    assert!(ok.success);
    assert_eq!(ok.latency_ms, Some(42));
    let bad = finish_probe(ProbeStatus::Failure, 42);
    assert!(!bad.success);
    assert_eq!(bad.latency_ms, None);
}

#[test]
fn one_cycle_with_tcp_probes_takes_the_dead_backend_out() {
    // Three backends; the third never accepts connections. After one
    // 2-second-interval check cycle the snapshot is exactly the first two,
    // in registration order, and selection alternates between them and
    // never returns the third.
    let mut reg = Registry::new(&addrs(&["127.0.0.1:81", "127.0.0.1:82", "127.0.0.1:83"]));
    let mut hc = HealthChecker::new(reg.len(), 2000, 1000, 1);

    // The runtime probed :81 and :82 with a completed TCP connect; :83's
    // connect never completed and its timeout elapsed.
    let results = vec![
        evaluate_probe(Some(true), 3, 1000) == ProbeStatus::Success,
        evaluate_probe(Some(true), 7, 1000) == ProbeStatus::Success,
        evaluate_probe(None, 1000, 1000) == ProbeStatus::Success,
    ];
    hc.apply_cycle(&mut reg, &results);

    assert_eq!(snapshot_addrs(&reg), ["127.0.0.1:81", "127.0.0.1:82"]);

    let snap = reg.healthy_snapshot();
    let mut rr = RoundRobin::new();
    let mut seen = Vec::new();
    for _ in 0..6 {
        match rr.select(&snap) {
            Selection::Chosen(b) => seen.push(b.addr),
            Selection::NoneAvailable => panic!("two backends are healthy"),
        }
    }
    assert_eq!(
        seen,
        [
            "127.0.0.1:81",
            "127.0.0.1:82",
            "127.0.0.1:81",
            "127.0.0.1:82",
            "127.0.0.1:81",
            "127.0.0.1:82"
        ]
    );
}

#[test]
fn single_failure_flips_health_at_baseline_threshold() {
    let mut reg = Registry::new(&addrs(&["a"]));
    let mut hc = HealthChecker::new(1, 2000, 1000, 1);
    hc.apply_cycle(&mut reg, &vec![false]);
    assert_eq!(reg.health(0), Health::Unhealthy);
    // A later success brings it straight back.
    hc.apply_cycle(&mut reg, &vec![true]);
    assert_eq!(reg.health(0), Health::Healthy);
}

#[test]
fn flap_damping_waits_for_the_configured_streak() {
    let mut reg = Registry::new(&addrs(&["a"]));
    let mut hc = HealthChecker::new(1, 2000, 1000, 3);
    hc.apply_cycle(&mut reg, &vec![false]);
    assert_eq!(reg.health(0), Health::Healthy);
    hc.apply_cycle(&mut reg, &vec![false]);
    assert_eq!(reg.health(0), Health::Healthy);
    hc.apply_cycle(&mut reg, &vec![false]);
    assert_eq!(reg.health(0), Health::Unhealthy);
}

#[test]
fn one_success_resets_the_failure_streak() {
    let mut reg = Registry::new(&addrs(&["a"]));
    let mut hc = HealthChecker::new(1, 2000, 1000, 2);
    hc.apply_cycle(&mut reg, &vec![false]);
    hc.apply_cycle(&mut reg, &vec![true]);
    // The streak started over, so one more failure is not enough to flip.
    hc.apply_cycle(&mut reg, &vec![false]);
    assert_eq!(reg.health(0), Health::Healthy);
    hc.apply_cycle(&mut reg, &vec![false]);
    assert_eq!(reg.health(0), Health::Unhealthy);
}

#[test]
fn one_backend_failure_never_touches_the_others() {
    let mut reg = Registry::new(&addrs(&["a", "b", "c"]));
    let mut hc = HealthChecker::new(3, 2000, 1000, 1);
    hc.apply_cycle(&mut reg, &vec![true, false, true]);
    assert_eq!(reg.health(0), Health::Healthy);
    assert_eq!(reg.health(1), Health::Unhealthy);
    assert_eq!(reg.health(2), Health::Healthy);
    assert_eq!(*reg.addr(1), "b");
}

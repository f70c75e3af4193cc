use lb_proxy::registry::Backend;
use lb_proxy::registry::Health;
use lb_proxy::selection::RoundRobin;
use lb_proxy::selection::Selection;
use lb_proxy::selection::SelectionPolicy;

fn snapshot_of(addrs: &[&str]) -> Vec<Backend> {
    let mut v = Vec::new();
    for a in addrs {
        v.push(Backend { addr: String::from(*a), health: Health::Healthy });
    }
    v
}

fn chosen_addr(s: Selection) -> String {
    match s {
        Selection::Chosen(b) => b.addr,
        Selection::NoneAvailable => panic!("expected a chosen backend"),
    }
}

#[test]
fn round_robin_visits_each_backend_fairly() {
    // 3 backends, 7 sequential calls: each visited at least 7/3 = 2 and at
    // most 3 times.
    let snap = snapshot_of(&["a", "b", "c"]);
    let mut rr = RoundRobin::new();
    let mut counts = [0usize; 3];
    for _ in 0..7 {
        let addr = chosen_addr(rr.select(&snap));
        let idx = snap.iter().position(|b| b.addr == addr).unwrap();
        counts[idx] += 1;
    }
    assert_eq!(counts, [3, 2, 2]);
    for c in counts {
        assert!(c >= 7 / 3);
        assert!(c <= (7 + 3 - 1) / 3);
    }
}

#[test]
fn round_robin_cycles_in_order() {
    let snap = snapshot_of(&["a", "b", "c"]);
    let mut rr = RoundRobin::new();
    let mut seen = Vec::new();
    for _ in 0..6 {
        seen.push(chosen_addr(rr.select(&snap)));
    }
    assert_eq!(seen, ["a", "b", "c", "a", "b", "c"]);
}

#[test]
fn select_on_empty_snapshot_returns_none_available() {
    let empty: Vec<Backend> = Vec::new();
    let mut rr = RoundRobin::new();
    for _ in 0..5 {
        assert!(matches!(rr.select(&empty), Selection::NoneAvailable));
    }
    // The cursor is untouched by empty snapshots: the next real selection
    // still starts at the first backend.
    let snap = snapshot_of(&["a", "b"]);
    assert_eq!(chosen_addr(rr.select(&snap)), "a");
}

#[test]
fn every_selection_is_counted_exactly_once() {
    // 10 calls against 4 backends: the per-backend counts add up to 10.
    let snap = snapshot_of(&["a", "b", "c", "d"]);
    let mut rr = RoundRobin::new();
    let mut counts = [0usize; 4];
    for _ in 0..10 {
        let addr = chosen_addr(rr.select(&snap));
        let idx = snap.iter().position(|b| b.addr == addr).unwrap();
        counts[idx] += 1;
    }
    assert_eq!(counts.iter().sum::<usize>(), 10);
}

#[test]
fn round_robin_reindexes_into_a_changed_snapshot() {
    let mut rr = RoundRobin::new();
    let three = snapshot_of(&["a", "b", "c"]);
    assert_eq!(chosen_addr(rr.select(&three)), "a");
    assert_eq!(chosen_addr(rr.select(&three)), "b");
    // The healthy set shrinks; the advancing cursor indexes into the new
    // snapshot's length.
    let two = snapshot_of(&["a", "b"]);
    assert_eq!(chosen_addr(rr.select(&two)), "a");
    assert_eq!(chosen_addr(rr.select(&two)), "b");
}

#[test]
fn policy_trait_picks_like_the_inherent_call() {
    let snap = snapshot_of(&["a", "b"]);
    let mut rr = RoundRobin::new();
    assert_eq!(chosen_addr(rr.pick(&snap)), "a");
    assert_eq!(chosen_addr(rr.pick(&snap)), "b");
    let empty: Vec<Backend> = Vec::new();
    assert!(matches!(rr.pick(&empty), Selection::NoneAvailable));
}

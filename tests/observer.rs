use pendulum_bench::observer::{find_last, find_pendulum_bodies};

fn names(v: &[&str]) -> Vec<String> {
    v.iter().map(|n| n.to_string()).collect()
}

#[test]
fn both_found() {
    let n = names(&["cylinder_3", "cube_3", "cylinder_2"]);
    assert_eq!(find_pendulum_bodies(&n), Some((1, 2)));
}

#[test]
fn either_missing_is_not_found() {
    assert_eq!(find_pendulum_bodies(&names(&["cube_3", "cylinder_3"])), None);
    assert_eq!(find_pendulum_bodies(&names(&["cylinder_2"])), None);
    assert_eq!(find_pendulum_bodies(&names(&[])), None);
}

#[test]
fn last_occurrence_counts() {
    let n = names(&["cube_3", "cylinder_2", "cube_3", "x"]);
    assert_eq!(find_pendulum_bodies(&n), Some((2, 1)));
    assert_eq!(find_last(&n, "x"), Some(3));
    assert_eq!(find_last(&n, "cube"), None);
}

#[test]
fn lookup_is_repeatable() {
    let n = names(&["cylinder_2", "cube_3"]);
    assert_eq!(find_pendulum_bodies(&n), find_pendulum_bodies(&n));
}

use yappyink::id::{IdSource, ObjectId, OutputId};

#[test]
fn object_ids_are_injected_and_deterministic() {
    let mut ids = IdSource::starting_at(1);
    let first: ObjectId = ids.next_id();
    let second = ids.next_id();

    assert_ne!(first, second);
    assert_eq!(
        vec![first, second],
        IdSource::starting_at(1).take(2),
        "a fresh source with the same seed must produce the same ids"
    );
}

#[test]
fn output_ids_compare_by_value_not_by_monitor_index() {
    let a = OutputId::new("DP-1");
    let b = OutputId::new("DP-1");
    let c = OutputId::new("HDMI-A-1");

    assert_eq!(a, b);
    assert_ne!(a, c);
    assert_eq!(a.as_str(), "DP-1");
}

#[test]
fn ids_count_up_from_their_seed() {
    let mut ids = IdSource::starting_at(41);
    assert_eq!(ids.next_id().get(), 41);
    assert_eq!(ids.next_id(), ObjectId::from_raw(42));
    let rest = ids.take(3);
    let values: Vec<u64> = rest.iter().map(|id| id.get()).collect();
    assert_eq!(values, vec![43, 44, 45]);
    assert_eq!(ids.next_id().get(), 46);
}

#[test]
fn a_copied_output_id_is_the_same_output() {
    let a = OutputId::new("eDP-1");
    assert_eq!(a.duplicate(), a);
    assert_eq!(a.duplicate().as_str(), "eDP-1");
}

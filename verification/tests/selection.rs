use inventory_ledger::selection::{copy_of, id_at, ids_of, keys_by_type, pair_specs, AppCache};

fn strings(items: &[&str]) -> Vec<String> {
    items.iter().map(|item| item.to_string()).collect()
}

#[test]
fn id_at_a_position_or_zero() {
    let ids = vec![7, -3, 42];
    assert_eq!(id_at(&ids, 0), 7);
    assert_eq!(id_at(&ids, 1), -3);
    assert_eq!(id_at(&ids, 2), 42);
    assert_eq!(id_at(&ids, 3), 0);
    assert_eq!(id_at(&ids, -1), 0);
    assert_eq!(id_at(&ids, i32::MAX), 0);
    assert_eq!(id_at(&ids, i32::MIN), 0);
    assert_eq!(id_at(&Vec::new(), 0), 0);
}

#[test]
fn ids_follow_the_rows() {
    let rows = vec![(3, "Rolled".to_string()), (1, "Unbucked".to_string()), (2, "x".to_string())];
    assert_eq!(ids_of(&rows), vec![3, 1, 2]);
    assert!(ids_of(&Vec::new()).is_empty());
}

#[test]
fn keys_follow_the_types() {
    let rows = vec![
        (4, "Blue Dream".to_string(), strings(&["THC", "Terpenes"])),
        (2, "Bare".to_string(), Vec::new()),
    ];
    assert_eq!(keys_by_type(&rows), vec![(4, strings(&["THC", "Terpenes"])), (2, Vec::new())]);
    assert_eq!(copy_of(&strings(&["b", "a", "b"])), strings(&["b", "a", "b"]));
}

#[test]
fn specs_pair_names_with_entries_by_position() {
    let keys = strings(&["THC", "Terpenes", "Moisture"]);
    let entries = strings(&["12.5", "oops"]);
    assert_eq!(
        pair_specs(&keys, &entries),
        vec![("THC".to_string(), "12.5".to_string()), ("Terpenes".to_string(), "oops".to_string())]
    );
    let more = strings(&["1", "2", "3", "inf"]);
    let pairs = pair_specs(&keys, &more);
    assert_eq!(pairs.len(), 3);
    assert_eq!(pairs[2], ("Moisture".to_string(), "3".to_string()));
    assert!(pair_specs(&Vec::new(), &more).is_empty());
    assert!(pair_specs(&keys, &Vec::new()).is_empty());
}

#[test]
fn cache_takes_each_list_by_itself() {
    let mut cache = AppCache::new();
    assert!(cache.stages.is_empty() && cache.grades.is_empty() && cache.types.is_empty());

    cache.set_stages(&vec![(5, "Drying".to_string()), (6, "Curing".to_string())]);
    assert_eq!(cache.stages, vec![5, 6]);
    assert!(cache.grades.is_empty() && cache.types.is_empty());

    cache.set_grades(&vec![(9, "A".to_string())]);
    assert_eq!(cache.stages, vec![5, 6]);
    assert_eq!(cache.grades, vec![9]);

    cache.set_types(&vec![(4, "Blue Dream".to_string(), strings(&["THC"]))]);
    assert_eq!(cache.stages, vec![5, 6]);
    assert_eq!(cache.grades, vec![9]);
    assert_eq!(cache.types, vec![(4, strings(&["THC"]))]);

    cache.set_stages(&Vec::new());
    assert!(cache.stages.is_empty());
    assert_eq!(cache.grades, vec![9]);
}

#[test]
fn cache_answers_by_position() {
    let mut cache = AppCache::new();
    cache.set_stages(&vec![(5, "Drying".to_string()), (6, "Curing".to_string())]);
    cache.set_grades(&vec![(9, "A".to_string())]);
    cache.set_types(&vec![
        (4, "Blue Dream".to_string(), strings(&["THC", "Terpenes"])),
        (8, "Bare".to_string(), Vec::new()),
    ]);

    assert_eq!(cache.stage_id_at(1), 6);
    assert_eq!(cache.stage_id_at(2), 0);
    assert_eq!(cache.grade_id_at(0), 9);
    assert_eq!(cache.grade_id_at(-1), 0);
    assert_eq!(cache.type_id_at(0), 4);
    assert_eq!(cache.type_id_at(1), 8);
    assert_eq!(cache.type_id_at(2), 0);
    assert_eq!(cache.type_id_at(-5), 0);
    assert_eq!(cache.spec_keys_at(0), Some(&strings(&["THC", "Terpenes"])));
    assert_eq!(cache.spec_keys_at(1), Some(&Vec::new()));
    assert_eq!(cache.spec_keys_at(2), None);
    assert_eq!(cache.spec_keys_at(-1), None);
}

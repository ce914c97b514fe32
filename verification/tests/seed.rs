use inventory_ledger::schema::{name_params, product_type_params};
use inventory_ledger::seed::{default_grade_names, default_stage_names, seed_plan};

#[test]
fn baseline_names_are_the_fixed_lists() {
    assert_eq!(default_stage_names(), vec!["Unbucked", "Bucked", "Rolled", "Processed"]);
    assert_eq!(default_grade_names(), vec!["A", "B", "C", "Trim"]);
}

#[test]
fn an_empty_table_gets_the_whole_baseline() {
    assert_eq!(seed_plan(0, default_stage_names()), default_stage_names());
    assert_eq!(seed_plan(0, default_grade_names()), default_grade_names());
    assert!(seed_plan(0, Vec::new()).is_empty());
}

#[test]
fn a_table_with_rows_gets_nothing() {
    for row_count in [1, 2, 4, 5, i64::MAX, -1, i64::MIN] {
        assert!(seed_plan(row_count, default_stage_names()).is_empty());
    }
}

#[test]
fn the_plan_after_seeding_is_empty() {
    let first = seed_plan(0, default_stage_names());
    let second = seed_plan(first.len() as i64, default_stage_names());
    assert_eq!(first.len(), 4);
    assert!(second.is_empty());
}

#[test]
fn baseline_names_do_not_repeat() {
    for names in [default_stage_names(), default_grade_names()] {
        for i in 0..names.len() {
            for j in 0..i {
                assert_ne!(names[i], names[j]);
            }
        }
    }
}

#[test]
fn statement_parameters_are_in_statement_order() {
    assert_eq!(name_params("Drying".to_string()), vec!["Drying"]);
    assert_eq!(name_params(String::new()), vec![""]);
    assert_eq!(
        product_type_params("Blue Dream".to_string(), "[\"THC\"]".to_string()),
        vec!["Blue Dream", "[\"THC\"]"]
    );
    assert_eq!(product_type_params("a".to_string(), "b".to_string()), vec!["a", "b"]);
}

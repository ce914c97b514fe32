//! The baseline classification names and the rule for writing them.

use vstd::prelude::*;

verus! {

/// The baseline stages, in the order in which they are written.
pub open spec fn baseline_stages() -> Seq<Seq<char>> {
    seq!["Unbucked"@, "Bucked"@, "Rolled"@, "Processed"@]
}

/// The baseline grades, in the order in which they are written.
pub open spec fn baseline_grades() -> Seq<Seq<char>> {
    seq!["A"@, "B"@, "C"@, "Trim"@]
}

/// The baseline stages.
pub fn default_stage_names() -> (names: Vec<String>)
    ensures
        names.deep_view() == baseline_stages(),
{
    let names = vec![
        "Unbucked".to_string(),
        "Bucked".to_string(),
        "Rolled".to_string(),
        "Processed".to_string(),
    ];
    assert(names.deep_view() =~= baseline_stages());
    names
}

/// The baseline grades.
pub fn default_grade_names() -> (names: Vec<String>)
    ensures
        names.deep_view() == baseline_grades(),
{
    let names = vec!["A".to_string(), "B".to_string(), "C".to_string(), "Trim".to_string()];
    assert(names.deep_view() =~= baseline_grades());
    names
}

/// The names to write into a table that holds `row_count` rows: the whole
/// baseline, in order, for an empty table, and nothing for any other.
pub open spec fn names_to_seed(row_count: int, baseline: Seq<Seq<char>>) -> Seq<Seq<char>> {
    if row_count == 0 {
        baseline
    } else {
        Seq::empty()
    }
}

/// Decides what seeding writes into a table that holds `row_count` rows.
pub fn seed_plan(row_count: i64, baseline: Vec<String>) -> (names: Vec<String>)
    ensures
        names.deep_view() == names_to_seed(row_count as int, baseline.deep_view()),
{
    if row_count == 0 {
        baseline
    } else {
        let names: Vec<String> = Vec::new();
        assert(names.deep_view() =~= Seq::<Seq<char>>::empty());
        names
    }
}

/// No name occurs twice among the baseline stages.
pub proof fn baseline_stages_are_distinct()
    ensures
        baseline_stages().no_duplicates(),
{
    reveal_strlit("Unbucked");
    reveal_strlit("Bucked");
    reveal_strlit("Rolled");
    reveal_strlit("Processed");
    let s = baseline_stages();
    assert(s[0].len() == 8 && s[1].len() == 6 && s[2].len() == 6 && s[3].len() == 9);
    assert(s[1][0] == 'B' && s[2][0] == 'R');
}

/// No name occurs twice among the baseline grades.
pub proof fn baseline_grades_are_distinct()
    ensures
        baseline_grades().no_duplicates(),
{
    reveal_strlit("A");
    reveal_strlit("B");
    reveal_strlit("C");
    reveal_strlit("Trim");
    let s = baseline_grades();
    assert(s[0].len() == 1 && s[1].len() == 1 && s[2].len() == 1 && s[3].len() == 4);
    assert(s[0][0] == 'A' && s[1][0] == 'B' && s[2][0] == 'C');
}

/// Seeding a second time writes nothing: once a table that held `row_count`
/// rows has received the names planned for it, the plan for the row count
/// that it then has is empty.
pub proof fn second_seeding_writes_nothing(row_count: int, baseline: Seq<Seq<char>>)
    ensures
        names_to_seed(row_count + names_to_seed(row_count, baseline).len(), baseline).len() == 0,
{
}

} // verus!

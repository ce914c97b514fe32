//! What a caller remembers between two events: which id stands at which
//! position of each list that it shows, and which measurement names each
//! product type declares.

use vstd::prelude::*;

verus! {

/// The ids of the listed stages and grades and the ids and measurement names
/// of the listed product types, each in the order of its list.
pub struct AppCache {
    pub stages: Vec<i64>,
    pub grades: Vec<i64>,
    pub types: Vec<(i64, Vec<String>)>,
}

/// The id at a position of a list, and zero where the list has no such
/// position.
pub open spec fn id_at_or_zero(ids: Seq<i64>, index: int) -> i64 {
    if 0 <= index < ids.len() {
        ids[index]
    } else {
        0
    }
}

/// The id at a position of a list, and zero where the list has no such
/// position.
pub fn id_at(ids: &Vec<i64>, index: i32) -> (id: i64)
    ensures
        id == id_at_or_zero(ids@, index as int),
{
    if index >= 0 && (index as usize) < ids.len() {
        ids[index as usize]
    } else {
        0
    }
}

/// The ids of listed rows, in the order of the rows.
pub fn ids_of(rows: &Vec<(i64, String)>) -> (ids: Vec<i64>)
    ensures
        ids@ == rows@.map_values(|row: (i64, String)| row.0),
{
    let mut ids: Vec<i64> = Vec::new();
    let mut i: usize = 0;
    while i < rows.len()
        invariant
            i <= rows.len(),
            ids@ == rows@.take(i as int).map_values(|row: (i64, String)| row.0),
        decreases rows.len() - i,
    {
        ids.push(rows[i].0);
        assert(ids@ =~= rows@.take(i + 1).map_values(|row: (i64, String)| row.0));
        i += 1;
    }
    assert(rows@.take(rows.len() as int) =~= rows@);
    ids
}

/// The ids and measurement names of listed product types, in the order of
/// the rows.
pub fn keys_by_type(rows: &Vec<(i64, String, Vec<String>)>) -> (types: Vec<(i64, Vec<String>)>)
    ensures
        types.len() == rows.len(),
        forall|i: int|
            0 <= i < rows.len() ==> (#[trigger] types[i]).0 == rows[i].0 && types[i].1.deep_view()
                == rows[i].2.deep_view(),
{
    let mut types: Vec<(i64, Vec<String>)> = Vec::new();
    let mut i: usize = 0;
    while i < rows.len()
        invariant
            i <= rows.len(),
            types.len() == i,
            forall|j: int|
                0 <= j < i ==> (#[trigger] types[j]).0 == rows[j].0 && types[j].1.deep_view()
                    == rows[j].2.deep_view(),
        decreases rows.len() - i,
    {
        let keys = copy_of(&rows[i].2);
        types.push((rows[i].0, keys));
        i += 1;
    }
    types
}

/// A copy of a list of names.
pub fn copy_of(names: &Vec<String>) -> (copy: Vec<String>)
    ensures
        copy.deep_view() == names.deep_view(),
{
    let mut copy: Vec<String> = Vec::new();
    let mut i: usize = 0;
    while i < names.len()
        invariant
            i <= names.len(),
            copy.len() == i,
            forall|j: int| 0 <= j < i ==> (#[trigger] copy[j])@ == names[j]@,
        decreases names.len() - i,
    {
        copy.push(names[i].clone());
        i += 1;
    }
    assert(copy.deep_view() =~= names.deep_view());
    copy
}

/// The measurements of a batch as entered: the names that its product type
/// declares, each with the text entered at its position. Entries without a
/// name and names without an entry are left out.
pub fn pair_specs(keys: &Vec<String>, entries: &Vec<String>) -> (specs: Vec<(String, String)>)
    ensures
        specs.len() == if keys.len() <= entries.len() {
            keys.len()
        } else {
            entries.len()
        },
        forall|i: int|
            0 <= i < specs.len() ==> (#[trigger] specs[i]).0@ == keys[i]@ && specs[i].1@
                == entries[i]@,
{
    let mut specs: Vec<(String, String)> = Vec::new();
    let mut i: usize = 0;
    while i < keys.len() && i < entries.len()
        invariant
            i <= keys.len(),
            i <= entries.len(),
            specs.len() == i,
            forall|j: int|
                0 <= j < i ==> (#[trigger] specs[j]).0@ == keys[j]@ && specs[j].1@ == entries[j]@,
        decreases keys.len() - i,
    {
        specs.push((keys[i].clone(), entries[i].clone()));
        i += 1;
    }
    specs
}

impl AppCache {
    /// A cache of empty lists.
    pub fn new() -> (cache: AppCache)
        ensures
            cache.stages@.len() == 0,
            cache.grades@.len() == 0,
            cache.types@.len() == 0,
    {
        AppCache { stages: Vec::new(), grades: Vec::new(), types: Vec::new() }
    }

    /// Takes the listed stages; grades and product types stay as they are.
    pub fn set_stages(&mut self, rows: &Vec<(i64, String)>)
        ensures
            final(self).stages@ == rows@.map_values(|row: (i64, String)| row.0),
            final(self).grades == old(self).grades,
            final(self).types == old(self).types,
    {
        self.stages = ids_of(rows);
    }

    /// Takes the listed grades; stages and product types stay as they are.
    pub fn set_grades(&mut self, rows: &Vec<(i64, String)>)
        ensures
            final(self).grades@ == rows@.map_values(|row: (i64, String)| row.0),
            final(self).stages == old(self).stages,
            final(self).types == old(self).types,
    {
        self.grades = ids_of(rows);
    }

    /// Takes the listed product types; stages and grades stay as they are.
    pub fn set_types(&mut self, rows: &Vec<(i64, String, Vec<String>)>)
        ensures
            final(self).types.len() == rows.len(),
            forall|i: int|
                0 <= i < rows.len() ==> (#[trigger] final(self).types[i]).0 == rows[i].0
                    && final(self).types[i].1.deep_view() == rows[i].2.deep_view(),
            final(self).stages == old(self).stages,
            final(self).grades == old(self).grades,
    {
        self.types = keys_by_type(rows);
    }

    /// The id of the stage at a position of the list, zero where there is
    /// none.
    pub fn stage_id_at(&self, index: i32) -> (id: i64)
        ensures
            id == id_at_or_zero(self.stages@, index as int),
    {
        id_at(&self.stages, index)
    }

    /// The id of the grade at a position of the list, zero where there is
    /// none.
    pub fn grade_id_at(&self, index: i32) -> (id: i64)
        ensures
            id == id_at_or_zero(self.grades@, index as int),
    {
        id_at(&self.grades, index)
    }

    /// The id of the product type at a position of the list, zero where
    /// there is none.
    pub fn type_id_at(&self, index: i32) -> (id: i64)
        ensures
            id == if 0 <= index < self.types.len() {
                self.types[index as int].0
            } else {
                0
            },
    {
        if index >= 0 && (index as usize) < self.types.len() {
            self.types[index as usize].0
        } else {
            0
        }
    }

    /// The measurement names of the product type at a position of the list,
    /// `None` where there is none.
    pub fn spec_keys_at(&self, index: i32) -> (keys: Option<&Vec<String>>)
        ensures
            keys is Some <==> 0 <= index < self.types.len(),
            keys is Some ==> *keys->Some_0 == self.types[index as int].1,
    {
        if index >= 0 && (index as usize) < self.types.len() {
            Some(&self.types[index as usize].1)
        } else {
            None
        }
    }
}

} // verus!

//! The mapping store: the table that records, for each schema, the role that
//! owns its objects. A schema has at most one row; rows are kept and listed
//! by schema name.
//!
//! This is the table as the commands see it, with the three statements that
//! write to it: the insert that leaves an existing row alone, the insert
//! that updates an existing row, and the delete.

use vstd::prelude::*;
use vstd::string::StringExecFns;
use crate::name_order::Place;
use crate::name_order::lemma_precedes_strict;
use crate::name_order::lemma_precedes_transitive;
use crate::name_order::place_of;
use crate::name_order::precedes;

verus! {

/// One row of the table.
#[derive(Debug, Clone, PartialEq, Eq)]
pub struct MappingRecord {
    pub schema_name: String,
    pub target_role: String,
    /// When the row was inserted, in seconds since the Unix epoch.
    pub created_at: i64,
    /// When the row was last written, in seconds since the Unix epoch.
    pub updated_at: i64,
}

/// The mathematical content of a [`MappingRecord`].
pub struct StoredRow {
    pub schema_name: Seq<char>,
    pub target_role: Seq<char>,
    pub created_at: i64,
    pub updated_at: i64,
}

impl View for MappingRecord {
    type V = StoredRow;

    open spec fn view(&self) -> StoredRow {
        StoredRow {
            schema_name: self.schema_name@,
            target_role: self.target_role@,
            created_at: self.created_at,
            updated_at: self.updated_at,
        }
    }
}

/// The contents of a sequence of records.
pub open spec fn stored(records: Seq<MappingRecord>) -> Seq<StoredRow> {
    Seq::new(records.len(), |i: int| records[i]@)
}

/// Whether the rows stand in the strict order of their schema names. Rows
/// in this order have different schema names.
pub open spec fn well_ordered(rows: Seq<StoredRow>) -> bool {
    forall|i: int, j: int|
        0 <= i < j < rows.len() ==> precedes(
            (#[trigger] rows[i]).schema_name,
            (#[trigger] rows[j]).schema_name,
        )
}

/// The index of a row of the schema, if there is one.
pub open spec fn index_of(rows: Seq<StoredRow>, schema: Seq<char>) -> Option<int>
    decreases rows.len(),
{
    if rows.len() == 0 {
        None
    } else if rows.last().schema_name == schema {
        Some(rows.len() - 1)
    } else {
        index_of(rows.drop_last(), schema)
    }
}

/// The number of rows whose schema name comes before `schema`: the place
/// at which a row of the schema belongs.
pub open spec fn rank(rows: Seq<StoredRow>, schema: Seq<char>) -> int
    decreases rows.len(),
{
    if rows.len() == 0 {
        0
    } else if precedes(rows.last().schema_name, schema) {
        rank(rows.drop_last(), schema) + 1
    } else {
        rank(rows.drop_last(), schema)
    }
}

/// A row written for the first time at `now`.
pub open spec fn fresh_row(schema: Seq<char>, role: Seq<char>, now: i64) -> StoredRow {
    StoredRow { schema_name: schema, target_role: role, created_at: now, updated_at: now }
}

/// The table after an insert that leaves an existing row alone: a schema
/// without a row gets a fresh one at its place; a schema with a row keeps
/// it as it is, its role and both of its times.
pub open spec fn after_insert(rows: Seq<StoredRow>, schema: Seq<char>, role: Seq<char>, now: i64)
    -> Seq<StoredRow> {
    match index_of(rows, schema) {
        Some(_) => rows,
        None => rows.insert(rank(rows, schema), fresh_row(schema, role, now)),
    }
}

/// The table after an insert that updates an existing row: a schema without
/// a row gets a fresh one at its place; the row of a schema that has one
/// gets the new role and the new time of its last update, and keeps the
/// time of its creation.
pub open spec fn after_upsert(rows: Seq<StoredRow>, schema: Seq<char>, role: Seq<char>, now: i64)
    -> Seq<StoredRow> {
    match index_of(rows, schema) {
        Some(i) => rows.update(
            i,
            StoredRow { target_role: role, updated_at: now, ..rows[i] },
        ),
        None => rows.insert(rank(rows, schema), fresh_row(schema, role, now)),
    }
}

/// The table after the row of a schema is deleted, if there is one.
pub open spec fn after_delete(rows: Seq<StoredRow>, schema: Seq<char>) -> Seq<StoredRow> {
    match index_of(rows, schema) {
        Some(i) => rows.remove(i),
        None => rows,
    }
}

/// The number of rows that a delete touches.
pub open spec fn rows_deleted(rows: Seq<StoredRow>, schema: Seq<char>) -> nat {
    match index_of(rows, schema) {
        Some(_) => 1,
        None => 0,
    }
}

/// The number of rows of the schema.
pub open spec fn rows_for(rows: Seq<StoredRow>, schema: Seq<char>) -> nat
    decreases rows.len(),
{
    if rows.len() == 0 {
        0
    } else if rows.last().schema_name == schema {
        rows_for(rows.drop_last(), schema) + 1
    } else {
        rows_for(rows.drop_last(), schema)
    }
}

/// What `index_of` finds is a row of the schema, and where it finds none
/// there is none.
pub proof fn lemma_index_of(rows: Seq<StoredRow>, schema: Seq<char>)
    ensures
        match index_of(rows, schema) {
            Some(i) => 0 <= i < rows.len() && rows[i].schema_name == schema,
            None => forall|k: int| 0 <= k < rows.len() ==> (#[trigger] rows[k]).schema_name != schema,
        },
    decreases rows.len(),
{
    if rows.len() > 0 && rows.last().schema_name != schema {
        lemma_index_of(rows.drop_last(), schema);
        if index_of(rows, schema) is None {
            assert forall|k: int| 0 <= k < rows.len() implies (#[trigger] rows[k]).schema_name
                != schema by {
                if k < rows.len() - 1 {
                    assert(rows.drop_last()[k] == rows[k]);
                }
            }
        }
    }
}

/// In a well-ordered table a schema has its row at one index only.
pub proof fn lemma_index_unique(rows: Seq<StoredRow>, schema: Seq<char>, i: int)
    requires
        well_ordered(rows),
        0 <= i < rows.len(),
        rows[i].schema_name == schema,
    ensures
        index_of(rows, schema) == Some(i),
{
    lemma_index_of(rows, schema);
    lemma_precedes_strict(schema, schema);
}

/// The rank of a schema is the index up to which the names come before it.
pub proof fn lemma_rank(rows: Seq<StoredRow>, schema: Seq<char>, p: int)
    requires
        0 <= p <= rows.len(),
        forall|k: int| 0 <= k < p ==> precedes((#[trigger] rows[k]).schema_name, schema),
        forall|k: int| p <= k < rows.len() ==> !precedes((#[trigger] rows[k]).schema_name, schema),
    ensures
        rank(rows, schema) == p,
    decreases rows.len(),
{
    if rows.len() > 0 {
        let rest = rows.drop_last();
        assert(rows.last() == rows[rows.len() - 1]);
        assert forall|k: int| 0 <= k < rest.len() implies rest[k] == rows[k] by {}
        if p == rows.len() {
            lemma_rank(rest, schema, p - 1);
        } else {
            lemma_rank(rest, schema, p);
        }
    }
}

/// The place of a schema in a well-ordered table, and whether it has a row
/// there.
fn locate(records: &Vec<MappingRecord>, schema: &str) -> (r: (usize, bool))
    requires
        well_ordered(stored(records@)),
    ensures
        r.0 <= records.len(),
        r.0 == rank(stored(records@), schema@),
        r.1 ==> r.0 < records.len() && index_of(stored(records@), schema@) == Some(r.0 as int),
        !r.1 ==> index_of(stored(records@), schema@) is None,
        forall|k: int| 0 <= k < r.0 ==> precedes((#[trigger] stored(records@)[k]).schema_name, schema@),
        !r.1 ==> forall|k: int|
            r.0 <= k < records.len() ==> precedes(
                schema@,
                (#[trigger] stored(records@)[k]).schema_name,
            ),
{
    let ghost rows = stored(records@);
    let mut i: usize = 0;
    let mut found = false;
    while i < records.len()
        invariant_except_break
            !found,
        invariant
            i <= records.len(),
            rows == stored(records@),
            well_ordered(rows),
            forall|k: int| 0 <= k < i ==> precedes((#[trigger] rows[k]).schema_name, schema@),
        ensures
            i <= records.len(),
            forall|k: int| 0 <= k < i ==> precedes((#[trigger] rows[k]).schema_name, schema@),
            found ==> i < records.len() && rows[i as int].schema_name == schema@,
            !found ==> forall|k: int|
                i <= k < records.len() ==> precedes(schema@, (#[trigger] rows[k]).schema_name),
        decreases records.len() - i,
    {
        let place = place_of(records[i].schema_name.as_str(), schema);
        assert(rows[i as int].schema_name == records@[i as int].schema_name@);
        match place {
            Place::Before => {
                i = i + 1;
            },
            Place::Same => {
                found = true;
                break;
            },
            Place::After => {
                assert forall|k: int| i <= k < records.len() implies precedes(
                    schema@,
                    (#[trigger] rows[k]).schema_name,
                ) by {
                    if k > i {
                        lemma_precedes_transitive(
                            schema@,
                            rows[i as int].schema_name,
                            rows[k].schema_name,
                        );
                    }
                }
                break;
            },
        }
    }
    proof {
        assert forall|k: int| i <= k < rows.len() implies !precedes(
            (#[trigger] rows[k]).schema_name,
            schema@,
        ) by {
            lemma_precedes_strict(rows[k].schema_name, schema@);
            if found && k > i {
                lemma_precedes_strict(schema@, rows[k].schema_name);
            }
        }
        lemma_rank(rows, schema@, i as int);
        if found {
            lemma_index_unique(rows, schema@, i as int);
        } else {
            lemma_index_of(rows, schema@);
            assert forall|k: int| 0 <= k < rows.len() implies (#[trigger] rows[k]).schema_name
                != schema@ by {
                lemma_precedes_strict(schema@, schema@);
            }
        }
    }
    (i, found)
}

/// The table, in memory.
pub struct MappingStore {
    records: Vec<MappingRecord>,
}

impl View for MappingStore {
    type V = Seq<StoredRow>;

    closed spec fn view(&self) -> Seq<StoredRow> {
        stored(self.records@)
    }
}

impl MappingStore {
    #[verifier::type_invariant]
    spec fn ordered(self) -> bool {
        well_ordered(stored(self.records@))
    }

    /// An empty table.
    pub fn new() -> (store: Self)
        ensures
            store@ == Seq::<StoredRow>::empty(),
    {
        let store = MappingStore { records: Vec::new() };
        assert(store@ =~= Seq::<StoredRow>::empty());
        store
    }

    /// The number of rows.
    pub fn len(&self) -> (n: usize)
        ensures
            n == self@.len(),
    {
        self.records.len()
    }

    /// The row of a schema, if it has one.
    pub fn get(&self, schema: &str) -> (r: Option<MappingRecord>)
        ensures
            match r {
                Some(record) => index_of(self@, schema@) is Some && record@
                    == self@[index_of(self@, schema@)->0],
                None => index_of(self@, schema@) is None,
            },
    {
        proof {
            use_type_invariant(self);
        }
        let (position, found) = locate(&self.records, schema);
        if found {
            let record = &self.records[position];
            Some(
                MappingRecord {
                    schema_name: record.schema_name.clone(),
                    target_role: record.target_role.clone(),
                    created_at: record.created_at,
                    updated_at: record.updated_at,
                },
            )
        } else {
            None
        }
    }

    /// The rows, by schema name.
    pub fn list(&self) -> (rows: Vec<MappingRecord>)
        ensures
            stored(rows@) == self@,
            well_ordered(stored(rows@)),
    {
        proof {
            use_type_invariant(self);
        }
        let mut rows: Vec<MappingRecord> = Vec::new();
        let mut i: usize = 0;
        while i < self.records.len()
            invariant
                i <= self.records.len(),
                stored(rows@) == stored(self.records@).take(i as int),
            decreases self.records.len() - i,
        {
            let record = &self.records[i];
            let ghost before = stored(rows@);
            rows.push(
                MappingRecord {
                    schema_name: record.schema_name.clone(),
                    target_role: record.target_role.clone(),
                    created_at: record.created_at,
                    updated_at: record.updated_at,
                },
            );
            assert(stored(rows@) =~= before.push(record@));
            i = i + 1;
            assert(stored(rows@) =~= stored(self.records@).take(i as int));
        }
        assert(stored(self.records@).take(i as int) =~= stored(self.records@));
        rows
    }

    /// Inserts a row for the schema unless it has one, and returns the
    /// number of rows written.
    pub fn insert_if_absent(&mut self, schema: &str, role: &str, now: i64) -> (written: u64)
        ensures
            final(self)@ == after_insert(old(self)@, schema@, role@, now),
            written == if index_of(old(self)@, schema@) is Some {
                0u64
            } else {
                1u64
            },
    {
        proof {
            use_type_invariant(&*self);
        }
        let (position, found) = locate(&self.records, schema);
        if found {
            0
        } else {
            let mut records: Vec<MappingRecord> = Vec::new();
            assert(well_ordered(stored(records@)));
            std::mem::swap(&mut records, &mut self.records);
            let ghost before = stored(records@);
            records.insert(
                position,
                MappingRecord {
                    schema_name: String::from_str(schema),
                    target_role: String::from_str(role),
                    created_at: now,
                    updated_at: now,
                },
            );
            assert(stored(records@) =~= before.insert(
                position as int,
                fresh_row(schema@, role@, now),
            ));
            proof {
                lemma_insert_keeps_order(before, schema@, role@, now);
            }
            self.records = records;
            1
        }
    }

    /// Inserts a row for the schema, or gives the row it has the new role
    /// and the new time of its last update. Returns the number of rows
    /// written, which is always one.
    pub fn upsert(&mut self, schema: &str, role: &str, now: i64) -> (written: u64)
        ensures
            final(self)@ == after_upsert(old(self)@, schema@, role@, now),
            written == 1,
    {
        proof {
            use_type_invariant(&*self);
        }
        let (position, found) = locate(&self.records, schema);
        let mut records: Vec<MappingRecord> = Vec::new();
        assert(well_ordered(stored(records@)));
        std::mem::swap(&mut records, &mut self.records);
        let ghost before = stored(records@);
        if found {
            let created_at = records[position].created_at;
            let replacement = MappingRecord {
                schema_name: String::from_str(schema),
                target_role: String::from_str(role),
                created_at,
                updated_at: now,
            };
            records.set(position, replacement);
            proof {
                lemma_index_of(before, schema@);
            }
            assert(stored(records@) =~= before.update(
                position as int,
                StoredRow { target_role: role@, updated_at: now, ..before[position as int] },
            ));
            proof {
                lemma_upsert_keeps_order(before, schema@, role@, now);
            }
        } else {
            records.insert(
                position,
                MappingRecord {
                    schema_name: String::from_str(schema),
                    target_role: String::from_str(role),
                    created_at: now,
                    updated_at: now,
                },
            );
            assert(stored(records@) =~= before.insert(
                position as int,
                fresh_row(schema@, role@, now),
            ));
            proof {
                lemma_upsert_keeps_order(before, schema@, role@, now);
            }
        }
        self.records = records;
        1
    }

    /// Deletes the row of the schema, if it has one, and returns the number
    /// of rows deleted.
    pub fn remove(&mut self, schema: &str) -> (deleted: u64)
        ensures
            final(self)@ == after_delete(old(self)@, schema@),
            deleted == rows_deleted(old(self)@, schema@),
    {
        proof {
            use_type_invariant(&*self);
        }
        let (position, found) = locate(&self.records, schema);
        if found {
            let mut records: Vec<MappingRecord> = Vec::new();
            assert(well_ordered(stored(records@)));
            std::mem::swap(&mut records, &mut self.records);
            let ghost before = stored(records@);
            let _ = records.remove(position);
            assert(stored(records@) =~= before.remove(position as int));
            proof {
                lemma_delete_keeps_order(before, schema@);
            }
            self.records = records;
            1
        } else {
            0
        }
    }
}

/// A fresh row at the rank of its schema keeps the table well-ordered.
pub proof fn lemma_insert_keeps_order(
    rows: Seq<StoredRow>,
    schema: Seq<char>,
    role: Seq<char>,
    now: i64,
)
    requires
        well_ordered(rows),
    ensures
        well_ordered(after_insert(rows, schema, role, now)),
{
    lemma_index_of(rows, schema);
    if index_of(rows, schema) is None {
        lemma_rank_splits(rows, schema);
        let p = rank(rows, schema);
        let row = fresh_row(schema, role, now);
        let next = rows.insert(p, row);
        assert forall|i: int, j: int| 0 <= i < j < next.len() implies precedes(
            (#[trigger] next[i]).schema_name,
            (#[trigger] next[j]).schema_name,
        ) by {
            if i < p && j > p {
                assert(next[i] == rows[i] && next[j] == rows[j - 1]);
            } else if i < p && j < p {
                assert(next[i] == rows[i] && next[j] == rows[j]);
            } else if i > p {
                assert(next[i] == rows[i - 1] && next[j] == rows[j - 1]);
            } else if i == p {
                assert(next[j] == rows[j - 1]);
            } else {
                assert(next[i] == rows[i]);
            }
        }
    }
}

/// In a well-ordered table without a row of the schema, the names before
/// the rank of the schema come before it and the others come after it.
pub proof fn lemma_rank_splits(rows: Seq<StoredRow>, schema: Seq<char>)
    requires
        well_ordered(rows),
        index_of(rows, schema) is None,
    ensures
        0 <= rank(rows, schema) <= rows.len(),
        forall|k: int|
            0 <= k < rank(rows, schema) ==> precedes((#[trigger] rows[k]).schema_name, schema),
        forall|k: int|
            rank(rows, schema) <= k < rows.len() ==> precedes(
                schema,
                (#[trigger] rows[k]).schema_name,
            ),
    decreases rows.len(),
{
    if rows.len() > 0 {
        let rest = rows.drop_last();
        let last = rows.last();
        assert(last == rows[rows.len() - 1]);
        assert forall|k: int| 0 <= k < rest.len() implies rest[k] == rows[k] by {}
        assert(well_ordered(rest));
        lemma_rank_splits(rest, schema);
        crate::name_order::lemma_precedes_total(last.schema_name, schema);
        if precedes(last.schema_name, schema) {
            assert forall|k: int| 0 <= k < rows.len() implies precedes(
                (#[trigger] rows[k]).schema_name,
                schema,
            ) by {
                if k < rows.len() - 1 {
                    lemma_precedes_transitive(rows[k].schema_name, last.schema_name, schema);
                }
            }
            assert forall|k: int| 0 <= k < rest.len() implies precedes(
                (#[trigger] rest[k]).schema_name,
                schema,
            ) by {
                assert(rest[k] == rows[k]);
            }
            lemma_rank(rest, schema, rest.len() as int);
        } else {
            assert(precedes(schema, last.schema_name));
        }
    }
}

/// An upsert keeps the table well-ordered.
pub proof fn lemma_upsert_keeps_order(
    rows: Seq<StoredRow>,
    schema: Seq<char>,
    role: Seq<char>,
    now: i64,
)
    requires
        well_ordered(rows),
    ensures
        well_ordered(after_upsert(rows, schema, role, now)),
{
    lemma_index_of(rows, schema);
    match index_of(rows, schema) {
        Some(p) => {
            let next = after_upsert(rows, schema, role, now);
            assert forall|i: int, j: int| 0 <= i < j < next.len() implies precedes(
                (#[trigger] next[i]).schema_name,
                (#[trigger] next[j]).schema_name,
            ) by {
                assert(next[i].schema_name == rows[i].schema_name);
                assert(next[j].schema_name == rows[j].schema_name);
            }
        },
        None => {
            lemma_insert_keeps_order(rows, schema, role, now);
        },
    }
}

/// A delete keeps the table well-ordered.
pub proof fn lemma_delete_keeps_order(rows: Seq<StoredRow>, schema: Seq<char>)
    requires
        well_ordered(rows),
    ensures
        well_ordered(after_delete(rows, schema)),
{
    lemma_index_of(rows, schema);
    match index_of(rows, schema) {
        Some(p) => {
            let next = rows.remove(p);
            assert forall|i: int, j: int| 0 <= i < j < next.len() implies precedes(
                (#[trigger] next[i]).schema_name,
                (#[trigger] next[j]).schema_name,
            ) by {
                let a = if i < p { i } else { i + 1 };
                let b = if j < p { j } else { j + 1 };
                assert(next[i] == rows[a] && next[j] == rows[b]);
            }
        },
        None => {},
    }
}

/// The row of a schema, if it has one.
pub open spec fn lookup(rows: Seq<StoredRow>, schema: Seq<char>) -> Option<StoredRow> {
    match index_of(rows, schema) {
        Some(i) => Some(rows[i]),
        None => None,
    }
}

/// A table without a row of the schema counts none for it.
proof fn lemma_rows_for_none(rows: Seq<StoredRow>, schema: Seq<char>)
    requires
        forall|k: int| 0 <= k < rows.len() ==> (#[trigger] rows[k]).schema_name != schema,
    ensures
        rows_for(rows, schema) == 0,
    decreases rows.len(),
{
    if rows.len() > 0 {
        assert(rows.last() == rows[rows.len() - 1]);
        assert forall|k: int| 0 <= k < rows.len() - 1 implies (#[trigger] rows.drop_last()[k]).schema_name
            != schema by {
            assert(rows.drop_last()[k] == rows[k]);
        }
        lemma_rows_for_none(rows.drop_last(), schema);
    }
}

/// In a well-ordered table a schema has one row or none.
pub proof fn lemma_at_most_one_row(rows: Seq<StoredRow>, schema: Seq<char>)
    requires
        well_ordered(rows),
    ensures
        rows_for(rows, schema) == if index_of(rows, schema) is Some {
            1nat
        } else {
            0nat
        },
    decreases rows.len(),
{
    if rows.len() > 0 {
        let rest = rows.drop_last();
        assert(rows.last() == rows[rows.len() - 1]);
        assert forall|k: int| 0 <= k < rest.len() implies rest[k] == rows[k] by {}
        assert(well_ordered(rest));
        if rows.last().schema_name == schema {
            assert forall|k: int| 0 <= k < rest.len() implies (#[trigger] rest[k]).schema_name
                != schema by {
                assert(rest[k] == rows[k]);
                lemma_precedes_strict(schema, schema);
            }
            lemma_rows_for_none(rest, schema);
        } else {
            lemma_at_most_one_row(rest, schema);
        }
    }
}

/// After a mapping is added for a schema, the table holds exactly one row
/// for the schema, with the role that was given and the time of the write
/// as the time of its last update. Where the schema had a row before, the
/// table has not grown and the row keeps the time of its creation.
pub proof fn lemma_upsert_writes_one_row(
    rows: Seq<StoredRow>,
    schema: Seq<char>,
    role: Seq<char>,
    now: i64,
)
    requires
        well_ordered(rows),
    ensures
        well_ordered(after_upsert(rows, schema, role, now)),
        rows_for(after_upsert(rows, schema, role, now), schema) == 1,
        lookup(after_upsert(rows, schema, role, now), schema) == Some(
            StoredRow {
                schema_name: schema,
                target_role: role,
                created_at: match lookup(rows, schema) {
                    Some(row) => row.created_at,
                    None => now,
                },
                updated_at: now,
            },
        ),
        after_upsert(rows, schema, role, now).len() == rows.len() + if lookup(rows, schema)
            is Some {
            0int
        } else {
            1int
        },
{
    let next = after_upsert(rows, schema, role, now);
    lemma_upsert_keeps_order(rows, schema, role, now);
    lemma_index_of(rows, schema);
    match index_of(rows, schema) {
        Some(i) => {
            assert(next[i].schema_name == schema);
            lemma_index_unique(next, schema, i);
        },
        None => {
            lemma_rank_splits(rows, schema);
            let p = rank(rows, schema);
            assert(next[p] == fresh_row(schema, role, now));
            lemma_index_unique(next, schema, p);
        },
    }
    lemma_at_most_one_row(next, schema);
}

/// Adding a mapping for a schema twice, first with one role and then with
/// another, leaves one row for the schema: it has the second role, the time
/// of the second write as the time of its last update, and the time of its
/// creation as it was after the first write. The second write adds no row.
pub proof fn lemma_upsert_twice(
    rows: Seq<StoredRow>,
    schema: Seq<char>,
    first_role: Seq<char>,
    second_role: Seq<char>,
    first_time: i64,
    second_time: i64,
)
    requires
        well_ordered(rows),
    ensures
        ({
            let once = after_upsert(rows, schema, first_role, first_time);
            let twice = after_upsert(once, schema, second_role, second_time);
            &&& twice.len() == once.len()
            &&& rows_for(twice, schema) == 1
            &&& lookup(once, schema) is Some
            &&& lookup(twice, schema) == Some(
                StoredRow {
                    target_role: second_role,
                    updated_at: second_time,
                    ..lookup(once, schema)->0
                },
            )
        }),
{
    let once = after_upsert(rows, schema, first_role, first_time);
    lemma_upsert_writes_one_row(rows, schema, first_role, first_time);
    lemma_upsert_writes_one_row(once, schema, second_role, second_time);
}

/// Writing the mapping of one schema leaves the row of every other schema
/// as it was.
pub proof fn lemma_upsert_leaves_others(
    rows: Seq<StoredRow>,
    schema: Seq<char>,
    role: Seq<char>,
    now: i64,
    other: Seq<char>,
)
    requires
        well_ordered(rows),
        other != schema,
    ensures
        lookup(after_upsert(rows, schema, role, now), other) == lookup(rows, other),
{
    let next = after_upsert(rows, schema, role, now);
    lemma_upsert_keeps_order(rows, schema, role, now);
    lemma_index_of(rows, schema);
    lemma_index_of(rows, other);
    lemma_index_of(next, other);
    match index_of(rows, schema) {
        Some(i) => {
            match index_of(rows, other) {
                Some(j) => {
                    assert(next[j] == rows[j]);
                    lemma_index_unique(next, other, j);
                },
                None => {
                    if index_of(next, other) is Some {
                        let j = index_of(next, other)->0;
                        assert(next[j].schema_name == rows[j].schema_name);
                    }
                },
            }
        },
        None => {
            lemma_rank_splits(rows, schema);
            let p = rank(rows, schema);
            match index_of(rows, other) {
                Some(j) => {
                    let k = if j < p { j } else { j + 1 };
                    assert(next[k] == rows[j]);
                    lemma_index_unique(next, other, k);
                },
                None => {
                    if index_of(next, other) is Some {
                        let j = index_of(next, other)->0;
                        if j < p {
                            assert(next[j] == rows[j]);
                        } else if j > p {
                            assert(next[j] == rows[j - 1]);
                        }
                    }
                },
            }
        },
    }
}

/// Removing the mapping of a schema that has none touches no row and
/// leaves the table as it was.
pub proof fn lemma_delete_absent(rows: Seq<StoredRow>, schema: Seq<char>)
    requires
        lookup(rows, schema) is None,
    ensures
        rows_deleted(rows, schema) == 0,
        after_delete(rows, schema) == rows,
{
}

/// Removing the mapping of a schema that has one deletes exactly that row:
/// one row is touched, the table is one row shorter, and the schema has no
/// row left.
pub proof fn lemma_delete_present(rows: Seq<StoredRow>, schema: Seq<char>)
    requires
        well_ordered(rows),
        lookup(rows, schema) is Some,
    ensures
        rows_deleted(rows, schema) == 1,
        after_delete(rows, schema).len() == rows.len() - 1,
        lookup(after_delete(rows, schema), schema) is None,
        rows_for(after_delete(rows, schema), schema) == 0,
{
    let next = after_delete(rows, schema);
    let p = index_of(rows, schema)->0;
    lemma_index_of(rows, schema);
    lemma_delete_keeps_order(rows, schema);
    lemma_index_of(next, schema);
    if index_of(next, schema) is Some {
        let j = index_of(next, schema)->0;
        let k = if j < p { j } else { j + 1 };
        assert(next[j] == rows[k]);
        lemma_index_unique(rows, schema, k);
    }
    lemma_at_most_one_row(next, schema);
}

/// Removing the mapping of one schema leaves the row of every other schema
/// as it was.
pub proof fn lemma_delete_leaves_others(rows: Seq<StoredRow>, schema: Seq<char>, other: Seq<char>)
    requires
        well_ordered(rows),
        other != schema,
    ensures
        lookup(after_delete(rows, schema), other) == lookup(rows, other),
{
    let next = after_delete(rows, schema);
    lemma_delete_keeps_order(rows, schema);
    lemma_index_of(rows, schema);
    lemma_index_of(rows, other);
    lemma_index_of(next, other);
    match index_of(rows, schema) {
        Some(p) => {
            match index_of(rows, other) {
                Some(j) => {
                    let k = if j < p { j } else { j - 1 };
                    assert(next[k] == rows[j]);
                    lemma_index_unique(next, other, k);
                },
                None => {
                    if index_of(next, other) is Some {
                        let j = index_of(next, other)->0;
                        let k = if j < p { j } else { j + 1 };
                        assert(next[j] == rows[k]);
                    }
                },
            }
        },
        None => {},
    }
}

/// The insert that leaves an existing row alone changes nothing where the
/// schema has a row: provisioning a second time keeps the mapping as it
/// was, its role and both of its times.
pub proof fn lemma_insert_existing(
    rows: Seq<StoredRow>,
    schema: Seq<char>,
    role: Seq<char>,
    now: i64,
)
    requires
        lookup(rows, schema) is Some,
    ensures
        after_insert(rows, schema, role, now) == rows,
{
}

/// The insert that leaves an existing row alone takes effect once: a
/// second insert for the same schema changes nothing, whatever its role
/// and its time.
pub proof fn lemma_insert_idempotent(
    rows: Seq<StoredRow>,
    schema: Seq<char>,
    role: Seq<char>,
    now: i64,
    later_role: Seq<char>,
    later: i64,
)
    requires
        well_ordered(rows),
    ensures
        after_insert(after_insert(rows, schema, role, now), schema, later_role, later)
            == after_insert(rows, schema, role, now),
{
    let once = after_insert(rows, schema, role, now);
    lemma_index_of(rows, schema);
    if index_of(rows, schema) is None {
        lemma_insert_keeps_order(rows, schema, role, now);
        lemma_rank_splits(rows, schema);
        let p = rank(rows, schema);
        assert(once[p] == fresh_row(schema, role, now));
        lemma_index_unique(once, schema, p);
    }
}

} // verus!

//! Listing the mappings of every database on a server: which databases are
//! visited, how what was fetched from each is gathered into one listing, and
//! how the listing is laid out.
//!
//! A database that cannot be reached or queried is left out; it never fails
//! the listing.

use vstd::prelude::*;
use vstd::string::StringExecFns;
use vstd::string::StringSliceAdditionalSpecFns;
use vstd::utf8::decode_utf8;
use vstd::utf8::encode_utf8;
use vstd::utf8::encode_utf8_decode_utf8;
use vstd::utf8::is_char_boundary;
use crate::commands::CommandError;
use crate::commands::ErrorView;
use crate::commands::NOT_INITIALIZED_MESSAGE;
use crate::commands::UNDEFINED_TABLE;
use crate::commands::is_undefined_table;
use crate::name_order::precedes;
use crate::text::decimal;
use crate::text::optional_text;
use crate::text::pad_right;
use crate::text::push_decimal;
use crate::text::push_repeated;
use crate::text::repeated;
use crate::text::padded;
use crate::text::same_text;
use crate::text::texts;
use crate::timestamp::format_timestamp;
use crate::timestamp::timestamp_text;

verus! {

/// Lists the databases of a server that are no templates, by name.
pub const LIST_DATABASES_SQL: &'static str =
    "SELECT datname FROM pg_database WHERE datistemplate = false ORDER BY datname";

/// Lists the mappings of a database, by schema name.
pub const LIST_MAPPINGS_SQL: &'static str =
    "SELECT schema_name, target_role, created_at, updated_at FROM public.schema_ownership_config ORDER BY schema_name";

/// Lists the roles that were granted membership in a role, by name. The
/// parameter is the role.
pub const ROLE_MEMBERS_SQL: &'static str =
    "SELECT r.rolname
                FROM pg_roles r
                JOIN pg_auth_members m ON m.member = r.oid
                JOIN pg_roles g ON m.roleid = g.oid
                WHERE g.rolname = $1
                ORDER BY r.rolname";

/// What a failure to list the databases is reported as.
pub const LIST_DATABASES_FAILURE: &'static str = "Failed to query pg_database";

/// Whether a database belongs to the server or to the platform that hosts
/// it, and is therefore never visited.
pub open spec fn is_blocked(name: Seq<char>) -> bool {
    ||| name == "postgres"@
    ||| name == "template0"@
    ||| name == "template1"@
    ||| name == "rdsadmin"@
    ||| name == "azure_maintenance"@
    ||| name == "cloudsqladmin"@
}

/// Whether a database is never visited.
pub fn is_blocked_database(name: &str) -> (r: bool)
    ensures
        r == is_blocked(name@),
{
    same_text(name, "postgres") || same_text(name, "template0") || same_text(name, "template1")
        || same_text(name, "rdsadmin") || same_text(name, "azure_maintenance") || same_text(
        name,
        "cloudsqladmin",
    )
}

/// The names that are visited: those that are not blocked, in the order in
/// which they were given.
pub open spec fn visited(names: Seq<Seq<char>>) -> Seq<Seq<char>>
    decreases names.len(),
{
    if names.len() == 0 {
        Seq::empty()
    } else if is_blocked(names.last()) {
        visited(names.drop_last())
    } else {
        visited(names.drop_last()).push(names.last())
    }
}

/// The databases to visit among those that the server lists.
pub fn select_databases(names: &Vec<String>) -> (selected: Vec<String>)
    ensures
        texts(selected@) == visited(texts(names@)),
{
    let mut selected: Vec<String> = Vec::new();
    let mut i: usize = 0;
    assert(texts(selected@) =~= Seq::<Seq<char>>::empty());
    while i < names.len()
        invariant
            i <= names.len(),
            texts(selected@) == visited(texts(names@).take(i as int)),
        decreases names.len() - i,
    {
        assert(texts(names@).take(i + 1).drop_last() =~= texts(names@).take(i as int));
        let ghost before = texts(selected@);
        if !is_blocked_database(names[i].as_str()) {
            selected.push(names[i].clone());
            assert(texts(selected@) =~= before.push(names@[i as int]@));
        }
        i = i + 1;
    }
    assert(texts(names@).take(i as int) =~= texts(names@));
    selected
}

/// No blocked database is ever visited, and every other database is.
pub proof fn lemma_visited(names: Seq<Seq<char>>)
    ensures
        forall|i: int| 0 <= i < visited(names).len() ==> !is_blocked(#[trigger] visited(names)[i]),
        forall|name: Seq<char>|
            #[trigger] visited(names).contains(name) <==> names.contains(name) && !is_blocked(
                name,
            ),
    decreases names.len(),
{
    if names.len() > 0 {
        let rest = names.drop_last();
        lemma_visited(rest);
        assert forall|name: Seq<char>|
            #[trigger] visited(names).contains(name) <==> names.contains(name) && !is_blocked(
                name,
            ) by {
            if names.contains(name) {
                let k = choose|k: int| 0 <= k < names.len() && names[k] == name;
                if k < names.len() - 1 {
                    assert(rest[k] == name);
                    assert(rest.contains(name));
                }
            }
            if rest.contains(name) {
                let k = choose|k: int| 0 <= k < rest.len() && rest[k] == name;
                assert(names[k] == name);
            }
            if !is_blocked(names.last()) {
                let v = visited(rest);
                if v.contains(name) {
                    let k = choose|k: int| 0 <= k < v.len() && v[k] == name;
                    assert(v.push(names.last())[k] == name);
                }
                assert(v.push(names.last())[v.len() as int] == names.last());
                assert(names[names.len() - 1] == names.last());
            }
        }
    }
}

/// The number of bytes kept of a text that is cut down to `max_len`: room
/// is left for the five bytes of the mark that replaces the rest.
pub open spec fn kept_bytes(max_len: nat) -> nat {
    if max_len >= 5 {
        (max_len - 5) as nat
    } else {
        0
    }
}

/// A text cut down for a column of `max_len` bytes: a text that fits is left
/// as it is; of a longer one the first `kept_bytes(max_len)` bytes stay,
/// followed by the mark `[...]`.
pub open spec fn truncated(s: Seq<char>, bytes: Seq<u8>, max_len: nat) -> Seq<char> {
    if bytes.len() <= max_len {
        s
    } else {
        decode_utf8(bytes.subrange(0, kept_bytes(max_len) as int)) + "[...]"@
    }
}

/// Whether a text can be cut down to `max_len` bytes without splitting a
/// character.
pub open spec fn can_truncate(bytes: Seq<u8>, max_len: nat) -> bool {
    bytes.len() <= max_len || is_char_boundary(bytes, kept_bytes(max_len) as int)
}

/// Cuts a text down for a column of `max_len` bytes. The cut must not fall
/// inside a character.
pub fn truncate_with_ellipsis(s: &str, max_len: usize) -> (r: String)
    requires
        can_truncate(s.spec_bytes(), max_len as nat),
    ensures
        r@ == truncated(s@, s.spec_bytes(), max_len as nat),
{
    if s.as_bytes().len() <= max_len {
        String::from_str(s)
    } else {
        let keep: usize = if max_len >= 5 {
            max_len - 5
        } else {
            0
        };
        let (head, _) = s.split_at(keep);
        proof {
            encode_utf8_decode_utf8(head@);
        }
        let mut out = String::from_str(head);
        out.append("[...]");
        out
    }
}

/// Cuts a text down for a column of `max_len` bytes, or returns `None`
/// where the cut would fall inside a character.
pub fn try_truncate(s: &str, max_len: usize) -> (r: Option<String>)
    ensures
        can_truncate(s.spec_bytes(), max_len as nat) ==> r is Some && r->0@ == truncated(
            s@,
            s.spec_bytes(),
            max_len as nat,
        ),
        !can_truncate(s.spec_bytes(), max_len as nat) ==> r is None,
{
    let keep: usize = if max_len >= 5 {
        max_len - 5
    } else {
        0
    };
    if s.as_bytes().len() <= max_len || s.is_char_boundary(keep) {
        Some(truncate_with_ellipsis(s, max_len))
    } else {
        None
    }
}

/// One row of a mapping table, with the roles that were granted membership
/// in its target role.
#[derive(Debug, Clone, PartialEq, Eq)]
pub struct FetchedMapping {
    pub schema_name: String,
    pub target_role: String,
    /// Seconds since the Unix epoch at which the mapping was created.
    pub created_at: i64,
    /// Seconds since the Unix epoch at which the mapping was last written.
    pub updated_at: i64,
    /// The members of the target role; `None` where they could not be
    /// looked up.
    pub granted_to: Option<Vec<String>>,
}

/// The mathematical content of a [`FetchedMapping`].
pub struct FetchedView {
    pub schema_name: Seq<char>,
    pub target_role: Seq<char>,
    pub created_at: i64,
    pub updated_at: i64,
    pub granted_to: Option<Seq<Seq<char>>>,
}

impl View for FetchedMapping {
    type V = FetchedView;

    open spec fn view(&self) -> FetchedView {
        FetchedView {
            schema_name: self.schema_name@,
            target_role: self.target_role@,
            created_at: self.created_at,
            updated_at: self.updated_at,
            granted_to: match self.granted_to {
                Some(members) => Some(texts(members@)),
                None => None,
            },
        }
    }
}

/// What came of visiting one database.
#[derive(Debug, Clone, PartialEq, Eq)]
pub enum FetchResult {
    /// No connection could be opened.
    Unreachable,
    /// The database has no mapping table.
    NotInitialized,
    /// The mapping table could not be read.
    QueryFailed,
    /// The rows of the mapping table, by schema name.
    Rows(Vec<FetchedMapping>),
}

/// A database and what came of visiting it.
#[derive(Debug, Clone, PartialEq, Eq)]
pub struct DatabaseFetch {
    pub database: String,
    pub result: FetchResult,
}

/// The mathematical content of a [`DatabaseFetch`]: the name of the
/// database and the rows that were read from it, if any were.
pub struct FetchView {
    pub database: Seq<char>,
    pub rows: Option<Seq<FetchedView>>,
}

/// The contents of a sequence of fetched mappings.
pub open spec fn fetched_views(mappings: Seq<FetchedMapping>) -> Seq<FetchedView> {
    Seq::new(mappings.len(), |i: int| mappings[i]@)
}

impl View for DatabaseFetch {
    type V = FetchView;

    open spec fn view(&self) -> FetchView {
        FetchView {
            database: self.database@,
            rows: match self.result {
                FetchResult::Rows(mappings) => Some(fetched_views(mappings@)),
                _ => None,
            },
        }
    }
}

/// The contents of a sequence of fetches.
pub open spec fn fetch_views(fetches: Seq<DatabaseFetch>) -> Seq<FetchView> {
    Seq::new(fetches.len(), |i: int| fetches[i]@)
}

/// One line of the listing.
#[derive(Debug, Clone, PartialEq, Eq)]
pub struct MappingRow {
    pub database: String,
    pub schema_name: String,
    pub target_role: String,
    pub granted_to: Vec<String>,
    pub created_at: i64,
    pub updated_at: i64,
}

/// The mathematical content of a [`MappingRow`].
pub struct RowView {
    pub database: Seq<char>,
    pub schema_name: Seq<char>,
    pub target_role: Seq<char>,
    pub granted_to: Seq<Seq<char>>,
    pub created_at: i64,
    pub updated_at: i64,
}

impl View for MappingRow {
    type V = RowView;

    open spec fn view(&self) -> RowView {
        RowView {
            database: self.database@,
            schema_name: self.schema_name@,
            target_role: self.target_role@,
            granted_to: texts(self.granted_to@),
            created_at: self.created_at,
            updated_at: self.updated_at,
        }
    }
}

/// The contents of a sequence of rows.
pub open spec fn row_views(rows: Seq<MappingRow>) -> Seq<RowView> {
    Seq::new(rows.len(), |i: int| rows[i]@)
}

/// The line of the listing for a mapping read from `database`. Members that
/// could not be looked up are shown as none.
pub open spec fn row_of(database: Seq<char>, mapping: FetchedView) -> RowView {
    RowView {
        database,
        schema_name: mapping.schema_name,
        target_role: mapping.target_role,
        granted_to: match mapping.granted_to {
            Some(members) => members,
            None => Seq::empty(),
        },
        created_at: mapping.created_at,
        updated_at: mapping.updated_at,
    }
}

/// The lines that one database contributes: one for each of its mappings,
/// in their order, and none where the database could not be read.
pub open spec fn rows_of(fetch: FetchView) -> Seq<RowView> {
    match fetch.rows {
        Some(mappings) => Seq::new(mappings.len(), |i: int| row_of(fetch.database, mappings[i])),
        None => Seq::empty(),
    }
}

/// The lines of the whole listing: those of each database, in the order in
/// which the databases were visited.
pub open spec fn all_rows(fetches: Seq<FetchView>) -> Seq<RowView>
    decreases fetches.len(),
{
    if fetches.len() == 0 {
        Seq::empty()
    } else {
        all_rows(fetches.drop_last()) + rows_of(fetches.last())
    }
}

/// The databases that contribute at least one line.
pub open spec fn contributing(fetches: Seq<FetchView>) -> Set<Seq<char>>
    decreases fetches.len(),
{
    if fetches.len() == 0 {
        Set::empty()
    } else if rows_of(fetches.last()).len() > 0 {
        contributing(fetches.drop_last()).insert(fetches.last().database)
    } else {
        contributing(fetches.drop_last())
    }
}

/// The mappings of a server, gathered from its databases.
#[derive(Debug, Clone, PartialEq, Eq)]
pub struct Listing {
    /// The lines, grouped by database in the order of the visit.
    pub rows: Vec<MappingRow>,
    /// The number of databases that contributed at least one line.
    pub databases: usize,
}

/// A copy of a list of strings.
fn clone_strings(list: &Vec<String>) -> (copy: Vec<String>)
    ensures
        texts(copy@) == texts(list@),
{
    let mut copy: Vec<String> = Vec::new();
    let mut i: usize = 0;
    while i < list.len()
        invariant
            i <= list.len(),
            texts(copy@) == texts(list@).take(i as int),
        decreases list.len() - i,
    {
        let ghost before = texts(copy@);
        copy.push(list[i].clone());
        assert(texts(copy@) =~= before.push(list@[i as int]@));
        i = i + 1;
        assert(texts(copy@) =~= texts(list@).take(i as int));
    }
    assert(texts(list@).take(i as int) =~= texts(list@));
    copy
}

/// Whether a list of strings holds the text `name`.
fn contains_text(list: &Vec<String>, name: &str) -> (r: bool)
    ensures
        r == texts(list@).contains(name@),
{
    let mut i: usize = 0;
    while i < list.len()
        invariant
            i <= list.len(),
            forall|k: int| 0 <= k < i ==> texts(list@)[k] != name@,
        decreases list.len() - i,
    {
        if same_text(list[i].as_str(), name) {
            assert(texts(list@)[i as int] == name@);
            return true;
        }
        i = i + 1;
    }
    false
}

/// The line of the listing for a mapping read from `database`.
fn row_from(database: &str, mapping: &FetchedMapping) -> (row: MappingRow)
    ensures
        row@ == row_of(database@, mapping@),
{
    let granted_to = match &mapping.granted_to {
        Some(members) => clone_strings(members),
        None => Vec::new(),
    };
    assert(mapping.granted_to is None ==> texts(granted_to@) =~= Seq::<Seq<char>>::empty());
    MappingRow {
        database: String::from_str(database),
        schema_name: mapping.schema_name.clone(),
        target_role: mapping.target_role.clone(),
        granted_to,
        created_at: mapping.created_at,
        updated_at: mapping.updated_at,
    }
}

/// Appends the lines that one database contributes and returns how many
/// they are.
fn push_rows(rows: &mut Vec<MappingRow>, fetch: &DatabaseFetch) -> (added: usize)
    ensures
        row_views(final(rows)@) == row_views(old(rows)@) + rows_of(fetch@),
        added == rows_of(fetch@).len(),
{
    match &fetch.result {
        FetchResult::Rows(mappings) => {
            let mut i: usize = 0;
            assert(row_views(rows@) =~= row_views(old(rows)@) + rows_of(fetch@).take(0));
            while i < mappings.len()
                invariant
                    i <= mappings.len(),
                    fetch.result == FetchResult::Rows(*mappings),
                    rows_of(fetch@).len() == mappings.len(),
                    row_views(rows@) == row_views(old(rows)@) + rows_of(fetch@).take(i as int),
                decreases mappings.len() - i,
            {
                let ghost before = row_views(rows@);
                let row = row_from(fetch.database.as_str(), &mappings[i]);
                assert(row@ == rows_of(fetch@)[i as int]);
                rows.push(row);
                assert(row_views(rows@) =~= before.push(row@));
                i = i + 1;
                assert(rows_of(fetch@).take(i as int) =~= rows_of(fetch@).take(i - 1).push(row@));
                assert(row_views(rows@) =~= row_views(old(rows)@) + rows_of(fetch@).take(
                    i as int,
                ));
            }
            assert(rows_of(fetch@).take(i as int) =~= rows_of(fetch@));
            i
        },
        _ => {
            assert(row_views(rows@) =~= row_views(old(rows)@) + rows_of(fetch@));
            0
        },
    }
}

/// Gathers what was fetched from each database into one listing.
///
/// Every database that could be read contributes all of its mappings, in
/// their order; one that could not be reached or read contributes nothing
/// and fails nothing. The count is that of the databases with at least one
/// mapping.
pub fn aggregate(fetches: &Vec<DatabaseFetch>) -> (listing: Listing)
    ensures
        row_views(listing.rows@) == all_rows(fetch_views(fetches@)),
        listing.databases == contributing(fetch_views(fetches@)).len(),
{
    let mut rows: Vec<MappingRow> = Vec::new();
    let mut seen: Vec<String> = Vec::new();
    let mut i: usize = 0;
    assert(row_views(rows@) =~= Seq::<RowView>::empty());
    assert(texts(seen@).to_set() =~= Set::<Seq<char>>::empty());
    while i < fetches.len()
        invariant
            i <= fetches.len(),
            seen.len() <= i,
            row_views(rows@) == all_rows(fetch_views(fetches@).take(i as int)),
            texts(seen@).no_duplicates(),
            texts(seen@).to_set() == contributing(fetch_views(fetches@).take(i as int)),
        decreases fetches.len() - i,
    {
        assert(fetch_views(fetches@).take(i + 1).drop_last() =~= fetch_views(fetches@).take(
            i as int,
        ));
        assert(fetch_views(fetches@).take(i + 1).last() == fetches@[i as int]@);
        let added = push_rows(&mut rows, &fetches[i]);
        if added > 0 && !contains_text(&seen, fetches[i].database.as_str()) {
            let ghost before = texts(seen@);
            seen.push(fetches[i].database.clone());
            assert(texts(seen@) =~= before.push(fetches@[i as int].database@));
            proof {
                before.lemma_push_to_set_commute(fetches@[i as int].database@);
            }
        } else if added > 0 {
            assert(texts(seen@).to_set().insert(fetches@[i as int].database@) =~= texts(
                seen@,
            ).to_set());
        }
        i = i + 1;
    }
    assert(fetch_views(fetches@).take(i as int) =~= fetch_views(fetches@));
    proof {
        texts(seen@).unique_seq_to_set();
    }
    Listing { rows, databases: seen.len() }
}

/// A database that could not be reached or read changes nothing in the
/// listing of the others: the lines and the count are those that the
/// remaining databases give without it.
pub proof fn lemma_unreadable_database_is_left_out(fetches: Seq<FetchView>, i: int)
    requires
        0 <= i < fetches.len(),
        fetches[i].rows is None,
    ensures
        all_rows(fetches) == all_rows(fetches.remove(i)),
        contributing(fetches) == contributing(fetches.remove(i)),
    decreases fetches.len(),
{
    if i == fetches.len() - 1 {
        assert(fetches.remove(i) =~= fetches.drop_last());
        assert(all_rows(fetches.drop_last()) + rows_of(fetches.last()) =~= all_rows(
            fetches.drop_last(),
        ));
    } else {
        lemma_unreadable_database_is_left_out(fetches.drop_last(), i);
        assert(fetches.remove(i).drop_last() =~= fetches.drop_last().remove(i));
        assert(fetches.remove(i).last() == fetches.last());
    }
}

/// Every mapping of a database that could be read is in the listing, under
/// the name of its database.
pub proof fn lemma_readable_database_is_listed(fetches: Seq<FetchView>, i: int, k: int)
    requires
        0 <= i < fetches.len(),
        fetches[i].rows is Some,
        0 <= k < fetches[i].rows->0.len(),
    ensures
        all_rows(fetches).contains(row_of(fetches[i].database, fetches[i].rows->0[k])),
    decreases fetches.len(),
{
    let row = row_of(fetches[i].database, fetches[i].rows->0[k]);
    let head = all_rows(fetches.drop_last());
    let tail = rows_of(fetches.last());
    if i == fetches.len() - 1 {
        assert(tail[k] == row);
        assert((head + tail)[head.len() + k] == row);
    } else {
        lemma_readable_database_is_listed(fetches.drop_last(), i, k);
        let j = choose|j: int| 0 <= j < head.len() && head[j] == row;
        assert((head + tail)[j] == row);
    }
}

/// The members of a role as they are shown: their names separated by a
/// comma and a space, or `(none)` where there are none.
pub open spec fn members_text(members: Seq<Seq<char>>) -> Seq<char>
    decreases members.len(),
{
    if members.len() == 0 {
        "(none)"@
    } else if members.len() == 1 {
        members[0]
    } else {
        members_text(members.drop_last()) + ", "@ + members.last()
    }
}

/// The members of a role as they are shown.
pub fn members_display(members: &Vec<String>) -> (r: String)
    ensures
        r@ == members_text(texts(members@)),
{
    if members.len() == 0 {
        return String::from_str("(none)");
    }
    let mut out = String::from_str(members[0].as_str());
    let mut i: usize = 1;
    assert(texts(members@).take(1) =~= seq![members@[0]@]);
    while i < members.len()
        invariant
            1 <= i <= members.len(),
            out@ == members_text(texts(members@).take(i as int)),
        decreases members.len() - i,
    {
        assert(texts(members@).take(i + 1).drop_last() =~= texts(members@).take(i as int));
        out.append(", ");
        out.append(members[i].as_str());
        i = i + 1;
    }
    assert(texts(members@).take(i as int) =~= texts(members@));
    out
}

/// A text cut down to a column of `max_len` bytes.
pub open spec fn cut(s: Seq<char>, max_len: nat) -> Seq<char> {
    truncated(s, encode_utf8(s), max_len)
}

/// Whether both texts of a line that are cut down, the target role and the
/// members, can be cut without splitting a character.
pub open spec fn can_render(row: RowView) -> bool {
    &&& can_truncate(encode_utf8(row.target_role), 30)
    &&& can_truncate(encode_utf8(members_text(row.granted_to)), 30)
}

/// Six columns, each left-aligned in its width and parted from the next by
/// one space.
pub open spec fn columns(
    database: Seq<char>,
    schema: Seq<char>,
    role: Seq<char>,
    members: Seq<char>,
    created: Seq<char>,
    updated: Seq<char>,
) -> Seq<char> {
    padded(database, 20) + " "@ + padded(schema, 20) + " "@ + padded(role, 30) + " "@ + padded(
        members,
        30,
    ) + " "@ + padded(created, 21) + " "@ + padded(updated, 19)
}

/// The line of a mapping: the role and its members are cut down to their
/// columns; `created` and `updated` are the texts of the two points in time.
pub open spec fn row_line(row: RowView, created: Seq<char>, updated: Seq<char>) -> Seq<char> {
    columns(
        row.database,
        row.schema_name,
        cut(row.target_role, 30),
        cut(members_text(row.granted_to), 30),
        created,
        updated,
    )
}

/// The line that heads the listing.
pub open spec fn header_line() -> Seq<char> {
    columns(
        "Database"@,
        "Schema"@,
        "Target Role"@,
        "Granted To"@,
        "Created At"@,
        "Updated At"@,
    )
}

/// Lays six columns out in one line.
fn lay_out(
    database: &str,
    schema: &str,
    role: &str,
    members: &str,
    created: &str,
    updated: &str,
) -> (line: String)
    ensures
        line@ == columns(database@, schema@, role@, members@, created@, updated@),
{
    let mut out = pad_right(database, 20);
    out.append(" ");
    out.append(pad_right(schema, 20).as_str());
    out.append(" ");
    out.append(pad_right(role, 30).as_str());
    out.append(" ");
    out.append(pad_right(members, 30).as_str());
    out.append(" ");
    out.append(pad_right(created, 21).as_str());
    out.append(" ");
    out.append(pad_right(updated, 19).as_str());
    out
}

/// The line that heads the listing.
pub fn header() -> (line: String)
    ensures
        line@ == header_line(),
{
    lay_out("Database", "Schema", "Target Role", "Granted To", "Created At", "Updated At")
}

/// The line of a mapping, given the texts of its two points in time.
pub fn render_row(row: &MappingRow, created: &str, updated: &str) -> (line: String)
    requires
        can_render(row@),
    ensures
        line@ == row_line(row@, created@, updated@),
{
    let role = truncate_with_ellipsis(row.target_role.as_str(), 30);
    let display = members_display(&row.granted_to);
    let members = truncate_with_ellipsis(display.as_str(), 30);
    lay_out(
        row.database.as_str(),
        row.schema_name.as_str(),
        role.as_str(),
        members.as_str(),
        created,
        updated,
    )
}

/// The line of a mapping, or `None` where it cannot be laid out: where a
/// cut would split a character, or a point in time is out of the range of
/// dates that can be shown.
pub open spec fn row_text(row: RowView) -> Option<Seq<char>> {
    if can_render(row) && timestamp_text(row.created_at) is Some && timestamp_text(
        row.updated_at,
    ) is Some {
        Some(
            row_line(row, timestamp_text(row.created_at)->0, timestamp_text(row.updated_at)->0),
        )
    } else {
        None
    }
}

/// The line of a mapping, or `None` where it cannot be laid out.
pub fn format_row(row: &MappingRow) -> (r: Option<String>)
    ensures
        match r {
            Some(line) => row_text(row@) == Some(line@),
            None => row_text(row@) is None,
        },
{
    let role = try_truncate(row.target_role.as_str(), 30);
    let display = members_display(&row.granted_to);
    let members = try_truncate(display.as_str(), 30);
    let created = format_timestamp(row.created_at);
    let updated = format_timestamp(row.updated_at);
    match (role, members, created, updated) {
        (Some(_), Some(_), Some(created), Some(updated)) => Some(
            render_row(row, created.as_str(), updated.as_str()),
        ),
        _ => None,
    }
}

/// What is said where the server has no database to visit.
pub const NO_DATABASES_MESSAGE: &'static str = "No non-system databases found.";

/// What is said of the databases selected for the visit before any of them
/// is visited: that there is nothing to list, where none was selected; and
/// nothing, where there is one to visit. Where something is said the
/// listing ends there.
pub open spec fn selection_notice_text(selected: Seq<Seq<char>>) -> Option<Seq<char>> {
    if selected.len() == 0 {
        Some(NO_DATABASES_MESSAGE@)
    } else {
        None
    }
}

/// What is said of the databases selected for the visit, if anything is.
pub fn selection_notice(selected: &Vec<String>) -> (notice: Option<String>)
    ensures
        optional_text(notice) == selection_notice_text(texts(selected@)),
{
    if selected.len() == 0 {
        Some(String::from_str(NO_DATABASES_MESSAGE))
    } else {
        None
    }
}

/// What is said where no database holds a mapping.
pub const NO_MAPPINGS_MESSAGE: &'static str = "No schema-to-role mappings found in any database.";

/// The advice that follows [`NO_MAPPINGS_MESSAGE`].
pub const INIT_HINT: &'static str = "Run 'init' command to set up the pattern in a database.";

/// The width of the rule under the header.
pub const RULE_WIDTH: usize = 144;

/// The line that closes the listing.
pub open spec fn total_line(mappings: nat, databases: nat) -> Seq<char> {
    "Total mappings: "@ + decimal(mappings) + " across "@ + decimal(databases)
        + " database(s)"@
}

/// The lines of the first `count` rows, or `None` where one of them cannot
/// be laid out.
pub open spec fn row_texts(rows: Seq<RowView>, count: nat) -> Option<Seq<Seq<char>>>
    decreases count,
{
    if count == 0 {
        Some(Seq::empty())
    } else {
        match (row_texts(rows, (count - 1) as nat), row_text(rows[count - 1])) {
            (Some(lines), Some(line)) => Some(lines.push(line)),
            _ => None,
        }
    }
}

/// The listing as it is printed: where there is no mapping, a message and
/// an advice; else the header, a rule, one line for each mapping, a blank
/// line and the totals. `None` where a line cannot be laid out.
pub open spec fn listing_text(rows: Seq<RowView>, databases: nat) -> Option<Seq<Seq<char>>> {
    if rows.len() == 0 {
        Some(seq![NO_MAPPINGS_MESSAGE@, INIT_HINT@])
    } else {
        match row_texts(rows, rows.len()) {
            Some(lines) => Some(
                seq![header_line(), repeated('-', RULE_WIDTH as nat)] + lines + seq![
                    Seq::<char>::empty(),
                    total_line(rows.len(), databases),
                ],
            ),
            None => None,
        }
    }
}

/// The listing as it is printed, one string per line.
pub fn render_listing(listing: &Listing) -> (r: Option<Vec<String>>)
    ensures
        match r {
            Some(lines) => listing_text(row_views(listing.rows@), listing.databases as nat)
                == Some(texts(lines@)),
            None => listing_text(row_views(listing.rows@), listing.databases as nat) is None,
        },
{
    let mut lines: Vec<String> = Vec::new();
    if listing.rows.len() == 0 {
        lines.push(String::from_str(NO_MAPPINGS_MESSAGE));
        lines.push(String::from_str(INIT_HINT));
        assert(texts(lines@) =~= seq![NO_MAPPINGS_MESSAGE@, INIT_HINT@]);
        return Some(lines);
    }
    lines.push(header());
    let mut rule = String::new();
    push_repeated(&mut rule, '-', RULE_WIDTH);
    lines.push(rule);
    let ghost head = seq![header_line(), repeated('-', RULE_WIDTH as nat)];
    assert(texts(lines@) =~= head + Seq::<Seq<char>>::empty());
    let ghost rows = row_views(listing.rows@);
    let mut i: usize = 0;
    while i < listing.rows.len()
        invariant
            i <= listing.rows.len(),
            rows == row_views(listing.rows@),
            row_texts(rows, i as nat) is Some,
            texts(lines@) == head + row_texts(rows, i as nat)->0,
        decreases listing.rows.len() - i,
    {
        let ghost before = texts(lines@);
        match format_row(&listing.rows[i]) {
            Some(line) => {
                lines.push(line);
                assert(texts(lines@) =~= before.push(line@));
            },
            None => {
                assert(row_texts(rows, (i + 1) as nat) is None);
                assert(row_texts(rows, rows.len()) is None) by {
                    lemma_row_texts_fail(rows, (i + 1) as nat, rows.len());
                }
                return None;
            },
        }
        i = i + 1;
        assert(texts(lines@) =~= head + row_texts(rows, i as nat)->0);
    }
    let ghost before = texts(lines@);
    lines.push(String::new());
    let mut total = String::from_str("Total mappings: ");
    push_decimal(&mut total, listing.rows.len() as u64);
    total.append(" across ");
    push_decimal(&mut total, listing.databases as u64);
    total.append(" database(s)");
    lines.push(total);
    assert(texts(lines@) =~= before + seq![
        Seq::<char>::empty(),
        total_line(rows.len(), listing.databases as nat),
    ]);
    Some(lines)
}

/// Once a row cannot be laid out, no longer run of rows can.
proof fn lemma_row_texts_fail(rows: Seq<RowView>, short: nat, long: nat)
    requires
        short <= long,
        row_texts(rows, short) is None,
    ensures
        row_texts(rows, long) is None,
    decreases long,
{
    if short < long {
        lemma_row_texts_fail(rows, short, (long - 1) as nat);
    }
}

/// A failure to read the mapping table of a database: a missing table means
/// that the database was never provisioned.
pub fn classify_fetch_failure(sqlstate: &Option<String>) -> (result: FetchResult)
    ensures
        optional_text(*sqlstate) == Some(UNDEFINED_TABLE@) ==> result is NotInitialized,
        optional_text(*sqlstate) != Some(UNDEFINED_TABLE@) ==> result is QueryFailed,
{
    if is_undefined_table(sqlstate) {
        FetchResult::NotInitialized
    } else {
        FetchResult::QueryFailed
    }
}

/// `head`, `name`, `middle`, `cause`.
fn message4(head: &str, name: &str, middle: &str, cause: &str) -> (line: String)
    ensures
        line@ == head@ + name@ + middle@ + cause@,
{
    let mut out = String::from_str(head);
    out.append(name);
    out.append(middle);
    out.append(cause);
    out
}

/// A line that is shown from the verbosity `level` on.
pub open spec fn shown_from(level: nat, verbose: nat, line: Seq<char>) -> Option<Seq<char>> {
    if verbose >= level {
        Some(line)
    } else {
        None
    }
}

/// The warning about a database that could not be reached.
pub open spec fn connect_warning_text(database: Seq<char>, cause: Seq<char>) -> Seq<char> {
    "Warning: Failed to connect to database '"@ + database + "': "@ + cause
}

/// The warning about a database whose mapping table could not be read.
pub open spec fn query_warning_text(database: Seq<char>, cause: Seq<char>) -> Seq<char> {
    "Warning: Failed to query database '"@ + database + "': "@ + cause
}

/// The note about a database that has no mapping table.
pub open spec fn missing_table_text(database: Seq<char>) -> Seq<char> {
    "  No schema_ownership_config in database '"@ + database + "'"@
}

/// The warning about a role whose members could not be looked up.
pub open spec fn members_warning_text(role: Seq<char>, cause: Seq<char>) -> Seq<char> {
    "Warning: Failed to query role members for '"@ + role + "': "@ + cause
}

/// The warning about a database that could not be reached, shown from
/// verbosity 1 on.
pub fn connect_warning(database: &str, cause: &str, verbose: u8) -> (line: Option<String>)
    ensures
        optional_text(line) == shown_from(
            1,
            verbose as nat,
            connect_warning_text(database@, cause@),
        ),
{
    if verbose >= 1 {
        Some(message4("Warning: Failed to connect to database '", database, "': ", cause))
    } else {
        None
    }
}

/// What is said of a database whose mapping table could not be read, shown
/// from verbosity 1 on: a note where the table is missing, a warning with
/// the cause otherwise.
pub fn fetch_failure_line(database: &str, sqlstate: &Option<String>, cause: &str, verbose: u8)
    -> (line: Option<String>)
    ensures
        optional_text(line) == shown_from(
            1,
            verbose as nat,
            if optional_text(*sqlstate) == Some(UNDEFINED_TABLE@) {
                missing_table_text(database@)
            } else {
                query_warning_text(database@, cause@)
            },
        ),
{
    if verbose < 1 {
        None
    } else if is_undefined_table(sqlstate) {
        let mut out = String::from_str("  No schema_ownership_config in database '");
        out.append(database);
        out.append("'");
        Some(out)
    } else {
        Some(message4("Warning: Failed to query database '", database, "': ", cause))
    }
}

/// The warning about a role whose members could not be looked up, shown
/// from verbosity 1 on.
pub fn members_warning(role: &str, cause: &str, verbose: u8) -> (line: Option<String>)
    ensures
        optional_text(line) == shown_from(
            1,
            verbose as nat,
            members_warning_text(role@, cause@),
        ),
{
    if verbose >= 1 {
        Some(message4("Warning: Failed to query role members for '", role, "': ", cause))
    } else {
        None
    }
}

/// The line that traces the listing of the databases, shown from verbosity
/// 1 on.
pub fn databases_trace(verbose: u8) -> (line: Option<String>)
    ensures
        optional_text(line) == shown_from(1, verbose as nat, "[SQL] "@ + LIST_DATABASES_SQL@),
{
    if verbose >= 1 {
        let mut out = String::from_str("[SQL] ");
        out.append(LIST_DATABASES_SQL);
        Some(out)
    } else {
        None
    }
}

/// The line that traces the reading of a database's mapping table, shown
/// from verbosity 1 on.
pub fn mappings_trace(database: &str, verbose: u8) -> (line: Option<String>)
    ensures
        optional_text(line) == shown_from(
            1,
            verbose as nat,
            "[SQL] "@ + LIST_MAPPINGS_SQL@ + " (database: "@ + database@ + ")"@,
        ),
{
    if verbose >= 1 {
        let mut out = String::from_str("[SQL] ");
        out.append(LIST_MAPPINGS_SQL);
        out.append(" (database: ");
        out.append(database);
        out.append(")");
        Some(out)
    } else {
        None
    }
}

/// The line that traces the lookup of a role's members, shown from
/// verbosity 2 on.
pub fn members_trace(database: &str, role: &str, verbose: u8) -> (line: Option<String>)
    ensures
        optional_text(line) == shown_from(
            2,
            verbose as nat,
            "[SQL] "@ + ROLE_MEMBERS_SQL@ + " (database: "@ + database@ + ", role: "@ + role@
                + ")"@,
        ),
{
    if verbose >= 2 {
        let mut out = String::from_str("[SQL] ");
        out.append(ROLE_MEMBERS_SQL);
        out.append(" (database: ");
        out.append(database);
        out.append(", role: ");
        out.append(role);
        out.append(")");
        Some(out)
    } else {
        None
    }
}

/// What a failure to read the mapping table is reported as where a single
/// database is listed.
pub const LIST_MAPPINGS_FAILURE: &'static str = "Failed to query schema_ownership_config";

/// The mappings of a single database.
#[derive(Debug, Clone, PartialEq, Eq)]
pub enum SingleListing {
    /// The database has no mapping table: it was never provisioned. This is
    /// no error; the user is told how to provision it.
    NotInitialized,
    /// The lines of the database's mappings, by schema name.
    Mappings(Vec<MappingRow>),
}

/// The listing of a single database. A database without a mapping table is
/// listed as not initialized; one that could not be reached or read is an
/// error, since there is no other database to go on with.
pub fn list_database(fetch: &DatabaseFetch) -> (r: Result<SingleListing, CommandError>)
    ensures
        match fetch.result {
            FetchResult::Unreachable => r is Err && r->Err_0@ == (ErrorView::Connectivity {
                context: None,
            }),
            FetchResult::QueryFailed => r is Err && r->Err_0@ == (ErrorView::Connectivity {
                context: Some(LIST_MAPPINGS_FAILURE@),
            }),
            FetchResult::NotInitialized => r is Ok && r->Ok_0 is NotInitialized,
            FetchResult::Rows(_) => r is Ok && r->Ok_0 is Mappings && row_views(
                r->Ok_0->Mappings_0@,
            ) == rows_of(fetch@),
        },
{
    match &fetch.result {
        FetchResult::Unreachable => Err(CommandError::Connectivity { context: None }),
        FetchResult::QueryFailed => Err(
            CommandError::Connectivity {
                context: Some(String::from_str(LIST_MAPPINGS_FAILURE)),
            },
        ),
        FetchResult::NotInitialized => Ok(SingleListing::NotInitialized),
        FetchResult::Rows(_) => {
            let mut rows: Vec<MappingRow> = Vec::new();
            assert(row_views(rows@) =~= Seq::<RowView>::empty());
            let _ = push_rows(&mut rows, fetch);
            assert(row_views(rows@) =~= rows_of(fetch@));
            Ok(SingleListing::Mappings(rows))
        },
    }
}

/// The listing of a single database as it is printed: the advice to
/// provision the database where it has no mapping table, else the lines of
/// its mappings as in the listing of a whole server.
pub fn render_single(listing: SingleListing) -> (r: Option<Vec<String>>)
    ensures
        match listing {
            SingleListing::NotInitialized => r is Some && texts(r->0@) == seq![
                NOT_INITIALIZED_MESSAGE@,
            ],
            SingleListing::Mappings(rows) => match r {
                Some(lines) => listing_text(
                    row_views(rows@),
                    if rows@.len() > 0 {
                        1nat
                    } else {
                        0nat
                    },
                ) == Some(texts(lines@)),
                None => listing_text(
                    row_views(rows@),
                    if rows@.len() > 0 {
                        1nat
                    } else {
                        0nat
                    },
                ) is None,
            },
        },
{
    match listing {
        SingleListing::NotInitialized => {
            let mut lines: Vec<String> = Vec::new();
            lines.push(String::from_str(NOT_INITIALIZED_MESSAGE));
            assert(texts(lines@) =~= seq![NOT_INITIALIZED_MESSAGE@]);
            Some(lines)
        },
        SingleListing::Mappings(rows) => {
            let databases: usize = if rows.len() > 0 {
                1
            } else {
                0
            };
            render_listing(&Listing { rows, databases })
        },
    }
}

/// Whether the line `a` is listed before the line `b`: by the name of the
/// database, and within a database by the name of the schema.
pub open spec fn row_precedes(a: RowView, b: RowView) -> bool {
    precedes(a.database, b.database) || (a.database == b.database && precedes(
        a.schema_name,
        b.schema_name,
    ))
}

/// Whether the lines stand grouped by database name, then schema name.
pub open spec fn listed_in_order(rows: Seq<RowView>) -> bool {
    forall|i: int, j: int|
        0 <= i < j < rows.len() ==> row_precedes(#[trigger] rows[i], #[trigger] rows[j])
}

/// Whether the databases were visited in the order of their names and the
/// mappings of each were read in the order of their schema names, as the
/// two listing statements ask the server to give them.
pub open spec fn fetched_in_order(fetches: Seq<FetchView>) -> bool {
    &&& forall|i: int, j: int|
        0 <= i < j < fetches.len() ==> precedes(
            (#[trigger] fetches[i]).database,
            (#[trigger] fetches[j]).database,
        )
    &&& forall|k: int, i: int, j: int|
        0 <= k < fetches.len() && fetches[k].rows is Some && 0 <= i < j < fetches[k].rows->0.len()
            ==> precedes(
            (#[trigger] fetches[k].rows->0[i]).schema_name,
            (#[trigger] fetches[k].rows->0[j]).schema_name,
        )
}

/// Every line of a listing comes from one of the databases.
proof fn lemma_row_origin(fetches: Seq<FetchView>, i: int)
    requires
        0 <= i < all_rows(fetches).len(),
    ensures
        exists|k: int|
            0 <= k < fetches.len() && all_rows(fetches)[i].database
                == (#[trigger] fetches[k]).database,
    decreases fetches.len(),
{
    let head = all_rows(fetches.drop_last());
    if i < head.len() {
        lemma_row_origin(fetches.drop_last(), i);
        let k = choose|k: int|
            0 <= k < fetches.drop_last().len() && head[i].database
                == (#[trigger] fetches.drop_last()[k]).database;
        assert(fetches[k] == fetches.drop_last()[k]);
    } else {
        assert(all_rows(fetches)[i].database == fetches[fetches.len() - 1].database);
    }
}

/// Where the databases were visited by name and the mappings of each were
/// read by schema name, the listing is grouped by database name, then
/// schema name: gathering keeps the order.
pub proof fn lemma_listing_in_order(fetches: Seq<FetchView>)
    requires
        fetched_in_order(fetches),
    ensures
        listed_in_order(all_rows(fetches)),
    decreases fetches.len(),
{
    if fetches.len() > 0 {
        let rest = fetches.drop_last();
        let last = fetches.last();
        assert(last == fetches[fetches.len() - 1]);
        assert forall|k: int| 0 <= k < rest.len() implies rest[k] == fetches[k] by {}
        assert(fetched_in_order(rest));
        lemma_listing_in_order(rest);
        let head = all_rows(rest);
        let tail = rows_of(last);
        let rows = all_rows(fetches);
        assert forall|i: int, j: int| 0 <= i < j < rows.len() implies row_precedes(
            #[trigger] rows[i],
            #[trigger] rows[j],
        ) by {
            if j < head.len() {
                assert(rows[i] == head[i] && rows[j] == head[j]);
            } else if i >= head.len() {
                let a = i - head.len();
                let b = j - head.len();
                assert(rows[i] == tail[a] && rows[j] == tail[b]);
                assert(precedes(
                    fetches[fetches.len() - 1].rows->0[a].schema_name,
                    fetches[fetches.len() - 1].rows->0[b].schema_name,
                ));
            } else {
                lemma_row_origin(rest, i);
                let k = choose|k: int|
                    0 <= k < rest.len() && head[i].database == (#[trigger] rest[k]).database;
                assert(rows[i] == head[i]);
                assert(rows[j] == tail[j - head.len()]);
                assert(precedes(fetches[k].database, fetches[fetches.len() - 1].database));
            }
        }
    }
}

} // verus!

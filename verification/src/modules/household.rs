//! The members of the household and their documents.

use crate::db::{
    column, opt_str_view, opt_view, read_strict, reads_all, row_fits, Cell, Column, ColumnKind,
    Fetched, FromRow, Insertion, Query, ReadError, Statement, Value,
};
use crate::stamp::{is_record_id, RecordStamp};
use vstd::prelude::*;
use vstd::string::*;

verus! {

/// A member of the household.
#[derive(Debug, Clone)]
pub struct Member {
    pub id: String,
    pub name: String,
    pub relationship: String,
    pub date_of_birth: Option<String>,
    pub profile_photo_path: Option<String>,
    pub is_primary: bool,
}

/// A document of the household or of one of its members.
#[derive(Debug, Clone)]
pub struct Document {
    pub id: String,
    pub member_id: Option<String>,
    pub name: String,
    pub document_type: String,
    pub document_number: Option<String>,
    pub issue_date: Option<String>,
    pub expiry_date: Option<String>,
    pub issuing_authority: Option<String>,
}

/// Inserts a member.
pub const INSERT_MEMBER: &'static str =
    "INSERT INTO members (id, name, relationship, date_of_birth, is_primary, created_at, updated_at) VALUES (?1, ?2, ?3, ?4, ?5, ?6, ?7)";

/// Selects the members who are not deleted.
pub const SELECT_MEMBERS: &'static str =
    "SELECT id, name, relationship, date_of_birth, profile_photo_path, is_primary FROM members WHERE deleted_at IS NULL";

/// Inserts a document.
pub const INSERT_DOCUMENT: &'static str =
    "INSERT INTO documents (id, member_id, name, document_type, document_number, expiry_date, created_at, updated_at) VALUES (?1, ?2, ?3, ?4, ?5, ?6, ?7, ?8)";

/// Selects the documents that are not deleted.
pub const SELECT_DOCUMENTS: &'static str =
    "SELECT id, member_id, name, document_type, document_number, issue_date, expiry_date, issuing_authority FROM documents WHERE deleted_at IS NULL";

/// Whether `s` inserts a member with the given fields, created and updated at
/// `now`.
pub open spec fn is_member_insert(
    s: Statement,
    id: Seq<char>,
    now: Seq<char>,
    name: Seq<char>,
    relationship: Seq<char>,
    date_of_birth: Option<Seq<char>>,
    is_primary: bool,
) -> bool {
    &&& s.sql@ == INSERT_MEMBER@
    &&& s.params@.len() == 7
    &&& s.params@[0].is_text(id)
    &&& s.params@[1].is_text(name)
    &&& s.params@[2].is_text(relationship)
    &&& s.params@[3].is_opt_text(date_of_birth)
    &&& s.params@[4].is_flag(is_primary)
    &&& s.params@[5].is_text(now)
    &&& s.params@[6].is_text(now)
}

/// The statement that inserts a member under the identifier and time of
/// `stamp`.
pub fn insert_member(
    stamp: &RecordStamp,
    name: &str,
    relationship: &str,
    date_of_birth: Option<&str>,
    is_primary: bool,
) -> (s: Statement)
    ensures
        is_member_insert(
            s,
            stamp.id@,
            stamp.now@,
            name@,
            relationship@,
            opt_str_view(date_of_birth),
            is_primary,
        ),
{
    let params = vec![
        Value::text(stamp.id.as_str()),
        Value::text(name),
        Value::text(relationship),
        Value::opt_text(date_of_birth),
        Value::flag(is_primary),
        Value::text(stamp.now.as_str()),
        Value::text(stamp.now.as_str()),
    ];
    Statement { sql: String::from_str(INSERT_MEMBER), params }
}

/// The statement that adds a member under a fresh identifier and the current
/// time, with that identifier.
pub fn add_member(
    name: &str,
    relationship: &str,
    date_of_birth: Option<&str>,
    is_primary: bool,
) -> (r: Insertion)
    ensures
        is_record_id(r.id@),
        is_member_insert(
            r.statement,
            r.id@,
            r.statement.params@[5].as_text(),
            name@,
            relationship@,
            opt_str_view(date_of_birth),
            is_primary,
        ),
{
    let stamp = RecordStamp::fresh();
    let statement = insert_member(&stamp, name, relationship, date_of_birth, is_primary);
    Insertion { id: stamp.id, statement }
}

/// The columns of a member's row. The primary flag is read first.
pub open spec fn member_columns() -> Seq<Column> {
    seq![
        Column { index: 5, kind: ColumnKind::SmallInteger },
        Column { index: 0, kind: ColumnKind::Text },
        Column { index: 1, kind: ColumnKind::Text },
        Column { index: 2, kind: ColumnKind::Text },
        Column { index: 3, kind: ColumnKind::OptText },
        Column { index: 4, kind: ColumnKind::OptText },
    ]
}

impl FromRow for Member {
    open spec fn well_shaped(cells: Seq<Cell>) -> bool {
        row_fits(cells, member_columns())
    }

    /// A member counts as primary where the stored flag is not zero.
    open spec fn reads(&self, cells: Seq<Cell>) -> bool {
        &&& cells.len() == 6
        &&& cells[0] matches Cell::Integer(primary) && self.is_primary == (primary != 0)
        &&& cells[1].is_text(self.id@)
        &&& cells[2].is_text(self.name@)
        &&& cells[3].is_text(self.relationship@)
        &&& cells[4].is_opt_text(opt_view(self.date_of_birth))
        &&& cells[5].is_opt_text(opt_view(self.profile_photo_path))
    }

    fn from_cells(cells: &Vec<Cell>) -> (r: Option<Self>) {
        if cells.len() != 6 {
            return None;
        }
        let primary = cells[0].small_integer()?;
        let id = cells[1].text()?;
        let name = cells[2].text()?;
        let relationship = cells[3].text()?;
        let date_of_birth = cells[4].opt_text()?;
        let profile_photo_path = cells[5].opt_text()?;
        Some(
            Member {
                id,
                name,
                relationship,
                date_of_birth,
                profile_photo_path,
                is_primary: primary != 0,
            },
        )
    }
}

/// The query for the members who are not deleted.
pub fn members_query() -> (q: Query)
    ensures
        q.sql@ == SELECT_MEMBERS@,
        q.params@.len() == 0,
        q.columns@ == member_columns(),
{
    let columns = vec![
        column(5, ColumnKind::SmallInteger),
        column(0, ColumnKind::Text),
        column(1, ColumnKind::Text),
        column(2, ColumnKind::Text),
        column(3, ColumnKind::OptText),
        column(4, ColumnKind::OptText),
    ];
    assert(columns@ =~= member_columns());
    Query { sql: String::from_str(SELECT_MEMBERS), params: Vec::new(), columns }
}

/// The members in the answer to `members_query`: all of them, or the failure
/// of the first row that cannot be read.
pub fn get_members<E>(fetched: Fetched<E>) -> (r: Result<Vec<Member>, ReadError<E>>)
    ensures
        match fetched {
            Ok(rows) => reads_all(r, rows@),
            Err(e) => r == Err::<Vec<Member>, ReadError<E>>(ReadError::Database(e)),
        },
{
    read_strict(fetched)
}

/// Whether `s` inserts a document with the given fields, created and updated
/// at `now`.
pub open spec fn is_document_insert(
    s: Statement,
    id: Seq<char>,
    now: Seq<char>,
    member_id: Option<Seq<char>>,
    name: Seq<char>,
    document_type: Seq<char>,
    document_number: Option<Seq<char>>,
    expiry_date: Option<Seq<char>>,
) -> bool {
    &&& s.sql@ == INSERT_DOCUMENT@
    &&& s.params@.len() == 8
    &&& s.params@[0].is_text(id)
    &&& s.params@[1].is_opt_text(member_id)
    &&& s.params@[2].is_text(name)
    &&& s.params@[3].is_text(document_type)
    &&& s.params@[4].is_opt_text(document_number)
    &&& s.params@[5].is_opt_text(expiry_date)
    &&& s.params@[6].is_text(now)
    &&& s.params@[7].is_text(now)
}

/// The statement that inserts a document under the identifier and time of
/// `stamp`.
pub fn insert_document(
    stamp: &RecordStamp,
    member_id: Option<&str>,
    name: &str,
    document_type: &str,
    document_number: Option<&str>,
    expiry_date: Option<&str>,
) -> (s: Statement)
    ensures
        is_document_insert(
            s,
            stamp.id@,
            stamp.now@,
            opt_str_view(member_id),
            name@,
            document_type@,
            opt_str_view(document_number),
            opt_str_view(expiry_date),
        ),
{
    let params = vec![
        Value::text(stamp.id.as_str()),
        Value::opt_text(member_id),
        Value::text(name),
        Value::text(document_type),
        Value::opt_text(document_number),
        Value::opt_text(expiry_date),
        Value::text(stamp.now.as_str()),
        Value::text(stamp.now.as_str()),
    ];
    Statement { sql: String::from_str(INSERT_DOCUMENT), params }
}

/// The statement that adds a document under a fresh identifier and the
/// current time, with that identifier.
pub fn add_document(
    member_id: Option<&str>,
    name: &str,
    document_type: &str,
    document_number: Option<&str>,
    expiry_date: Option<&str>,
) -> (r: Insertion)
    ensures
        is_record_id(r.id@),
        is_document_insert(
            r.statement,
            r.id@,
            r.statement.params@[6].as_text(),
            opt_str_view(member_id),
            name@,
            document_type@,
            opt_str_view(document_number),
            opt_str_view(expiry_date),
        ),
{
    let stamp = RecordStamp::fresh();
    let statement = insert_document(
        &stamp,
        member_id,
        name,
        document_type,
        document_number,
        expiry_date,
    );
    Insertion { id: stamp.id, statement }
}

/// The columns of a document's row.
pub open spec fn document_columns() -> Seq<Column> {
    seq![
        Column { index: 0, kind: ColumnKind::Text },
        Column { index: 1, kind: ColumnKind::OptText },
        Column { index: 2, kind: ColumnKind::Text },
        Column { index: 3, kind: ColumnKind::Text },
        Column { index: 4, kind: ColumnKind::OptText },
        Column { index: 5, kind: ColumnKind::OptText },
        Column { index: 6, kind: ColumnKind::OptText },
        Column { index: 7, kind: ColumnKind::OptText },
    ]
}

impl FromRow for Document {
    open spec fn well_shaped(cells: Seq<Cell>) -> bool {
        row_fits(cells, document_columns())
    }

    open spec fn reads(&self, cells: Seq<Cell>) -> bool {
        &&& cells.len() == 8
        &&& cells[0].is_text(self.id@)
        &&& cells[1].is_opt_text(opt_view(self.member_id))
        &&& cells[2].is_text(self.name@)
        &&& cells[3].is_text(self.document_type@)
        &&& cells[4].is_opt_text(opt_view(self.document_number))
        &&& cells[5].is_opt_text(opt_view(self.issue_date))
        &&& cells[6].is_opt_text(opt_view(self.expiry_date))
        &&& cells[7].is_opt_text(opt_view(self.issuing_authority))
    }

    fn from_cells(cells: &Vec<Cell>) -> (r: Option<Self>) {
        if cells.len() != 8 {
            return None;
        }
        let id = cells[0].text()?;
        let member_id = cells[1].opt_text()?;
        let name = cells[2].text()?;
        let document_type = cells[3].text()?;
        let document_number = cells[4].opt_text()?;
        let issue_date = cells[5].opt_text()?;
        let expiry_date = cells[6].opt_text()?;
        let issuing_authority = cells[7].opt_text()?;
        Some(
            Document {
                id,
                member_id,
                name,
                document_type,
                document_number,
                issue_date,
                expiry_date,
                issuing_authority,
            },
        )
    }
}

/// The query for the documents that are not deleted.
pub fn documents_query() -> (q: Query)
    ensures
        q.sql@ == SELECT_DOCUMENTS@,
        q.params@.len() == 0,
        q.columns@ == document_columns(),
{
    let columns = vec![
        column(0, ColumnKind::Text),
        column(1, ColumnKind::OptText),
        column(2, ColumnKind::Text),
        column(3, ColumnKind::Text),
        column(4, ColumnKind::OptText),
        column(5, ColumnKind::OptText),
        column(6, ColumnKind::OptText),
        column(7, ColumnKind::OptText),
    ];
    assert(columns@ =~= document_columns());
    Query { sql: String::from_str(SELECT_DOCUMENTS), params: Vec::new(), columns }
}

/// The documents in the answer to `documents_query`: all of them, or the
/// failure of the first row that cannot be read.
pub fn get_documents<E>(fetched: Fetched<E>) -> (r: Result<Vec<Document>, ReadError<E>>)
    ensures
        match fetched {
            Ok(rows) => reads_all(r, rows@),
            Err(e) => r == Err::<Vec<Document>, ReadError<E>>(ReadError::Database(e)),
        },
{
    read_strict(fetched)
}

} // verus!

//! People to give to, and ideas for what to give them.

use crate::db::{
    column, opt_str_view, opt_view, read_strict, reads_all, row_fits, Cell, Column, ColumnKind,
    Fetched, FromRow, Insertion, Query, ReadError, Statement, Value,
};
use crate::stamp::{is_record_id, RecordStamp};
use vstd::prelude::*;
use vstd::string::*;

verus! {

/// Somebody who receives gifts.
#[derive(Debug, Clone)]
pub struct Person {
    pub id: String,
    pub name: String,
    pub relationship: Option<String>,
    pub date_of_birth: Option<String>,
}

/// An idea for a gift to a person.
#[derive(Debug, Clone)]
pub struct GiftIdea {
    pub id: String,
    pub person_id: String,
    pub description: String,
    pub estimated_price_cents: Option<i64>,
    pub status: String,
}

/// Inserts a person.
pub const INSERT_PERSON: &'static str =
    "INSERT INTO people (id, name, relationship, date_of_birth, created_at, updated_at) VALUES (?1, ?2, ?3, ?4, ?5, ?6)";

/// Selects the people who are not deleted.
pub const SELECT_PEOPLE: &'static str =
    "SELECT id, name, relationship, date_of_birth FROM people WHERE deleted_at IS NULL";

/// Inserts a gift idea.
pub const INSERT_GIFT_IDEA: &'static str =
    "INSERT INTO gift_ideas (id, person_id, description, estimated_price_cents, created_at, updated_at) VALUES (?1, ?2, ?3, ?4, ?5, ?6)";

/// Selects the gift ideas that are not deleted.
pub const SELECT_GIFT_IDEAS: &'static str =
    "SELECT id, person_id, description, estimated_price_cents, status FROM gift_ideas WHERE deleted_at IS NULL";

/// Whether `s` inserts a person with the given fields, created and updated at
/// `now`.
pub open spec fn is_person_insert(
    s: Statement,
    id: Seq<char>,
    now: Seq<char>,
    name: Seq<char>,
    relationship: Option<Seq<char>>,
    date_of_birth: Option<Seq<char>>,
) -> bool {
    &&& s.sql@ == INSERT_PERSON@
    &&& s.params@.len() == 6
    &&& s.params@[0].is_text(id)
    &&& s.params@[1].is_text(name)
    &&& s.params@[2].is_opt_text(relationship)
    &&& s.params@[3].is_opt_text(date_of_birth)
    &&& s.params@[4].is_text(now)
    &&& s.params@[5].is_text(now)
}

/// The statement that inserts a person under the identifier and time of
/// `stamp`.
pub fn insert_person(
    stamp: &RecordStamp,
    name: &str,
    relationship: Option<&str>,
    date_of_birth: Option<&str>,
) -> (s: Statement)
    ensures
        is_person_insert(
            s,
            stamp.id@,
            stamp.now@,
            name@,
            opt_str_view(relationship),
            opt_str_view(date_of_birth),
        ),
{
    let params = vec![
        Value::text(stamp.id.as_str()),
        Value::text(name),
        Value::opt_text(relationship),
        Value::opt_text(date_of_birth),
        Value::text(stamp.now.as_str()),
        Value::text(stamp.now.as_str()),
    ];
    Statement { sql: String::from_str(INSERT_PERSON), params }
}

/// The statement that adds a person under a fresh identifier and the current
/// time, with that identifier.
pub fn add_person(name: &str, relationship: Option<&str>, date_of_birth: Option<&str>) -> (r:
    Insertion)
    ensures
        is_record_id(r.id@),
        is_person_insert(
            r.statement,
            r.id@,
            r.statement.params@[4].as_text(),
            name@,
            opt_str_view(relationship),
            opt_str_view(date_of_birth),
        ),
{
    let stamp = RecordStamp::fresh();
    let statement = insert_person(&stamp, name, relationship, date_of_birth);
    Insertion { id: stamp.id, statement }
}

/// The columns of a person's row.
pub open spec fn person_columns() -> Seq<Column> {
    seq![
        Column { index: 0, kind: ColumnKind::Text },
        Column { index: 1, kind: ColumnKind::Text },
        Column { index: 2, kind: ColumnKind::OptText },
        Column { index: 3, kind: ColumnKind::OptText },
    ]
}

impl FromRow for Person {
    open spec fn well_shaped(cells: Seq<Cell>) -> bool {
        row_fits(cells, person_columns())
    }

    open spec fn reads(&self, cells: Seq<Cell>) -> bool {
        &&& cells.len() == 4
        &&& cells[0].is_text(self.id@)
        &&& cells[1].is_text(self.name@)
        &&& cells[2].is_opt_text(opt_view(self.relationship))
        &&& cells[3].is_opt_text(opt_view(self.date_of_birth))
    }

    fn from_cells(cells: &Vec<Cell>) -> (r: Option<Self>) {
        if cells.len() != 4 {
            return None;
        }
        let id = cells[0].text()?;
        let name = cells[1].text()?;
        let relationship = cells[2].opt_text()?;
        let date_of_birth = cells[3].opt_text()?;
        Some(Person { id, name, relationship, date_of_birth })
    }
}

/// The query for the people who are not deleted.
pub fn people_query() -> (q: Query)
    ensures
        q.sql@ == SELECT_PEOPLE@,
        q.params@.len() == 0,
        q.columns@ == person_columns(),
{
    let columns = vec![
        column(0, ColumnKind::Text),
        column(1, ColumnKind::Text),
        column(2, ColumnKind::OptText),
        column(3, ColumnKind::OptText),
    ];
    assert(columns@ =~= person_columns());
    Query { sql: String::from_str(SELECT_PEOPLE), params: Vec::new(), columns }
}

/// The people in the answer to `people_query`: all of them, or the failure of
/// the first row that cannot be read.
pub fn get_people<E>(fetched: Fetched<E>) -> (r: Result<Vec<Person>, ReadError<E>>)
    ensures
        match fetched {
            Ok(rows) => reads_all(r, rows@),
            Err(e) => r == Err::<Vec<Person>, ReadError<E>>(ReadError::Database(e)),
        },
{
    read_strict(fetched)
}

/// Whether `s` inserts a gift idea with the given fields, created and updated
/// at `now`.
pub open spec fn is_gift_idea_insert(
    s: Statement,
    id: Seq<char>,
    now: Seq<char>,
    person_id: Seq<char>,
    description: Seq<char>,
    estimated_price_cents: Option<i64>,
) -> bool {
    &&& s.sql@ == INSERT_GIFT_IDEA@
    &&& s.params@.len() == 6
    &&& s.params@[0].is_text(id)
    &&& s.params@[1].is_text(person_id)
    &&& s.params@[2].is_text(description)
    &&& s.params@[3].is_opt_integer(estimated_price_cents)
    &&& s.params@[4].is_text(now)
    &&& s.params@[5].is_text(now)
}

/// The statement that inserts a gift idea under the identifier and time of
/// `stamp`.
pub fn insert_gift_idea(
    stamp: &RecordStamp,
    person_id: &str,
    description: &str,
    estimated_price_cents: Option<i64>,
) -> (s: Statement)
    ensures
        is_gift_idea_insert(
            s,
            stamp.id@,
            stamp.now@,
            person_id@,
            description@,
            estimated_price_cents,
        ),
{
    let params = vec![
        Value::text(stamp.id.as_str()),
        Value::text(person_id),
        Value::text(description),
        Value::opt_integer(estimated_price_cents),
        Value::text(stamp.now.as_str()),
        Value::text(stamp.now.as_str()),
    ];
    Statement { sql: String::from_str(INSERT_GIFT_IDEA), params }
}

/// The statement that adds a gift idea under a fresh identifier and the
/// current time, with that identifier.
pub fn add_gift_idea(person_id: &str, description: &str, estimated_price_cents: Option<i64>) -> (r:
    Insertion)
    ensures
        is_record_id(r.id@),
        is_gift_idea_insert(
            r.statement,
            r.id@,
            r.statement.params@[4].as_text(),
            person_id@,
            description@,
            estimated_price_cents,
        ),
{
    let stamp = RecordStamp::fresh();
    let statement = insert_gift_idea(&stamp, person_id, description, estimated_price_cents);
    Insertion { id: stamp.id, statement }
}

/// The columns of a gift idea's row.
pub open spec fn gift_idea_columns() -> Seq<Column> {
    seq![
        Column { index: 0, kind: ColumnKind::Text },
        Column { index: 1, kind: ColumnKind::Text },
        Column { index: 2, kind: ColumnKind::Text },
        Column { index: 3, kind: ColumnKind::OptInteger },
        Column { index: 4, kind: ColumnKind::Text },
    ]
}

impl FromRow for GiftIdea {
    open spec fn well_shaped(cells: Seq<Cell>) -> bool {
        row_fits(cells, gift_idea_columns())
    }

    open spec fn reads(&self, cells: Seq<Cell>) -> bool {
        &&& cells.len() == 5
        &&& cells[0].is_text(self.id@)
        &&& cells[1].is_text(self.person_id@)
        &&& cells[2].is_text(self.description@)
        &&& cells[3] == Cell::OptInteger(self.estimated_price_cents)
        &&& cells[4].is_text(self.status@)
    }

    fn from_cells(cells: &Vec<Cell>) -> (r: Option<Self>) {
        if cells.len() != 5 {
            return None;
        }
        let id = cells[0].text()?;
        let person_id = cells[1].text()?;
        let description = cells[2].text()?;
        let estimated_price_cents = cells[3].opt_integer()?;
        let status = cells[4].text()?;
        Some(GiftIdea { id, person_id, description, estimated_price_cents, status })
    }
}

/// The query for the gift ideas that are not deleted.
pub fn gift_ideas_query() -> (q: Query)
    ensures
        q.sql@ == SELECT_GIFT_IDEAS@,
        q.params@.len() == 0,
        q.columns@ == gift_idea_columns(),
{
    let columns = vec![
        column(0, ColumnKind::Text),
        column(1, ColumnKind::Text),
        column(2, ColumnKind::Text),
        column(3, ColumnKind::OptInteger),
        column(4, ColumnKind::Text),
    ];
    assert(columns@ =~= gift_idea_columns());
    Query { sql: String::from_str(SELECT_GIFT_IDEAS), params: Vec::new(), columns }
}

/// The gift ideas in the answer to `gift_ideas_query`: all of them, or the
/// failure of the first row that cannot be read.
pub fn get_gift_ideas<E>(fetched: Fetched<E>) -> (r: Result<Vec<GiftIdea>, ReadError<E>>)
    ensures
        match fetched {
            Ok(rows) => reads_all(r, rows@),
            Err(e) => r == Err::<Vec<GiftIdea>, ReadError<E>>(ReadError::Database(e)),
        },
{
    read_strict(fetched)
}

} // verus!

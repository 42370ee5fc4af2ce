//! Trips.

use crate::db::{
    all_read, column, opt_str_view, opt_view, read_lenient, readable_rows, row_fits, Cell, Column,
    ColumnKind, Fetched, FromRow, Query, Statement, Value,
};
use crate::stamp::{is_record_id, RecordStamp};
use vstd::prelude::*;
use vstd::string::*;

verus! {

/// A trip, planned or made.
#[derive(Debug, Clone)]
pub struct Trip {
    pub id: String,
    pub name: String,
    pub destination: String,
    pub start_date: String,
    pub end_date: String,
    pub trip_type: Option<String>,
    pub status: String,
}

/// Selects the trips that are not deleted, earliest start first.
pub const SELECT_TRIPS: &'static str =
    "SELECT id, name, destination, start_date, end_date, trip_type, status FROM trips WHERE deleted_at IS NULL ORDER BY start_date ASC";

/// Inserts a trip in rupees that is being planned.
pub const INSERT_TRIP: &'static str =
    "INSERT INTO trips (id, name, destination, start_date, end_date, trip_type, status, currency_code, created_at, updated_at) VALUES (?1, ?2, ?3, ?4, ?5, ?6, 'planning', 'INR', ?7, ?8)";

/// The columns of a trip's row.
pub open spec fn trip_columns() -> Seq<Column> {
    seq![
        Column { index: 0, kind: ColumnKind::Text },
        Column { index: 1, kind: ColumnKind::Text },
        Column { index: 2, kind: ColumnKind::Text },
        Column { index: 3, kind: ColumnKind::Text },
        Column { index: 4, kind: ColumnKind::Text },
        Column { index: 5, kind: ColumnKind::OptText },
        Column { index: 6, kind: ColumnKind::Text },
    ]
}

impl FromRow for Trip {
    open spec fn well_shaped(cells: Seq<Cell>) -> bool {
        row_fits(cells, trip_columns())
    }

    open spec fn reads(&self, cells: Seq<Cell>) -> bool {
        &&& cells.len() == 7
        &&& cells[0].is_text(self.id@)
        &&& cells[1].is_text(self.name@)
        &&& cells[2].is_text(self.destination@)
        &&& cells[3].is_text(self.start_date@)
        &&& cells[4].is_text(self.end_date@)
        &&& cells[5].is_opt_text(opt_view(self.trip_type))
        &&& cells[6].is_text(self.status@)
    }

    fn from_cells(cells: &Vec<Cell>) -> (r: Option<Self>) {
        if cells.len() != 7 {
            return None;
        }
        let id = cells[0].text()?;
        let name = cells[1].text()?;
        let destination = cells[2].text()?;
        let start_date = cells[3].text()?;
        let end_date = cells[4].text()?;
        let trip_type = cells[5].opt_text()?;
        let status = cells[6].text()?;
        Some(Trip { id, name, destination, start_date, end_date, trip_type, status })
    }
}

/// The query for the trips that are not deleted, earliest start first.
pub fn trips_query() -> (q: Query)
    ensures
        q.sql@ == SELECT_TRIPS@,
        q.params@.len() == 0,
        q.columns@ == trip_columns(),
{
    let columns = vec![
        column(0, ColumnKind::Text),
        column(1, ColumnKind::Text),
        column(2, ColumnKind::Text),
        column(3, ColumnKind::Text),
        column(4, ColumnKind::Text),
        column(5, ColumnKind::OptText),
        column(6, ColumnKind::Text),
    ];
    assert(columns@ =~= trip_columns());
    Query { sql: String::from_str(SELECT_TRIPS), params: Vec::new(), columns }
}

/// The trips in the answer to `trips_query`. Rows that cannot be read are
/// skipped.
pub fn get_trips<E>(fetched: Fetched<E>) -> (r: Result<Vec<Trip>, E>)
    ensures
        match fetched {
            Ok(rows) => r matches Ok(v) && all_read(v@, readable_rows::<Trip, E>(rows@)),
            Err(e) => r == Err::<Vec<Trip>, E>(e),
        },
{
    read_lenient(fetched)
}

/// Whether `s` inserts a trip with the given fields, created and updated at
/// `now`.
pub open spec fn is_trip_insert(
    s: Statement,
    id: Seq<char>,
    now: Seq<char>,
    name: Seq<char>,
    destination: Seq<char>,
    start_date: Seq<char>,
    end_date: Seq<char>,
    trip_type: Option<Seq<char>>,
) -> bool {
    &&& s.sql@ == INSERT_TRIP@
    &&& s.params@.len() == 8
    &&& s.params@[0].is_text(id)
    &&& s.params@[1].is_text(name)
    &&& s.params@[2].is_text(destination)
    &&& s.params@[3].is_text(start_date)
    &&& s.params@[4].is_text(end_date)
    &&& s.params@[5].is_opt_text(trip_type)
    &&& s.params@[6].is_text(now)
    &&& s.params@[7].is_text(now)
}

/// The statement that inserts a trip under the identifier and time of
/// `stamp`.
pub fn insert_trip(
    stamp: &RecordStamp,
    name: &str,
    destination: &str,
    start_date: &str,
    end_date: &str,
    trip_type: Option<&str>,
) -> (s: Statement)
    ensures
        is_trip_insert(
            s,
            stamp.id@,
            stamp.now@,
            name@,
            destination@,
            start_date@,
            end_date@,
            opt_str_view(trip_type),
        ),
{
    let params = vec![
        Value::text(stamp.id.as_str()),
        Value::text(name),
        Value::text(destination),
        Value::text(start_date),
        Value::text(end_date),
        Value::opt_text(trip_type),
        Value::text(stamp.now.as_str()),
        Value::text(stamp.now.as_str()),
    ];
    Statement { sql: String::from_str(INSERT_TRIP), params }
}

/// The statement that adds a trip, under a fresh identifier and the current
/// time.
pub fn add_trip(
    name: &str,
    destination: &str,
    start_date: &str,
    end_date: &str,
    trip_type: Option<&str>,
) -> (s: Statement)
    ensures
        is_record_id(s.params@[0].as_text()),
        is_trip_insert(
            s,
            s.params@[0].as_text(),
            s.params@[6].as_text(),
            name@,
            destination@,
            start_date@,
            end_date@,
            opt_str_view(trip_type),
        ),
{
    insert_trip(&RecordStamp::fresh(), name, destination, start_date, end_date, trip_type)
}

} // verus!

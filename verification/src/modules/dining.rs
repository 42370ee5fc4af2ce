//! Restaurants.

use crate::db::{
    all_read, column, opt_str_view, opt_view, read_lenient, readable_rows, row_fits, Cell, Column,
    ColumnKind, Fetched, FromRow, Query, Statement, Value,
};
use crate::stamp::{is_record_id, RecordStamp};
use vstd::prelude::*;
use vstd::string::*;

verus! {

/// A restaurant, visited or not.
#[derive(Debug, Clone)]
pub struct Restaurant {
    pub id: String,
    pub name: String,
    pub cuisine_type: Option<String>,
    pub location: Option<String>,
    pub price_range: Option<String>,
    pub visited_flag: bool,
    pub rating: Option<i64>,
}

/// Selects the restaurants that are not deleted, by name.
pub const SELECT_RESTAURANTS: &'static str =
    "SELECT id, name, cuisine_type, location, price_range, visited_flag, rating FROM restaurants WHERE deleted_at IS NULL ORDER BY name ASC";

/// Inserts a restaurant.
pub const INSERT_RESTAURANT: &'static str =
    "INSERT INTO restaurants (id, name, cuisine_type, location, visited_flag, created_at, updated_at) VALUES (?1, ?2, ?3, ?4, ?5, ?6, ?7)";

/// The columns of a restaurant's row. The visited flag is read first.
pub open spec fn restaurant_columns() -> Seq<Column> {
    seq![
        Column { index: 5, kind: ColumnKind::Integer },
        Column { index: 0, kind: ColumnKind::Text },
        Column { index: 1, kind: ColumnKind::Text },
        Column { index: 2, kind: ColumnKind::OptText },
        Column { index: 3, kind: ColumnKind::OptText },
        Column { index: 4, kind: ColumnKind::OptText },
        Column { index: 6, kind: ColumnKind::OptInteger },
    ]
}

impl FromRow for Restaurant {
    open spec fn well_shaped(cells: Seq<Cell>) -> bool {
        row_fits(cells, restaurant_columns())
    }

    /// A restaurant counts as visited where the stored flag is not zero.
    open spec fn reads(&self, cells: Seq<Cell>) -> bool {
        &&& cells.len() == 7
        &&& cells[0] matches Cell::Integer(visited) && self.visited_flag == (visited != 0)
        &&& cells[1].is_text(self.id@)
        &&& cells[2].is_text(self.name@)
        &&& cells[3].is_opt_text(opt_view(self.cuisine_type))
        &&& cells[4].is_opt_text(opt_view(self.location))
        &&& cells[5].is_opt_text(opt_view(self.price_range))
        &&& cells[6] == Cell::OptInteger(self.rating)
    }

    fn from_cells(cells: &Vec<Cell>) -> (r: Option<Self>) {
        if cells.len() != 7 {
            return None;
        }
        let visited = cells[0].integer()?;
        let id = cells[1].text()?;
        let name = cells[2].text()?;
        let cuisine_type = cells[3].opt_text()?;
        let location = cells[4].opt_text()?;
        let price_range = cells[5].opt_text()?;
        let rating = cells[6].opt_integer()?;
        Some(
            Restaurant {
                id,
                name,
                cuisine_type,
                location,
                price_range,
                visited_flag: visited != 0,
                rating,
            },
        )
    }
}

/// The query for the restaurants that are not deleted, by name.
pub fn restaurants_query() -> (q: Query)
    ensures
        q.sql@ == SELECT_RESTAURANTS@,
        q.params@.len() == 0,
        q.columns@ == restaurant_columns(),
{
    let columns = vec![
        column(5, ColumnKind::Integer),
        column(0, ColumnKind::Text),
        column(1, ColumnKind::Text),
        column(2, ColumnKind::OptText),
        column(3, ColumnKind::OptText),
        column(4, ColumnKind::OptText),
        column(6, ColumnKind::OptInteger),
    ];
    assert(columns@ =~= restaurant_columns());
    Query { sql: String::from_str(SELECT_RESTAURANTS), params: Vec::new(), columns }
}

/// The restaurants in the answer to `restaurants_query`. Rows that cannot be
/// read are skipped.
pub fn get_restaurants<E>(fetched: Fetched<E>) -> (r: Result<Vec<Restaurant>, E>)
    ensures
        match fetched {
            Ok(rows) => r matches Ok(v) && all_read(v@, readable_rows::<Restaurant, E>(rows@)),
            Err(e) => r == Err::<Vec<Restaurant>, E>(e),
        },
{
    read_lenient(fetched)
}

/// Whether `s` inserts a restaurant with the given fields, created and
/// updated at `now`.
pub open spec fn is_restaurant_insert(
    s: Statement,
    id: Seq<char>,
    now: Seq<char>,
    name: Seq<char>,
    cuisine_type: Option<Seq<char>>,
    location: Option<Seq<char>>,
    visited: bool,
) -> bool {
    &&& s.sql@ == INSERT_RESTAURANT@
    &&& s.params@.len() == 7
    &&& s.params@[0].is_text(id)
    &&& s.params@[1].is_text(name)
    &&& s.params@[2].is_opt_text(cuisine_type)
    &&& s.params@[3].is_opt_text(location)
    &&& s.params@[4].is_flag(visited)
    &&& s.params@[5].is_text(now)
    &&& s.params@[6].is_text(now)
}

/// The statement that inserts a restaurant under the identifier and time of
/// `stamp`.
pub fn insert_restaurant(
    stamp: &RecordStamp,
    name: &str,
    cuisine_type: Option<&str>,
    location: Option<&str>,
    visited: bool,
) -> (s: Statement)
    ensures
        is_restaurant_insert(
            s,
            stamp.id@,
            stamp.now@,
            name@,
            opt_str_view(cuisine_type),
            opt_str_view(location),
            visited,
        ),
{
    let params = vec![
        Value::text(stamp.id.as_str()),
        Value::text(name),
        Value::opt_text(cuisine_type),
        Value::opt_text(location),
        Value::flag(visited),
        Value::text(stamp.now.as_str()),
        Value::text(stamp.now.as_str()),
    ];
    Statement { sql: String::from_str(INSERT_RESTAURANT), params }
}

/// The statement that adds a restaurant, under a fresh identifier and the
/// current time.
pub fn add_restaurant(
    name: &str,
    cuisine_type: Option<&str>,
    location: Option<&str>,
    visited: bool,
) -> (s: Statement)
    ensures
        is_record_id(s.params@[0].as_text()),
        is_restaurant_insert(
            s,
            s.params@[0].as_text(),
            s.params@[5].as_text(),
            name@,
            opt_str_view(cuisine_type),
            opt_str_view(location),
            visited,
        ),
{
    insert_restaurant(&RecordStamp::fresh(), name, cuisine_type, location, visited)
}

} // verus!

//! Appliances and their warranties.

use crate::db::{
    all_read, column, opt_str_view, opt_view, read_lenient, readable_rows, row_fits, Cell, Column,
    ColumnKind, Fetched, FromRow, Query, Statement, Value,
};
use crate::stamp::{is_record_id, RecordStamp};
use vstd::prelude::*;
use vstd::string::*;

verus! {

/// An appliance of the household.
#[derive(Debug, Clone)]
pub struct Appliance {
    pub id: String,
    pub name: String,
    pub brand: Option<String>,
    pub model: Option<String>,
    pub serial_number: Option<String>,
    pub purchase_date: Option<String>,
    pub warranty_expiry: Option<String>,
}

/// Selects the appliances that are not deleted, by name.
pub const SELECT_APPLIANCES: &'static str =
    "SELECT id, name, brand, model, serial_number, purchase_date, warranty_expiry FROM appliances WHERE deleted_at IS NULL ORDER BY name ASC";

/// Inserts an appliance.
pub const INSERT_APPLIANCE: &'static str =
    "INSERT INTO appliances (id, name, brand, purchase_date, warranty_expiry, created_at, updated_at) VALUES (?1, ?2, ?3, ?4, ?5, ?6, ?7)";

/// The columns of an appliance's row.
pub open spec fn appliance_columns() -> Seq<Column> {
    seq![
        Column { index: 0, kind: ColumnKind::Text },
        Column { index: 1, kind: ColumnKind::Text },
        Column { index: 2, kind: ColumnKind::OptText },
        Column { index: 3, kind: ColumnKind::OptText },
        Column { index: 4, kind: ColumnKind::OptText },
        Column { index: 5, kind: ColumnKind::OptText },
        Column { index: 6, kind: ColumnKind::OptText },
    ]
}

impl FromRow for Appliance {
    open spec fn well_shaped(cells: Seq<Cell>) -> bool {
        row_fits(cells, appliance_columns())
    }

    open spec fn reads(&self, cells: Seq<Cell>) -> bool {
        &&& cells.len() == 7
        &&& cells[0].is_text(self.id@)
        &&& cells[1].is_text(self.name@)
        &&& cells[2].is_opt_text(opt_view(self.brand))
        &&& cells[3].is_opt_text(opt_view(self.model))
        &&& cells[4].is_opt_text(opt_view(self.serial_number))
        &&& cells[5].is_opt_text(opt_view(self.purchase_date))
        &&& cells[6].is_opt_text(opt_view(self.warranty_expiry))
    }

    fn from_cells(cells: &Vec<Cell>) -> (r: Option<Self>) {
        if cells.len() != 7 {
            return None;
        }
        let id = cells[0].text()?;
        let name = cells[1].text()?;
        let brand = cells[2].opt_text()?;
        let model = cells[3].opt_text()?;
        let serial_number = cells[4].opt_text()?;
        let purchase_date = cells[5].opt_text()?;
        let warranty_expiry = cells[6].opt_text()?;
        Some(Appliance { id, name, brand, model, serial_number, purchase_date, warranty_expiry })
    }
}

/// The query for the appliances that are not deleted, by name.
pub fn appliances_query() -> (q: Query)
    ensures
        q.sql@ == SELECT_APPLIANCES@,
        q.params@.len() == 0,
        q.columns@ == appliance_columns(),
{
    let columns = vec![
        column(0, ColumnKind::Text),
        column(1, ColumnKind::Text),
        column(2, ColumnKind::OptText),
        column(3, ColumnKind::OptText),
        column(4, ColumnKind::OptText),
        column(5, ColumnKind::OptText),
        column(6, ColumnKind::OptText),
    ];
    assert(columns@ =~= appliance_columns());
    Query { sql: String::from_str(SELECT_APPLIANCES), params: Vec::new(), columns }
}

/// The appliances in the answer to `appliances_query`. Rows that cannot be
/// read are skipped.
pub fn get_appliances<E>(fetched: Fetched<E>) -> (r: Result<Vec<Appliance>, E>)
    ensures
        match fetched {
            Ok(rows) => r matches Ok(v) && all_read(v@, readable_rows::<Appliance, E>(rows@)),
            Err(e) => r == Err::<Vec<Appliance>, E>(e),
        },
{
    read_lenient(fetched)
}

/// Whether `s` inserts an appliance with the given fields, created and
/// updated at `now`.
pub open spec fn is_appliance_insert(
    s: Statement,
    id: Seq<char>,
    now: Seq<char>,
    name: Seq<char>,
    brand: Option<Seq<char>>,
    purchase_date: Option<Seq<char>>,
    warranty_expiry: Option<Seq<char>>,
) -> bool {
    &&& s.sql@ == INSERT_APPLIANCE@
    &&& s.params@.len() == 7
    &&& s.params@[0].is_text(id)
    &&& s.params@[1].is_text(name)
    &&& s.params@[2].is_opt_text(brand)
    &&& s.params@[3].is_opt_text(purchase_date)
    &&& s.params@[4].is_opt_text(warranty_expiry)
    &&& s.params@[5].is_text(now)
    &&& s.params@[6].is_text(now)
}

/// The statement that inserts an appliance under the identifier and time of
/// `stamp`.
pub fn insert_appliance(
    stamp: &RecordStamp,
    name: &str,
    brand: Option<&str>,
    purchase_date: Option<&str>,
    warranty_expiry: Option<&str>,
) -> (s: Statement)
    ensures
        is_appliance_insert(
            s,
            stamp.id@,
            stamp.now@,
            name@,
            opt_str_view(brand),
            opt_str_view(purchase_date),
            opt_str_view(warranty_expiry),
        ),
{
    let params = vec![
        Value::text(stamp.id.as_str()),
        Value::text(name),
        Value::opt_text(brand),
        Value::opt_text(purchase_date),
        Value::opt_text(warranty_expiry),
        Value::text(stamp.now.as_str()),
        Value::text(stamp.now.as_str()),
    ];
    Statement { sql: String::from_str(INSERT_APPLIANCE), params }
}

/// The statement that adds an appliance, under a fresh identifier and the
/// current time.
pub fn add_appliance(
    name: &str,
    brand: Option<&str>,
    purchase_date: Option<&str>,
    warranty_expiry: Option<&str>,
) -> (s: Statement)
    ensures
        is_record_id(s.params@[0].as_text()),
        is_appliance_insert(
            s,
            s.params@[0].as_text(),
            s.params@[5].as_text(),
            name@,
            opt_str_view(brand),
            opt_str_view(purchase_date),
            opt_str_view(warranty_expiry),
        ),
{
    insert_appliance(&RecordStamp::fresh(), name, brand, purchase_date, warranty_expiry)
}

} // verus!

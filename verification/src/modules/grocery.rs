//! The shopping list and the inventory.

use crate::db::{
    all_read, column, opt_str_view, opt_view, read_lenient, readable_rows, row_fits, Cell, Column,
    ColumnKind, Fetched, FromRow, Quantity, Query, Statement, Value,
};
use crate::stamp::{is_record_id, RecordStamp};
use vstd::prelude::*;
use vstd::string::*;

verus! {

/// An item on the shopping list.
#[derive(Debug, Clone)]
pub struct GroceryItem {
    pub id: String,
    pub name: String,
    pub quantity: Option<Quantity>,
    pub unit: Option<String>,
    pub category: Option<String>,
    pub is_purchased: bool,
}

/// An item in stock.
#[derive(Debug, Clone)]
pub struct InventoryItem {
    pub id: String,
    pub name: String,
    pub quantity: Option<Quantity>,
    pub unit: Option<String>,
    pub location_id: Option<String>,
    pub expiration_date: Option<String>,
}

/// Selects the items of the shopping list that are not checked off, newest first.
pub const SELECT_GROCERY_LIST: &'static str =
    "SELECT id, name, quantity, unit, category, is_checked FROM shopping_list_items WHERE is_checked = 0 ORDER BY created_at DESC";

/// Makes a shopping list unless it is there.
pub const ENSURE_DEFAULT_LIST: &'static str =
    "INSERT OR IGNORE INTO shopping_lists (id, name, created_at, updated_at) VALUES (?1, ?2, ?3, ?4)";

/// Inserts one unit of an item into a shopping list, not checked off.
pub const INSERT_GROCERY_ITEM: &'static str =
    "INSERT INTO shopping_list_items (id, list_id, name, quantity, unit, is_checked, category, created_at, updated_at) VALUES (?1, ?2, ?3, 1.0, 'unit', 0, ?4, ?5, ?6)";

/// Selects the inventory items that are not deleted, newest first.
pub const SELECT_INVENTORY: &'static str =
    "SELECT id, name, quantity, unit, location, expiry_date FROM inventory_items WHERE deleted_at IS NULL ORDER BY created_at DESC";

/// Inserts an inventory item, counted in units.
pub const INSERT_INVENTORY_ITEM: &'static str =
    "INSERT INTO inventory_items (id, name, quantity, unit, created_at, updated_at) VALUES (?1, ?2, ?3, 'unit', ?4, ?5)";

/// The identifier of the one shopping list.
pub const DEFAULT_LIST_ID: &'static str = "default_list";

/// The name of the one shopping list.
pub const DEFAULT_LIST_NAME: &'static str = "Main Grocery List";

/// The columns of a shopping list item's row. The checked flag is read first.
pub open spec fn grocery_item_columns() -> Seq<Column> {
    seq![
        Column { index: 5, kind: ColumnKind::SmallInteger },
        Column { index: 0, kind: ColumnKind::Text },
        Column { index: 1, kind: ColumnKind::Text },
        Column { index: 2, kind: ColumnKind::OptReal },
        Column { index: 3, kind: ColumnKind::OptText },
        Column { index: 4, kind: ColumnKind::OptText },
    ]
}

impl FromRow for GroceryItem {
    open spec fn well_shaped(cells: Seq<Cell>) -> bool {
        row_fits(cells, grocery_item_columns())
    }

    /// An item counts as purchased where the stored flag is one.
    open spec fn reads(&self, cells: Seq<Cell>) -> bool {
        &&& cells.len() == 6
        &&& cells[0] matches Cell::Integer(checked) && self.is_purchased == (checked == 1)
        &&& cells[1].is_text(self.id@)
        &&& cells[2].is_text(self.name@)
        &&& cells[3] == Cell::OptReal(self.quantity)
        &&& cells[4].is_opt_text(opt_view(self.unit))
        &&& cells[5].is_opt_text(opt_view(self.category))
    }

    fn from_cells(cells: &Vec<Cell>) -> (r: Option<Self>) {
        if cells.len() != 6 {
            return None;
        }
        let checked = cells[0].small_integer()?;
        let id = cells[1].text()?;
        let name = cells[2].text()?;
        let quantity = cells[3].opt_real()?;
        let unit = cells[4].opt_text()?;
        let category = cells[5].opt_text()?;
        Some(GroceryItem { id, name, quantity, unit, category, is_purchased: checked == 1 })
    }
}

/// The query for the items of the shopping list that are not checked off,
/// newest first.
pub fn grocery_list_query() -> (q: Query)
    ensures
        q.sql@ == SELECT_GROCERY_LIST@,
        q.params@.len() == 0,
        q.columns@ == grocery_item_columns(),
{
    let columns = vec![
        column(5, ColumnKind::SmallInteger),
        column(0, ColumnKind::Text),
        column(1, ColumnKind::Text),
        column(2, ColumnKind::OptReal),
        column(3, ColumnKind::OptText),
        column(4, ColumnKind::OptText),
    ];
    assert(columns@ =~= grocery_item_columns());
    Query { sql: String::from_str(SELECT_GROCERY_LIST), params: Vec::new(), columns }
}

/// The shopping list in the answer to `grocery_list_query`. Rows that cannot
/// be read are skipped.
pub fn get_grocery_list<E>(fetched: Fetched<E>) -> (r: Result<Vec<GroceryItem>, E>)
    ensures
        match fetched {
            Ok(rows) => r matches Ok(v) && all_read(v@, readable_rows::<GroceryItem, E>(rows@)),
            Err(e) => r == Err::<Vec<GroceryItem>, E>(e),
        },
{
    read_lenient(fetched)
}

/// What adding an item to the shopping list takes.
#[derive(Debug)]
pub struct GroceryAddition {
    /// Makes the one shopping list unless it is there. Its failure is
    /// ignored.
    pub ensure_list: Statement,
    /// Inserts the item. Its failure is the failure of the addition.
    pub insert_item: Statement,
}

/// Whether `s` makes the one shopping list, created and updated at `now`,
/// unless it is there.
pub open spec fn is_list_insert(s: Statement, now: Seq<char>) -> bool {
    &&& s.sql@ == ENSURE_DEFAULT_LIST@
    &&& s.params@.len() == 4
    &&& s.params@[0].is_text(DEFAULT_LIST_ID@)
    &&& s.params@[1].is_text(DEFAULT_LIST_NAME@)
    &&& s.params@[2].is_text(now)
    &&& s.params@[3].is_text(now)
}

/// Whether `s` inserts an item with the given name and category into the one
/// shopping list, created and updated at `now`.
pub open spec fn is_grocery_item_insert(
    s: Statement,
    id: Seq<char>,
    now: Seq<char>,
    name: Seq<char>,
    category: Option<Seq<char>>,
) -> bool {
    &&& s.sql@ == INSERT_GROCERY_ITEM@
    &&& s.params@.len() == 6
    &&& s.params@[0].is_text(id)
    &&& s.params@[1].is_text(DEFAULT_LIST_ID@)
    &&& s.params@[2].is_text(name)
    &&& s.params@[3].is_opt_text(category)
    &&& s.params@[4].is_text(now)
    &&& s.params@[5].is_text(now)
}

/// The statements that put an item on the shopping list under the identifier
/// and time of `stamp`.
pub fn insert_grocery_item(stamp: &RecordStamp, name: &str, category: Option<&str>) -> (a:
    GroceryAddition)
    ensures
        is_list_insert(a.ensure_list, stamp.now@),
        is_grocery_item_insert(
            a.insert_item,
            stamp.id@,
            stamp.now@,
            name@,
            opt_str_view(category),
        ),
{
    let ensure_list = Statement {
        sql: String::from_str(ENSURE_DEFAULT_LIST),
        params: vec![
            Value::text(DEFAULT_LIST_ID),
            Value::text(DEFAULT_LIST_NAME),
            Value::text(stamp.now.as_str()),
            Value::text(stamp.now.as_str()),
        ],
    };
    let insert_item = Statement {
        sql: String::from_str(INSERT_GROCERY_ITEM),
        params: vec![
            Value::text(stamp.id.as_str()),
            Value::text(DEFAULT_LIST_ID),
            Value::text(name),
            Value::opt_text(category),
            Value::text(stamp.now.as_str()),
            Value::text(stamp.now.as_str()),
        ],
    };
    GroceryAddition { ensure_list, insert_item }
}

/// The statements that put an item on the shopping list, under a fresh
/// identifier and the current time.
pub fn add_grocery_item(name: &str, category: Option<&str>) -> (a: GroceryAddition)
    ensures
        is_record_id(a.insert_item.params@[0].as_text()),
        is_list_insert(a.ensure_list, a.insert_item.params@[4].as_text()),
        is_grocery_item_insert(
            a.insert_item,
            a.insert_item.params@[0].as_text(),
            a.insert_item.params@[4].as_text(),
            name@,
            opt_str_view(category),
        ),
{
    insert_grocery_item(&RecordStamp::fresh(), name, category)
}

/// The columns of an inventory item's row.
pub open spec fn inventory_item_columns() -> Seq<Column> {
    seq![
        Column { index: 0, kind: ColumnKind::Text },
        Column { index: 1, kind: ColumnKind::Text },
        Column { index: 2, kind: ColumnKind::OptReal },
        Column { index: 3, kind: ColumnKind::OptText },
        Column { index: 4, kind: ColumnKind::OptText },
        Column { index: 5, kind: ColumnKind::OptText },
    ]
}

impl FromRow for InventoryItem {
    open spec fn well_shaped(cells: Seq<Cell>) -> bool {
        row_fits(cells, inventory_item_columns())
    }

    open spec fn reads(&self, cells: Seq<Cell>) -> bool {
        &&& cells.len() == 6
        &&& cells[0].is_text(self.id@)
        &&& cells[1].is_text(self.name@)
        &&& cells[2] == Cell::OptReal(self.quantity)
        &&& cells[3].is_opt_text(opt_view(self.unit))
        &&& cells[4].is_opt_text(opt_view(self.location_id))
        &&& cells[5].is_opt_text(opt_view(self.expiration_date))
    }

    fn from_cells(cells: &Vec<Cell>) -> (r: Option<Self>) {
        if cells.len() != 6 {
            return None;
        }
        let id = cells[0].text()?;
        let name = cells[1].text()?;
        let quantity = cells[2].opt_real()?;
        let unit = cells[3].opt_text()?;
        let location_id = cells[4].opt_text()?;
        let expiration_date = cells[5].opt_text()?;
        Some(InventoryItem { id, name, quantity, unit, location_id, expiration_date })
    }
}

/// The query for the inventory items that are not deleted, newest first.
pub fn inventory_query() -> (q: Query)
    ensures
        q.sql@ == SELECT_INVENTORY@,
        q.params@.len() == 0,
        q.columns@ == inventory_item_columns(),
{
    let columns = vec![
        column(0, ColumnKind::Text),
        column(1, ColumnKind::Text),
        column(2, ColumnKind::OptReal),
        column(3, ColumnKind::OptText),
        column(4, ColumnKind::OptText),
        column(5, ColumnKind::OptText),
    ];
    assert(columns@ =~= inventory_item_columns());
    Query { sql: String::from_str(SELECT_INVENTORY), params: Vec::new(), columns }
}

/// The inventory in the answer to `inventory_query`. Rows that cannot be read
/// are skipped.
pub fn get_inventory<E>(fetched: Fetched<E>) -> (r: Result<Vec<InventoryItem>, E>)
    ensures
        match fetched {
            Ok(rows) => r matches Ok(v) && all_read(v@, readable_rows::<InventoryItem, E>(rows@)),
            Err(e) => r == Err::<Vec<InventoryItem>, E>(e),
        },
{
    read_lenient(fetched)
}

/// Whether `s` inserts an inventory item with the given name and quantity,
/// created and updated at `now`.
pub open spec fn is_inventory_item_insert(
    s: Statement,
    id: Seq<char>,
    now: Seq<char>,
    name: Seq<char>,
    quantity: Quantity,
) -> bool {
    &&& s.sql@ == INSERT_INVENTORY_ITEM@
    &&& s.params@.len() == 5
    &&& s.params@[0].is_text(id)
    &&& s.params@[1].is_text(name)
    &&& s.params@[2] == Value::Real(quantity)
    &&& s.params@[3].is_text(now)
    &&& s.params@[4].is_text(now)
}

/// The statement that inserts an inventory item under the identifier and
/// time of `stamp`.
pub fn insert_inventory_item(stamp: &RecordStamp, name: &str, quantity: Quantity) -> (s: Statement)
    ensures
        is_inventory_item_insert(s, stamp.id@, stamp.now@, name@, quantity),
{
    let params = vec![
        Value::text(stamp.id.as_str()),
        Value::text(name),
        Value::Real(quantity),
        Value::text(stamp.now.as_str()),
        Value::text(stamp.now.as_str()),
    ];
    Statement { sql: String::from_str(INSERT_INVENTORY_ITEM), params }
}

/// The statement that adds an inventory item, under a fresh identifier and
/// the current time.
pub fn add_inventory_item(name: &str, quantity: Quantity) -> (s: Statement)
    ensures
        is_record_id(s.params@[0].as_text()),
        is_inventory_item_insert(
            s,
            s.params@[0].as_text(),
            s.params@[3].as_text(),
            name@,
            quantity,
        ),
{
    insert_inventory_item(&RecordStamp::fresh(), name, quantity)
}

} // verus!

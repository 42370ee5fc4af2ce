//! The figures of the dashboard: the net balance, the number of trips and the
//! length of the shopping list, and what was spent in each category.

use crate::db::{
    column, read_lenient, read_strict, readable_rows, reads_all, row_fits, Cell, Column,
    ColumnKind, Fetched, FromRow, Lookup, Query, ReadError,
};
use crate::modules::finance::{get_total_balance, total_balance_of};
use crate::modules::grocery::GroceryItem;
use crate::modules::travel::Trip;
use vstd::prelude::*;
use vstd::string::*;

verus! {

/// The figures of the dashboard.
#[derive(Debug, Clone, Copy)]
pub struct DashboardSummary {
    /// The sum of the balances of all accounts, in cents.
    pub net_balance_cents: i64,
    pub active_trips: usize,
    pub grocery_items: usize,
}

/// The greeting shown before the settings are read.
pub fn get_welcome_message() -> (r: String)
    ensures
        r@ == "Welcome home, Lokesh!"@,
{
    String::from_str("Welcome home, Lokesh!")
}

/// The number of rows of an answer that can be read as a `T`; zero where the
/// query failed.
pub open spec fn count_of<T: FromRow, E>(fetched: Fetched<E>) -> nat {
    match fetched {
        Ok(rows) => readable_rows::<T, E>(rows@).len(),
        Err(_) => 0,
    }
}

fn count_readable<T: FromRow, E>(fetched: Fetched<E>) -> (n: usize)
    ensures
        n == count_of::<T, E>(fetched),
{
    match read_lenient::<T, E>(fetched) {
        Ok(records) => records.len(),
        Err(_) => 0,
    }
}

/// The figures of the dashboard, from the answers to the query for the total
/// balance, the query for the trips and the query for the shopping list. A
/// figure that cannot be had is zero; the summary itself never fails.
pub fn get_summary<E>(balance: &Lookup<E>, trips: Fetched<E>, groceries: Fetched<E>) -> (r: Result<
    DashboardSummary,
    E,
>)
    ensures
        r matches Ok(s) && s.net_balance_cents == total_balance_of(*balance) && s.active_trips
            == count_of::<Trip, E>(trips) && s.grocery_items == count_of::<GroceryItem, E>(
            groceries,
        ),
{
    Ok(
        DashboardSummary {
            net_balance_cents: get_total_balance(balance),
            active_trips: count_readable::<Trip, E>(trips),
            grocery_items: count_readable::<GroceryItem, E>(groceries),
        },
    )
}

/// What was spent in one category.
#[derive(Debug, Clone)]
pub struct CategorySpending {
    pub name: String,
    /// The sum of the amounts spent, in cents: not negative.
    pub total_cents: i64,
}

/// Sums, for each category, what was spent in it.
pub const SELECT_EXPENDITURE: &'static str =
    "SELECT c.name, SUM(ABS(t.amount_cents)) as total_cents FROM transactions t JOIN categories c ON t.category_id = c.id WHERE t.amount_cents < 0 GROUP BY c.id";

/// The columns of a category's spending.
pub open spec fn spending_columns() -> Seq<Column> {
    seq![
        Column { index: 0, kind: ColumnKind::Text },
        Column { index: 1, kind: ColumnKind::Integer },
    ]
}

impl FromRow for CategorySpending {
    open spec fn well_shaped(cells: Seq<Cell>) -> bool {
        row_fits(cells, spending_columns())
    }

    open spec fn reads(&self, cells: Seq<Cell>) -> bool {
        &&& cells.len() == 2
        &&& cells[0].is_text(self.name@)
        &&& cells[1] == Cell::Integer(self.total_cents)
    }

    fn from_cells(cells: &Vec<Cell>) -> (r: Option<Self>) {
        if cells.len() != 2 {
            return None;
        }
        let name = cells[0].text()?;
        let total_cents = cells[1].integer()?;
        Some(CategorySpending { name, total_cents })
    }
}

/// The query for what was spent in each category that has expenses.
pub fn expenditure_query() -> (q: Query)
    ensures
        q.sql@ == SELECT_EXPENDITURE@,
        q.params@.len() == 0,
        q.columns@ == spending_columns(),
{
    let columns = vec![column(0, ColumnKind::Text), column(1, ColumnKind::Integer)];
    assert(columns@ =~= spending_columns());
    Query { sql: String::from_str(SELECT_EXPENDITURE), params: Vec::new(), columns }
}

/// What was spent in each category, from the answer to `expenditure_query`:
/// all categories, or the failure of the first row that cannot be read.
pub fn get_expenditure_by_category<E>(fetched: Fetched<E>) -> (r: Result<
    Vec<CategorySpending>,
    ReadError<E>,
>)
    ensures
        match fetched {
            Ok(rows) => reads_all(r, rows@),
            Err(e) => r == Err::<Vec<CategorySpending>, ReadError<E>>(ReadError::Database(e)),
        },
{
    read_strict(fetched)
}

} // verus!

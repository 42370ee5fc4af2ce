//! Accounts, categories and transactions.

use crate::db::{
    column, opt_str_view, opt_view, read_lenient, readable_rows, all_read, row_fits, Cell, Column,
    ColumnKind, Fetched, FromRow, Lookup, Query, Statement, Value,
};
use crate::stamp::{is_record_id, RecordStamp};
use vstd::prelude::*;
use vstd::string::*;

verus! {

/// An account that holds money.
#[derive(Debug, Clone)]
pub struct Account {
    pub id: String,
    pub name: String,
    /// `checking`, `savings`, `credit` and the like.
    pub account_type: String,
    pub currency_code: String,
    pub current_balance_cents: i64,
}

/// A category of income or expense.
#[derive(Debug, Clone)]
pub struct Category {
    pub id: String,
    pub name: String,
    /// `income` or `expense`.
    pub category_type: String,
    pub color: String,
}

/// A movement of money on an account.
#[derive(Debug, Clone)]
pub struct Transaction {
    pub id: String,
    pub account_id: String,
    pub amount_cents: i64,
    pub currency_code: String,
    pub date: String,
    pub merchant: String,
    pub category_name: Option<String>,
}

/// Selects the accounts that are not deleted.
pub const SELECT_ACCOUNTS: &'static str =
    "SELECT id, name, account_type, currency_code, current_balance_cents FROM accounts WHERE deleted_at IS NULL";

/// Inserts an account in rupees.
pub const INSERT_ACCOUNT: &'static str =
    "INSERT INTO accounts (id, name, account_type, currency_code, current_balance_cents, created_at, updated_at) VALUES (?1, ?2, ?3, 'INR', ?4, ?5, ?6)";

/// Sums the balances of the accounts that are not deleted; zero where there is none.
pub const SELECT_TOTAL_BALANCE: &'static str =
    "SELECT COALESCE(SUM(current_balance_cents), 0) FROM accounts WHERE deleted_at IS NULL";

/// Selects the categories that are not deleted.
pub const SELECT_CATEGORIES: &'static str =
    "SELECT id, name, type, color FROM categories WHERE deleted_at IS NULL";

/// Inserts a category.
pub const INSERT_CATEGORY: &'static str =
    "INSERT INTO categories (id, name, type, color, created_at, updated_at) VALUES (?1, ?2, ?3, ?4, ?5, ?6)";

/// Selects the latest transactions that are not deleted, each with the name of its category, up
/// to a limit.
pub const SELECT_TRANSACTIONS: &'static str =
    "SELECT t.id, t.account_id, t.amount_cents, t.currency_code, t.date, t.merchant, c.name as category_name FROM transactions t LEFT JOIN categories c ON t.category_id = c.id WHERE t.deleted_at IS NULL ORDER BY t.date DESC LIMIT ?1";

/// Inserts a transaction in rupees that is not pending.
pub const INSERT_TRANSACTION: &'static str =
    "INSERT INTO transactions (id, account_id, amount_cents, currency_code, date, merchant, category_id, is_pending, created_at, updated_at) VALUES (?1, ?2, ?3, 'INR', ?4, ?5, ?6, 0, ?7, ?8)";

/// Adds an amount to the balance of an account.
pub const ADJUST_BALANCE: &'static str =
    "UPDATE accounts SET current_balance_cents = current_balance_cents + ?1, updated_at = ?2 WHERE id = ?3";

/// The columns of an account's row.
pub open spec fn account_columns() -> Seq<Column> {
    seq![
        Column { index: 0, kind: ColumnKind::Text },
        Column { index: 1, kind: ColumnKind::Text },
        Column { index: 2, kind: ColumnKind::Text },
        Column { index: 3, kind: ColumnKind::Text },
        Column { index: 4, kind: ColumnKind::Integer },
    ]
}

impl FromRow for Account {
    open spec fn well_shaped(cells: Seq<Cell>) -> bool {
        row_fits(cells, account_columns())
    }

    open spec fn reads(&self, cells: Seq<Cell>) -> bool {
        &&& cells.len() == 5
        &&& cells[0].is_text(self.id@)
        &&& cells[1].is_text(self.name@)
        &&& cells[2].is_text(self.account_type@)
        &&& cells[3].is_text(self.currency_code@)
        &&& cells[4] == Cell::Integer(self.current_balance_cents)
    }

    fn from_cells(cells: &Vec<Cell>) -> (r: Option<Self>) {
        if cells.len() != 5 {
            return None;
        }
        let id = cells[0].text()?;
        let name = cells[1].text()?;
        let account_type = cells[2].text()?;
        let currency_code = cells[3].text()?;
        let current_balance_cents = cells[4].integer()?;
        Some(Account { id, name, account_type, currency_code, current_balance_cents })
    }
}

/// The query for the accounts that are not deleted.
pub fn accounts_query() -> (q: Query)
    ensures
        q.sql@ == SELECT_ACCOUNTS@,
        q.params@.len() == 0,
        q.columns@ == account_columns(),
{
    let columns = vec![
        column(0, ColumnKind::Text),
        column(1, ColumnKind::Text),
        column(2, ColumnKind::Text),
        column(3, ColumnKind::Text),
        column(4, ColumnKind::Integer),
    ];
    assert(columns@ =~= account_columns());
    Query { sql: String::from_str(SELECT_ACCOUNTS), params: Vec::new(), columns }
}

/// The accounts in the answer to `accounts_query`. Rows that cannot be read
/// are skipped.
pub fn get_accounts<E>(fetched: Fetched<E>) -> (r: Result<Vec<Account>, E>)
    ensures
        match fetched {
            Ok(rows) => r matches Ok(v) && all_read(v@, readable_rows::<Account, E>(rows@)),
            Err(e) => r == Err::<Vec<Account>, E>(e),
        },
{
    read_lenient(fetched)
}

/// Whether `s` inserts an account with the given identifier, name, type and
/// balance, created and updated at `now`.
pub open spec fn is_account_insert(
    s: Statement,
    id: Seq<char>,
    now: Seq<char>,
    name: Seq<char>,
    account_type: Seq<char>,
    balance_cents: i64,
) -> bool {
    &&& s.sql@ == INSERT_ACCOUNT@
    &&& s.params@.len() == 6
    &&& s.params@[0].is_text(id)
    &&& s.params@[1].is_text(name)
    &&& s.params@[2].is_text(account_type)
    &&& s.params@[3] == Value::Integer(balance_cents)
    &&& s.params@[4].is_text(now)
    &&& s.params@[5].is_text(now)
}

/// The statement that inserts an account under the identifier and time of
/// `stamp`.
pub fn insert_account(
    stamp: &RecordStamp,
    name: &str,
    account_type: &str,
    starting_balance_cents: i64,
) -> (s: Statement)
    ensures
        is_account_insert(s, stamp.id@, stamp.now@, name@, account_type@, starting_balance_cents),
{
    let params = vec![
        Value::text(stamp.id.as_str()),
        Value::text(name),
        Value::text(account_type),
        Value::Integer(starting_balance_cents),
        Value::text(stamp.now.as_str()),
        Value::text(stamp.now.as_str()),
    ];
    Statement { sql: String::from_str(INSERT_ACCOUNT), params }
}

/// The statement that creates an account, under a fresh identifier and the
/// current time.
pub fn create_account(name: &str, account_type: &str, starting_balance_cents: i64) -> (s:
    Statement)
    ensures
        is_record_id(s.params@[0].as_text()),
        is_account_insert(
            s,
            s.params@[0].as_text(),
            s.params@[4].as_text(),
            name@,
            account_type@,
            starting_balance_cents,
        ),
{
    insert_account(&RecordStamp::fresh(), name, account_type, starting_balance_cents)
}

/// The columns of the total balance's row.
pub open spec fn total_balance_columns() -> Seq<Column> {
    seq![Column { index: 0, kind: ColumnKind::Integer }]
}

/// The query for the sum of the balances of the accounts that are not
/// deleted.
pub fn total_balance_query() -> (q: Query)
    ensures
        q.sql@ == SELECT_TOTAL_BALANCE@,
        q.params@.len() == 0,
        q.columns@ == total_balance_columns(),
{
    let columns = vec![column(0, ColumnKind::Integer)];
    assert(columns@ =~= total_balance_columns());
    Query { sql: String::from_str(SELECT_TOTAL_BALANCE), params: Vec::new(), columns }
}

/// The total balance in cents that the answer to `total_balance_query` holds;
/// zero where the answer is anything but one row of one integer.
pub open spec fn total_balance_of<E>(lookup: Lookup<E>) -> i64 {
    match lookup {
        Ok(Some(cells)) => if cells@.len() == 1 && cells@[0] is Integer {
            cells@[0]->Integer_0
        } else {
            0
        },
        _ => 0,
    }
}

/// The total balance in cents; zero where it could not be had.
pub fn get_total_balance<E>(lookup: &Lookup<E>) -> (r: i64)
    ensures
        r == total_balance_of(*lookup),
{
    match lookup {
        Ok(Some(cells)) => {
            if cells.len() == 1 {
                match cells[0].integer() {
                    Some(cents) => cents,
                    None => 0,
                }
            } else {
                0
            }
        },
        _ => 0,
    }
}

/// The columns of a category's row.
pub open spec fn category_columns() -> Seq<Column> {
    seq![
        Column { index: 0, kind: ColumnKind::Text },
        Column { index: 1, kind: ColumnKind::Text },
        Column { index: 2, kind: ColumnKind::Text },
        Column { index: 3, kind: ColumnKind::Text },
    ]
}

impl FromRow for Category {
    open spec fn well_shaped(cells: Seq<Cell>) -> bool {
        row_fits(cells, category_columns())
    }

    open spec fn reads(&self, cells: Seq<Cell>) -> bool {
        &&& cells.len() == 4
        &&& cells[0].is_text(self.id@)
        &&& cells[1].is_text(self.name@)
        &&& cells[2].is_text(self.category_type@)
        &&& cells[3].is_text(self.color@)
    }

    fn from_cells(cells: &Vec<Cell>) -> (r: Option<Self>) {
        if cells.len() != 4 {
            return None;
        }
        let id = cells[0].text()?;
        let name = cells[1].text()?;
        let category_type = cells[2].text()?;
        let color = cells[3].text()?;
        Some(Category { id, name, category_type, color })
    }
}

/// The query for the categories that are not deleted.
pub fn categories_query() -> (q: Query)
    ensures
        q.sql@ == SELECT_CATEGORIES@,
        q.params@.len() == 0,
        q.columns@ == category_columns(),
{
    let columns = vec![
        column(0, ColumnKind::Text),
        column(1, ColumnKind::Text),
        column(2, ColumnKind::Text),
        column(3, ColumnKind::Text),
    ];
    assert(columns@ =~= category_columns());
    Query { sql: String::from_str(SELECT_CATEGORIES), params: Vec::new(), columns }
}

/// The categories in the answer to `categories_query`. Rows that cannot be
/// read are skipped.
pub fn get_categories<E>(fetched: Fetched<E>) -> (r: Result<Vec<Category>, E>)
    ensures
        match fetched {
            Ok(rows) => r matches Ok(v) && all_read(v@, readable_rows::<Category, E>(rows@)),
            Err(e) => r == Err::<Vec<Category>, E>(e),
        },
{
    read_lenient(fetched)
}

/// Whether `s` inserts a category with the given identifier, name, type and
/// colour, created and updated at `now`.
pub open spec fn is_category_insert(
    s: Statement,
    id: Seq<char>,
    now: Seq<char>,
    name: Seq<char>,
    category_type: Seq<char>,
    color: Seq<char>,
) -> bool {
    &&& s.sql@ == INSERT_CATEGORY@
    &&& s.params@.len() == 6
    &&& s.params@[0].is_text(id)
    &&& s.params@[1].is_text(name)
    &&& s.params@[2].is_text(category_type)
    &&& s.params@[3].is_text(color)
    &&& s.params@[4].is_text(now)
    &&& s.params@[5].is_text(now)
}

/// The statement that inserts a category under the identifier and time of
/// `stamp`.
pub fn insert_category(stamp: &RecordStamp, name: &str, category_type: &str, color: &str) -> (s:
    Statement)
    ensures
        is_category_insert(s, stamp.id@, stamp.now@, name@, category_type@, color@),
{
    let params = vec![
        Value::text(stamp.id.as_str()),
        Value::text(name),
        Value::text(category_type),
        Value::text(color),
        Value::text(stamp.now.as_str()),
        Value::text(stamp.now.as_str()),
    ];
    Statement { sql: String::from_str(INSERT_CATEGORY), params }
}

/// The statement that creates a category, under a fresh identifier and the
/// current time.
pub fn create_category(name: &str, category_type: &str, color: &str) -> (s: Statement)
    ensures
        is_record_id(s.params@[0].as_text()),
        is_category_insert(
            s,
            s.params@[0].as_text(),
            s.params@[4].as_text(),
            name@,
            category_type@,
            color@,
        ),
{
    insert_category(&RecordStamp::fresh(), name, category_type, color)
}

/// The columns of a transaction's row. The category's name is read last and
/// leniently: a transaction without a readable category has none.
pub open spec fn transaction_columns() -> Seq<Column> {
    seq![
        Column { index: 0, kind: ColumnKind::Text },
        Column { index: 1, kind: ColumnKind::Text },
        Column { index: 2, kind: ColumnKind::Integer },
        Column { index: 3, kind: ColumnKind::Text },
        Column { index: 4, kind: ColumnKind::Text },
        Column { index: 5, kind: ColumnKind::Text },
        Column { index: 6, kind: ColumnKind::LenientOptText },
    ]
}

impl FromRow for Transaction {
    open spec fn well_shaped(cells: Seq<Cell>) -> bool {
        row_fits(cells, transaction_columns())
    }

    open spec fn reads(&self, cells: Seq<Cell>) -> bool {
        &&& cells.len() == 7
        &&& cells[0].is_text(self.id@)
        &&& cells[1].is_text(self.account_id@)
        &&& cells[2] == Cell::Integer(self.amount_cents)
        &&& cells[3].is_text(self.currency_code@)
        &&& cells[4].is_text(self.date@)
        &&& cells[5].is_text(self.merchant@)
        &&& cells[6].is_opt_text(opt_view(self.category_name))
    }

    fn from_cells(cells: &Vec<Cell>) -> (r: Option<Self>) {
        if cells.len() != 7 {
            return None;
        }
        let id = cells[0].text()?;
        let account_id = cells[1].text()?;
        let amount_cents = cells[2].integer()?;
        let currency_code = cells[3].text()?;
        let date = cells[4].text()?;
        let merchant = cells[5].text()?;
        let category_name = cells[6].opt_text()?;
        Some(
            Transaction { id, account_id, amount_cents, currency_code, date, merchant, category_name },
        )
    }
}

/// Why a query could not be made.
#[derive(Debug, Clone, Copy, PartialEq, Eq, Structural)]
pub enum QueryError {
    /// The limit on the number of rows is more than the database can count.
    LimitTooLarge,
}

/// The query for the latest `limit` transactions that are not deleted, latest
/// first. A limit above the largest 64-bit signed integer cannot be bound.
pub fn transactions_query(limit: usize) -> (r: Result<Query, QueryError>)
    ensures
        match r {
            Ok(q) => {
                &&& limit <= i64::MAX
                &&& q.sql@ == SELECT_TRANSACTIONS@
                &&& q.params@.len() == 1
                &&& q.params@[0] == Value::Integer(limit as i64)
                &&& q.columns@ == transaction_columns()
            },
            Err(e) => limit > i64::MAX && e == QueryError::LimitTooLarge,
        },
{
    if limit as u64 > i64::MAX as u64 {
        return Err(QueryError::LimitTooLarge);
    }
    let columns = vec![
        column(0, ColumnKind::Text),
        column(1, ColumnKind::Text),
        column(2, ColumnKind::Integer),
        column(3, ColumnKind::Text),
        column(4, ColumnKind::Text),
        column(5, ColumnKind::Text),
        column(6, ColumnKind::LenientOptText),
    ];
    assert(columns@ =~= transaction_columns());
    let params = vec![Value::Integer(limit as i64)];
    Ok(Query { sql: String::from_str(SELECT_TRANSACTIONS), params, columns })
}

/// The transactions in the answer to `transactions_query`. Rows that cannot
/// be read are skipped.
pub fn get_transactions<E>(fetched: Fetched<E>) -> (r: Result<Vec<Transaction>, E>)
    ensures
        match fetched {
            Ok(rows) => r matches Ok(v) && all_read(v@, readable_rows::<Transaction, E>(rows@)),
            Err(e) => r == Err::<Vec<Transaction>, E>(e),
        },
{
    read_lenient(fetched)
}

/// Whether `s` inserts a transaction with the given fields, created and
/// updated at `now`.
pub open spec fn is_transaction_insert(
    s: Statement,
    id: Seq<char>,
    now: Seq<char>,
    account_id: Seq<char>,
    amount_cents: i64,
    merchant: Seq<char>,
    date: Seq<char>,
    category_id: Option<Seq<char>>,
) -> bool {
    &&& s.sql@ == INSERT_TRANSACTION@
    &&& s.params@.len() == 8
    &&& s.params@[0].is_text(id)
    &&& s.params@[1].is_text(account_id)
    &&& s.params@[2] == Value::Integer(amount_cents)
    &&& s.params@[3].is_text(date)
    &&& s.params@[4].is_text(merchant)
    &&& s.params@[5].is_opt_text(category_id)
    &&& s.params@[6].is_text(now)
    &&& s.params@[7].is_text(now)
}

/// Whether `s` adds `amount_cents` to the balance of the account `account_id`
/// and marks it as updated at `now`.
pub open spec fn is_balance_adjustment(
    s: Statement,
    now: Seq<char>,
    account_id: Seq<char>,
    amount_cents: i64,
) -> bool {
    &&& s.sql@ == ADJUST_BALANCE@
    &&& s.params@.len() == 3
    &&& s.params@[0] == Value::Integer(amount_cents)
    &&& s.params@[1].is_text(now)
    &&& s.params@[2].is_text(account_id)
}

/// Whether `batch` records a transaction: its insertion first, then the
/// adjustment of the account's balance by the same amount.
pub open spec fn is_transaction_posting(
    batch: Seq<Statement>,
    id: Seq<char>,
    now: Seq<char>,
    account_id: Seq<char>,
    amount_cents: i64,
    merchant: Seq<char>,
    date: Seq<char>,
    category_id: Option<Seq<char>>,
) -> bool {
    &&& batch.len() == 2
    &&& is_transaction_insert(
        batch[0],
        id,
        now,
        account_id,
        amount_cents,
        merchant,
        date,
        category_id,
    )
    &&& is_balance_adjustment(batch[1], now, account_id, amount_cents)
}

/// The statements that record a transaction under the identifier and time of
/// `stamp`. They are to be run in one database transaction, in order: both
/// take effect or neither.
pub fn post_transaction(
    stamp: &RecordStamp,
    account_id: &str,
    amount_cents: i64,
    merchant: &str,
    date: &str,
    category_id: Option<&str>,
) -> (batch: Vec<Statement>)
    ensures
        is_transaction_posting(
            batch@,
            stamp.id@,
            stamp.now@,
            account_id@,
            amount_cents,
            merchant@,
            date@,
            opt_str_view(category_id),
        ),
{
    let insert = Statement {
        sql: String::from_str(INSERT_TRANSACTION),
        params: vec![
            Value::text(stamp.id.as_str()),
            Value::text(account_id),
            Value::Integer(amount_cents),
            Value::text(date),
            Value::text(merchant),
            Value::opt_text(category_id),
            Value::text(stamp.now.as_str()),
            Value::text(stamp.now.as_str()),
        ],
    };
    let adjust = Statement {
        sql: String::from_str(ADJUST_BALANCE),
        params: vec![
            Value::Integer(amount_cents),
            Value::text(stamp.now.as_str()),
            Value::text(account_id),
        ],
    };
    vec![insert, adjust]
}

/// The statements that record a transaction, under a fresh identifier and
/// the current time. They are to be run in one database transaction, in
/// order.
pub fn create_transaction(
    account_id: &str,
    amount_cents: i64,
    merchant: &str,
    date: &str,
    category_id: Option<&str>,
) -> (batch: Vec<Statement>)
    ensures
        batch@.len() == 2,
        is_record_id(batch@[0].params@[0].as_text()),
        is_transaction_posting(
            batch@,
            batch@[0].params@[0].as_text(),
            batch@[0].params@[6].as_text(),
            account_id@,
            amount_cents,
            merchant@,
            date@,
            opt_str_view(category_id),
        ),
{
    post_transaction(&RecordStamp::fresh(), account_id, amount_cents, merchant, date, category_id)
}

/// The word that stands for the first account where an account is asked
/// for.
pub const AUTO_FIRST_ACCOUNT: &'static str = "auto_first_account";

/// Whether `account_id` stands for the first account, so that the accounts
/// have to be read before it can be resolved.
pub fn is_auto_account(account_id: &str) -> (r: bool)
    ensures
        r == (account_id@ == AUTO_FIRST_ACCOUNT@),
{
    String::from_str(account_id) == String::from_str(AUTO_FIRST_ACCOUNT)
}

/// The account that `requested` names, given the accounts that were read:
/// `requested` itself unless it stands for the first account; else the first
/// account, or none where there is no account; and `requested` as it is
/// where the accounts could not be read.
pub open spec fn resolved_account<E>(
    requested: Seq<char>,
    accounts: Result<Vec<Account>, E>,
) -> Option<Seq<char>> {
    if requested != AUTO_FIRST_ACCOUNT@ {
        Some(requested)
    } else {
        match accounts {
            Ok(v) => if v@.len() > 0 {
                Some(v@[0].id@)
            } else {
                None
            },
            Err(_) => Some(requested),
        }
    }
}

/// The account on which a transaction is recorded. Nothing means that there
/// is no account to record it on.
pub fn resolve_account<E>(requested: &str, accounts: &Result<Vec<Account>, E>) -> (r: Option<
    String,
>)
    ensures
        opt_view(r) == resolved_account(requested@, *accounts),
{
    if !is_auto_account(requested) {
        return Some(String::from_str(requested));
    }
    match accounts {
        Ok(v) => {
            if v.len() > 0 {
                Some(v[0].id.clone())
            } else {
                None
            }
        },
        Err(_) => Some(String::from_str(requested)),
    }
}

/// The identifier of the first of `categories` with the name `name`.
pub open spec fn category_named(categories: Seq<Category>, name: Seq<char>) -> Option<Seq<char>>
    decreases categories.len(),
{
    if categories.len() == 0 {
        None
    } else if categories[0].name@ == name {
        Some(categories[0].id@)
    } else {
        category_named(categories.drop_first(), name)
    }
}

/// The identifier of the first of `categories` with the name `name`.
pub fn find_category(categories: &Vec<Category>, name: &str) -> (r: Option<String>)
    ensures
        opt_view(r) == category_named(categories@, name@),
{
    let wanted = String::from_str(name);
    let mut i: usize = 0;
    assert(categories@.skip(0) =~= categories@);
    while i < categories.len()
        invariant
            i <= categories.len(),
            wanted@ == name@,
            category_named(categories@, name@) == category_named(
                categories@.skip(i as int),
                name@,
            ),
        decreases categories.len() - i,
    {
        proof {
            assert(categories@.skip(i as int).len() > 0);
            assert(categories@.skip(i as int)[0] == categories@[i as int]);
            assert(categories@.skip(i as int).drop_first() =~= categories@.skip(i + 1));
        }
        if categories[i].name == wanted {
            return Some(categories[i].id.clone());
        }
        i = i + 1;
    }
    None
}

/// The type of a category that is made for a transaction.
pub const NEW_CATEGORY_TYPE: &'static str = "expense";

/// The colour of a category that is made for a transaction.
pub const NEW_CATEGORY_COLOR: &'static str = "#555555";

/// What to do about the category of a new transaction.
#[derive(Debug)]
pub enum CategoryStep {
    /// Record the transaction under this category, or under none.
    Use { category_id: Option<String> },
    /// No category has the name: run `create`, whatever comes of it, read
    /// the categories again and take the category from `category_after`.
    Create { create: Statement },
}

/// Whether `step` is what to do about the category `name`, given the
/// categories that were read: without them, no category; with a category of
/// that name among them, that category; else a new expense category of that
/// name is to be created.
pub open spec fn chooses_category<E>(
    step: CategoryStep,
    name: Seq<char>,
    categories: Result<Vec<Category>, E>,
) -> bool {
    match categories {
        Err(_) => step matches CategoryStep::Use { category_id } && category_id is None,
        Ok(v) => match category_named(v@, name) {
            Some(id) => step matches CategoryStep::Use { category_id } && opt_view(category_id)
                == Some(id),
            None => step matches CategoryStep::Create { create } && is_record_id(
                create.params@[0].as_text(),
            ) && is_category_insert(
                create,
                create.params@[0].as_text(),
                create.params@[4].as_text(),
                name,
                NEW_CATEGORY_TYPE@,
                NEW_CATEGORY_COLOR@,
            ),
        },
    }
}

/// Decides on the category of a new transaction from the categories that
/// were read.
pub fn category_for<E>(name: &str, categories: &Result<Vec<Category>, E>) -> (step: CategoryStep)
    ensures
        chooses_category(step, name@, *categories),
{
    match categories {
        Err(_) => CategoryStep::Use { category_id: None },
        Ok(v) => match find_category(v, name) {
            Some(id) => CategoryStep::Use { category_id: Some(id) },
            None => CategoryStep::Create {
                create: create_category(name, NEW_CATEGORY_TYPE, NEW_CATEGORY_COLOR),
            },
        },
    }
}

/// The category of a new transaction once a category was to be created and
/// the categories were read again: the category of that name, or none where
/// there still is none or the categories could not be read.
pub fn category_after<E>(name: &str, categories: &Result<Vec<Category>, E>) -> (r: Option<String>)
    ensures
        opt_view(r) == (match *categories {
            Ok(v) => category_named(v@, name@),
            Err(_) => None,
        }),
{
    match categories {
        Ok(v) => find_category(v, name),
        Err(_) => None,
    }
}

} // verus!

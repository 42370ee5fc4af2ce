//! What a first launch puts into an empty database, so that the screens have
//! something to show.

use crate::db::Statement;
use crate::modules::finance::{
    create_account, create_transaction, is_account_insert, is_transaction_posting, Account,
};
use crate::modules::grocery::{
    add_grocery_item, is_grocery_item_insert, is_list_insert, GroceryAddition,
};
use crate::modules::travel::{add_trip, is_trip_insert};
use crate::stamp::{is_record_id, RecordStamp};
use vstd::prelude::*;
use vstd::string::*;

verus! {

/// Whether the database is new: the accounts could be read and there is
/// none.
pub fn is_first_launch<E>(accounts: &Result<Vec<Account>, E>) -> (r: bool)
    ensures
        r == (*accounts matches Ok(v) && v@.len() == 0),
{
    match accounts {
        Ok(v) => v.len() == 0,
        Err(_) => false,
    }
}

/// Whether `s` creates an account with the given name, type and balance,
/// under a fresh identifier.
pub open spec fn seeds_account(
    s: Statement,
    name: Seq<char>,
    account_type: Seq<char>,
    balance_cents: i64,
) -> bool {
    &&& is_record_id(s.params@[0].as_text())
    &&& is_account_insert(
        s,
        s.params@[0].as_text(),
        s.params@[4].as_text(),
        name,
        account_type,
        balance_cents,
    )
}

/// The statements that create the first accounts: a checking account with
/// 3250.00 and a savings account with 10000.00. Each is run on its own, and
/// its failure is ignored.
pub fn seed_accounts() -> (batch: Vec<Statement>)
    ensures
        batch@.len() == 2,
        seeds_account(batch@[0], "My Checking"@, "checking"@, 325000),
        seeds_account(batch@[1], "Emergency Fund"@, "savings"@, 1000000),
{
    vec![
        create_account("My Checking", "checking", 325000),
        create_account("Emergency Fund", "savings", 1000000),
    ]
}

/// Whether `posting` records a transaction of `amount_cents` at `merchant`
/// on the account `account_id`, dated `date`, in no category, under a fresh
/// identifier.
pub open spec fn seeds_transaction(
    posting: Seq<Statement>,
    account_id: Seq<char>,
    amount_cents: i64,
    merchant: Seq<char>,
    date: Seq<char>,
) -> bool {
    &&& posting.len() == 2
    &&& is_record_id(posting[0].params@[0].as_text())
    &&& is_transaction_posting(
        posting,
        posting[0].params@[0].as_text(),
        posting[0].params@[6].as_text(),
        account_id,
        amount_cents,
        merchant,
        date,
        None,
    )
}

/// Whether `postings` are the first transactions, given the accounts that
/// were read after the first accounts were created: none where no account
/// could be read; else 12.50 spent at a coffee shop and 85.00 at a grocery
/// store, both on the first account and at the same date.
pub open spec fn seeds_transactions<E>(
    postings: Seq<Vec<Statement>>,
    accounts: Result<Vec<Account>, E>,
) -> bool {
    match accounts {
        Ok(v) => if v@.len() > 0 {
            let date = postings[0]@[0].params@[3].as_text();
            &&& postings.len() == 2
            &&& seeds_transaction(postings[0]@, v@[0].id@, -1250i64, "Coffee Shop"@, date)
            &&& seeds_transaction(postings[1]@, v@[0].id@, -8500i64, "Grocery Store"@, date)
        } else {
            postings.len() == 0
        },
        Err(_) => postings.len() == 0,
    }
}

/// The postings that record the first transactions, dated now. The
/// statements of each posting are run in one database transaction; the
/// failure of a posting is ignored.
pub fn seed_transactions<E>(accounts: &Result<Vec<Account>, E>) -> (postings: Vec<Vec<Statement>>)
    ensures
        seeds_transactions(postings@, *accounts),
{
    match accounts {
        Ok(v) => {
            if v.len() > 0 {
                let now = RecordStamp::fresh().now;
                let first = v[0].id.as_str();
                let coffee = create_transaction(first, -1250, "Coffee Shop", now.as_str(), None);
                let grocery = create_transaction(first, -8500, "Grocery Store", now.as_str(), None);
                let postings = vec![coffee, grocery];
                assert(seeds_transaction(postings@[0]@, v@[0].id@, -1250i64, "Coffee Shop"@, now@));
                assert(seeds_transaction(postings@[1]@, v@[0].id@, -8500i64, "Grocery Store"@, now@));
                postings
            } else {
                Vec::new()
            }
        },
        Err(_) => Vec::new(),
    }
}

/// Whether `a` puts an item with the given name and category on the shopping
/// list, under a fresh identifier.
pub open spec fn seeds_grocery(a: GroceryAddition, name: Seq<char>, category: Seq<char>) -> bool {
    &&& is_record_id(a.insert_item.params@[0].as_text())
    &&& is_list_insert(a.ensure_list, a.insert_item.params@[4].as_text())
    &&& is_grocery_item_insert(
        a.insert_item,
        a.insert_item.params@[0].as_text(),
        a.insert_item.params@[4].as_text(),
        name,
        Some(category),
    )
}

/// The additions that put the first items on the shopping list: milk and
/// bread. The failure of an addition is ignored.
pub fn seed_groceries() -> (batch: Vec<GroceryAddition>)
    ensures
        batch@.len() == 2,
        seeds_grocery(batch@[0], "Organic Milk"@, "Dairy"@),
        seeds_grocery(batch@[1], "Sourdough Bread"@, "Bakery"@),
{
    vec![
        add_grocery_item("Organic Milk", Some("Dairy")),
        add_grocery_item("Sourdough Bread", Some("Bakery")),
    ]
}

/// The statement that adds the first trip: a summer vacation in Paris. Its
/// failure is ignored.
pub fn seed_trip() -> (s: Statement)
    ensures
        is_record_id(s.params@[0].as_text()),
        is_trip_insert(
            s,
            s.params@[0].as_text(),
            s.params@[6].as_text(),
            "Summer Vacation"@,
            "Paris, France"@,
            "2024-07-01"@,
            "2024-07-14"@,
            Some("vacation"@),
        ),
{
    add_trip("Summer Vacation", "Paris, France", "2024-07-01", "2024-07-14", Some("vacation"))
}

} // verus!

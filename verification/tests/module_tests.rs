//! The rules of the modules that need no database.

use myhome::modules::dashboard::get_welcome_message;
use myhome::modules::finance::{
    category_after, category_for, find_category, is_auto_account, resolve_account, Account,
    Category, CategoryStep,
};
use myhome::modules::registry::{
    apply_module_state, get_all_modules, get_hardcoded_modules, ModuleState,
};
use myhome::modules::settings::{get_currency_list, symbol_for_code, AppSettings};
use myhome::db::{Cell, Row, Value};
use myhome::seed;

fn account(id: &str) -> Account {
    Account {
        id: id.to_string(),
        name: "n".to_string(),
        account_type: "checking".to_string(),
        currency_code: "INR".to_string(),
        current_balance_cents: 0,
    }
}

fn category(id: &str, name: &str) -> Category {
    Category {
        id: id.to_string(),
        name: name.to_string(),
        category_type: "expense".to_string(),
        color: "#000000".to_string(),
    }
}

fn state(id: &str, is_enabled: bool) -> ModuleState {
    ModuleState { module_id: id.to_string(), is_enabled }
}

#[test]
fn the_hardcoded_modules_are_four_with_finance_enabled() {
    let modules = get_hardcoded_modules();
    let listed: Vec<(&str, &str, &str, &str, bool)> = modules
        .iter()
        .map(|m| (m.id.as_str(), m.name.as_str(), m.description.as_str(), m.icon.as_str(), m.is_enabled))
        .collect();
    assert_eq!(
        listed,
        vec![
            ("finance", "Finance", "Manage accounts, budgets, and transactions", "", true),
            ("grocery", "Grocery", "Shopping lists and inventory manager", "", false),
            ("travel", "Travel", "Trip planning and itineraries", "", false),
            ("dining", "Dining", "Restaurant lists and visits", "", false),
        ]
    );
}

#[test]
fn stored_state_overrides_the_default_and_the_last_entry_counts() {
    let states = vec![
        state("grocery", true),
        state("finance", false),
        state("unknown", true),
        state("grocery", false),
        state("dining", true),
    ];
    let merged = apply_module_state(get_hardcoded_modules(), &states);
    let flags: Vec<(&str, bool)> = merged.iter().map(|m| (m.id.as_str(), m.is_enabled)).collect();
    assert_eq!(
        flags,
        vec![("finance", false), ("grocery", false), ("travel", false), ("dining", true)]
    );
    assert_eq!(merged[1].name, "Grocery");
    assert_eq!(merged[1].description, "Shopping lists and inventory manager");

    let untouched = apply_module_state(get_hardcoded_modules(), &vec![]);
    assert_eq!(untouched[0].is_enabled, true);
    assert_eq!(untouched[3].is_enabled, false);
    assert!(apply_module_state(vec![], &states).is_empty());
}

#[test]
fn modules_are_listed_from_rows() {
    let rows: Vec<Row<&str>> = vec![
        Ok(vec![Cell::Text("travel".into()), Cell::Integer(1)]),
        Err("broken row"),
        Ok(vec![Cell::Text("finance".into())]),
        Ok(vec![Cell::Text("finance".into()), Cell::Integer(0)]),
    ];
    let modules = get_all_modules(Ok(rows)).unwrap();
    let flags: Vec<bool> = modules.iter().map(|m| m.is_enabled).collect();
    assert_eq!(flags, vec![false, false, true, false]);
    assert_eq!(get_all_modules::<&str>(Err("no table")).err(), Some("no table"));
}

#[test]
fn the_currency_list_is_fixed() {
    let list = get_currency_list();
    let listed: Vec<(&str, &str)> =
        list.iter().map(|c| (c.code.as_str(), c.symbol.as_str())).collect();
    assert_eq!(
        listed,
        vec![
            ("INR", "₹"),
            ("USD", "$"),
            ("EUR", "€"),
            ("GBP", "£"),
            ("JPY", "¥"),
            ("AUD", "A$"),
            ("CAD", "C$"),
            ("CHF", "Fr"),
            ("CNY", "¥"),
            ("SAR", "﷼"),
            ("SGD", "S$"),
            ("NZD", "NZ$"),
            ("AED", "د.إ"),
            ("RUB", "₽"),
            ("BRL", "R$"),
        ]
    );
}

#[test]
fn an_unknown_currency_shows_as_dollar() {
    assert_eq!(symbol_for_code("GBP"), "£");
    assert_eq!(symbol_for_code("INR"), "₹");
    assert_eq!(symbol_for_code("BRL"), "R$");
    assert_eq!(symbol_for_code("XYZ"), "$");
    assert_eq!(symbol_for_code(""), "$");
    assert_eq!(symbol_for_code("gbp"), "$");
}

#[test]
fn default_settings_are_rupees_lokesh_dark() {
    let d = AppSettings::defaults();
    assert_eq!(d.currency_code, "INR");
    assert_eq!(d.currency_symbol, "₹");
    assert_eq!(d.user_name, "Lokesh");
    assert_eq!(d.theme, "Dark");
    assert_eq!(get_welcome_message(), "Welcome home, Lokesh!");
}

#[test]
fn the_first_account_stands_in_where_it_is_asked_for() {
    let accounts: Result<Vec<Account>, &str> = Ok(vec![account("a1"), account("a2")]);
    assert!(is_auto_account("auto_first_account"));
    assert!(!is_auto_account("a1"));
    assert!(!is_auto_account(""));
    assert_eq!(resolve_account("auto_first_account", &accounts).as_deref(), Some("a1"));
    assert_eq!(resolve_account("a2", &accounts).as_deref(), Some("a2"));
    assert_eq!(resolve_account("elsewhere", &accounts).as_deref(), Some("elsewhere"));
    let none: Result<Vec<Account>, &str> = Ok(vec![]);
    assert_eq!(resolve_account("auto_first_account", &none), None);
    assert_eq!(resolve_account("a1", &none).as_deref(), Some("a1"));
    let failed: Result<Vec<Account>, &str> = Err("locked");
    assert_eq!(
        resolve_account("auto_first_account", &failed).as_deref(),
        Some("auto_first_account")
    );
}

#[test]
fn the_first_category_of_a_name_is_taken_or_one_is_created() {
    let categories = vec![category("c1", "Food"), category("c2", "Rent"), category("c3", "Food")];
    assert_eq!(find_category(&categories, "Food").as_deref(), Some("c1"));
    assert_eq!(find_category(&categories, "Rent").as_deref(), Some("c2"));
    assert_eq!(find_category(&categories, "food"), None);
    assert_eq!(find_category(&vec![], "Food"), None);

    let read: Result<Vec<Category>, &str> = Ok(categories);
    match category_for("Rent", &read) {
        CategoryStep::Use { category_id } => assert_eq!(category_id.as_deref(), Some("c2")),
        other => panic!("unexpected: {:?}", other),
    }
    match category_for("Travel", &read) {
        CategoryStep::Create { create } => {
            assert_eq!(create.sql, myhome::modules::finance::INSERT_CATEGORY);
            assert!(matches!(&create.params[1], Value::Text(s) if s == "Travel"));
            assert!(matches!(&create.params[2], Value::Text(s) if s == "expense"));
            assert!(matches!(&create.params[3], Value::Text(s) if s == "#555555"));
        }
        other => panic!("unexpected: {:?}", other),
    }
    let failed: Result<Vec<Category>, &str> = Err("locked");
    assert!(matches!(category_for("Rent", &failed), CategoryStep::Use { category_id: None }));
    assert_eq!(category_after("Rent", &read).as_deref(), Some("c2"));
    assert_eq!(category_after("Travel", &read), None);
    assert_eq!(category_after("Rent", &failed), None);
}

#[test]
fn seeding_happens_only_on_an_empty_database() {
    assert!(seed::is_first_launch::<&str>(&Ok(vec![])));
    assert!(!seed::is_first_launch::<&str>(&Ok(vec![account("a")])));
    assert!(!seed::is_first_launch::<&str>(&Err("locked")));
}

#[test]
fn the_seed_is_two_accounts_two_transactions_two_groceries_and_a_trip() {
    let text = |v: &Value| match v {
        Value::Text(s) => s.clone(),
        other => panic!("unexpected: {:?}", other),
    };
    let accounts = seed::seed_accounts();
    assert_eq!(accounts.len(), 2);
    assert_eq!(text(&accounts[0].params[1]), "My Checking");
    assert_eq!(text(&accounts[0].params[2]), "checking");
    assert!(matches!(accounts[0].params[3], Value::Integer(325000)));
    assert_eq!(text(&accounts[1].params[1]), "Emergency Fund");
    assert_eq!(text(&accounts[1].params[2]), "savings");
    assert!(matches!(accounts[1].params[3], Value::Integer(1000000)));

    let read: Result<Vec<Account>, &str> = Ok(vec![account("first"), account("second")]);
    let postings = seed::seed_transactions(&read);
    assert_eq!(postings.len(), 2);
    assert_eq!(text(&postings[0][0].params[1]), "first");
    assert!(matches!(postings[0][0].params[2], Value::Integer(-1250)));
    assert_eq!(text(&postings[0][0].params[4]), "Coffee Shop");
    assert!(matches!(postings[0][0].params[5], Value::Null));
    assert_eq!(text(&postings[1][0].params[1]), "first");
    assert!(matches!(postings[1][0].params[2], Value::Integer(-8500)));
    assert_eq!(text(&postings[1][0].params[4]), "Grocery Store");
    assert_eq!(text(&postings[0][0].params[3]), text(&postings[1][0].params[3]));
    assert!(matches!(postings[1][1].params[0], Value::Integer(-8500)));
    assert!(seed::seed_transactions::<&str>(&Ok(vec![])).is_empty());
    assert!(seed::seed_transactions::<&str>(&Err("locked")).is_empty());

    let groceries = seed::seed_groceries();
    assert_eq!(groceries.len(), 2);
    assert_eq!(text(&groceries[0].insert_item.params[2]), "Organic Milk");
    assert_eq!(text(&groceries[0].insert_item.params[3]), "Dairy");
    assert_eq!(text(&groceries[1].insert_item.params[2]), "Sourdough Bread");
    assert_eq!(text(&groceries[1].insert_item.params[3]), "Bakery");

    let trip = seed::seed_trip();
    let bound: Vec<String> = trip.params[1..6].iter().map(text).collect();
    assert_eq!(
        bound,
        vec!["Summer Vacation", "Paris, France", "2024-07-01", "2024-07-14", "vacation"]
    );
}

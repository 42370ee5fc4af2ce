//! What the screens show.

use myhome::db::Quantity;
use myhome::modules::dashboard::DashboardSummary;
use myhome::modules::dining::Restaurant;
use myhome::modules::finance::{Account, Transaction};
use myhome::modules::gifts::{GiftIdea, Person};
use myhome::modules::grocery::{GroceryItem, InventoryItem};
use myhome::modules::household::{Document, Member};
use myhome::modules::maintenance::Appliance;
use myhome::modules::registry::get_hardcoded_modules;
use myhome::modules::settings::AppSettings;
use myhome::modules::travel::Trip;
use myhome::ui::{
    refresh_all_modules, refresh_dashboard_summary, refresh_dining, refresh_finance,
    refresh_gifts, refresh_grocery, refresh_household, refresh_maintenance, refresh_modules,
    refresh_settings, refresh_travel, screen_count, screens_after, Action, DashboardFigures,
    Screen, Snapshot,
};

fn s(text: &str) -> String {
    text.to_string()
}

fn some(text: &str) -> Option<String> {
    Some(text.to_string())
}

fn settings(user_name: &str) -> AppSettings {
    AppSettings {
        currency_code: s("USD"),
        currency_symbol: s("$"),
        user_name: s(user_name),
        theme: s("Light"),
    }
}

fn person(id: &str, name: &str) -> Person {
    Person { id: s(id), name: s(name), relationship: None, date_of_birth: None }
}

fn idea(id: &str, person_id: &str, cents: Option<i64>) -> GiftIdea {
    GiftIdea {
        id: s(id),
        person_id: s(person_id),
        description: s("d"),
        estimated_price_cents: cents,
        status: s("idea"),
    }
}

#[test]
fn modules_are_shown_as_they_are() {
    let lines = refresh_modules(&get_hardcoded_modules());
    assert_eq!(lines.len(), 4);
    assert_eq!(lines[0].id, "finance");
    assert_eq!(lines[0].name, "Finance");
    assert_eq!(lines[0].description, "Manage accounts, budgets, and transactions");
    assert!(lines[0].is_enabled);
    assert_eq!(lines[3].id, "dining");
    assert!(!lines[3].is_enabled);
    assert!(refresh_modules(&vec![]).is_empty());
}

#[test]
fn the_dashboard_greets_by_name_and_shows_the_figures() {
    let summary = DashboardSummary { net_balance_cents: 1537450, active_trips: 2, grocery_items: 3 };
    let view = refresh_dashboard_summary::<&str, &str>(&Ok(settings("Ada")), &Ok(summary));
    assert_eq!(view.welcome_message, "Welcome home, Ada!");
    assert_eq!(
        view.figures,
        Some(DashboardFigures { balance_cents: 1537450, trip_count: 2, grocery_count: 3 })
    );
}

#[test]
fn the_dashboard_falls_back_to_the_default_name_and_keeps_old_figures() {
    let view = refresh_dashboard_summary::<&str, &str>(&Err("locked"), &Err("locked"));
    assert_eq!(view.welcome_message, "Welcome home, Lokesh!");
    assert_eq!(view.figures, None);
}

#[test]
fn counts_wrap_to_32_bits() {
    assert_eq!(screen_count(0), 0);
    assert_eq!(screen_count(3), 3);
    assert_eq!(screen_count(i32::MAX as usize), i32::MAX);
    assert_eq!(screen_count(i32::MAX as usize + 1), i32::MIN);
    assert_eq!(screen_count(u32::MAX as usize), -1);
    assert_eq!(screen_count(u32::MAX as usize + 1), 0);
    assert_eq!(screen_count(u32::MAX as usize + 6), 5);
    for n in [0usize, 1, 2147483647, 2147483648, 4294967295, 4294967296, usize::MAX] {
        assert_eq!(screen_count(n), n as i32);
    }
}

#[test]
fn appliances_show_defaults_for_what_is_missing() {
    let appliances: Result<Vec<Appliance>, &str> = Ok(vec![
        Appliance {
            id: s("a1"),
            name: s("HVAC"),
            brand: some("Carrier"),
            model: some("X"),
            serial_number: None,
            purchase_date: some("2020-05-01"),
            warranty_expiry: some("2030-05-01"),
        },
        Appliance {
            id: s("a2"),
            name: s("Fridge"),
            brand: None,
            model: None,
            serial_number: None,
            purchase_date: None,
            warranty_expiry: None,
        },
    ]);
    let lines = refresh_maintenance(&appliances).unwrap();
    assert_eq!(lines.len(), 2);
    assert_eq!(
        (lines[0].id.as_str(), lines[0].name.as_str(), lines[0].brand.as_str()),
        ("a1", "HVAC", "Carrier")
    );
    assert_eq!(lines[0].purchase_date, "2020-05-01");
    assert_eq!(lines[0].warranty_expiry, "2030-05-01");
    assert_eq!(lines[1].brand, "-");
    assert_eq!(lines[1].purchase_date, "Unknown");
    assert_eq!(lines[1].warranty_expiry, "None");
    assert!(refresh_maintenance::<&str>(&Err("locked")).is_none());
    assert!(refresh_maintenance::<&str>(&Ok(vec![])).unwrap().is_empty());
}

#[test]
fn restaurants_show_defaults_and_ratings() {
    let restaurants: Result<Vec<Restaurant>, &str> = Ok(vec![
        Restaurant {
            id: s("r1"),
            name: s("Sushi Spot"),
            cuisine_type: some("Japanese"),
            location: some("Uptown"),
            price_range: None,
            visited_flag: true,
            rating: Some(5),
        },
        Restaurant {
            id: s("r2"),
            name: s("Diner"),
            cuisine_type: None,
            location: None,
            price_range: None,
            visited_flag: false,
            rating: None,
        },
        Restaurant {
            id: s("r3"),
            name: s("Odd"),
            cuisine_type: None,
            location: None,
            price_range: None,
            visited_flag: false,
            rating: Some(-12),
        },
    ]);
    let lines = refresh_dining(&restaurants).unwrap();
    assert_eq!(lines[0].cuisine_type, "Japanese");
    assert_eq!(lines[0].location, "Uptown");
    assert!(lines[0].visited);
    assert_eq!(lines[0].rating, "5");
    assert_eq!(lines[1].id, "r2");
    assert_eq!(lines[1].name, "Diner");
    assert_eq!(lines[1].cuisine_type, "General");
    assert_eq!(lines[1].location, "Unknown");
    assert!(!lines[1].visited);
    assert_eq!(lines[1].rating, "-");
    assert_eq!(lines[2].rating, "-12");
    assert!(refresh_dining::<&str>(&Err("locked")).is_none());
}

#[test]
fn trips_show_their_dates_without_the_time() {
    let trips: Result<Vec<Trip>, &str> = Ok(vec![
        Trip {
            id: s("t1"),
            name: s("Summer Vacation"),
            destination: s("Paris"),
            start_date: s("2024-06-01T08:00:00Z"),
            end_date: s("2024-06-15"),
            trip_type: some("vacation"),
            status: s("planning"),
        },
        Trip {
            id: s("t2"),
            name: s("Open"),
            destination: s("Anywhere"),
            start_date: s(""),
            end_date: s("Tomorrow"),
            trip_type: None,
            status: s("done"),
        },
    ]);
    let lines = refresh_travel(&trips).unwrap();
    assert_eq!(lines[0].id, "t1");
    assert_eq!(lines[0].name, "Summer Vacation");
    assert_eq!(lines[0].destination, "Paris");
    assert_eq!(lines[0].date_range, "2024-06-01 to 2024-06-15");
    assert_eq!(lines[0].trip_type, "vacation");
    assert_eq!(lines[0].status, "planning");
    assert_eq!(lines[1].date_range, " to ");
    assert_eq!(lines[1].trip_type, "Trip");
    assert_eq!(lines[1].status, "done");
    assert!(refresh_travel::<&str>(&Err("locked")).is_none());
}

#[test]
fn groceries_and_inventory_show_defaults() {
    let half = Quantity { bits: 0.5f64.to_bits() };
    let groceries: Result<Vec<GroceryItem>, &str> = Ok(vec![
        GroceryItem {
            id: s("g1"),
            name: s("Milk"),
            quantity: Some(half),
            unit: some("l"),
            category: some("Dairy"),
            is_purchased: false,
        },
        GroceryItem {
            id: s("g2"),
            name: s("Salt"),
            quantity: None,
            unit: None,
            category: None,
            is_purchased: false,
        },
    ]);
    let inventory: Result<Vec<InventoryItem>, &str> = Ok(vec![
        InventoryItem {
            id: s("i1"),
            name: s("Pasta"),
            quantity: None,
            unit: None,
            location_id: None,
            expiration_date: None,
        },
        InventoryItem {
            id: s("i2"),
            name: s("Peas"),
            quantity: Some(half),
            unit: some("kg"),
            location_id: some("Freezer"),
            expiration_date: some("2025-01-01"),
        },
    ]);
    let view = refresh_grocery(&groceries, &inventory);
    let items = view.items.unwrap();
    assert_eq!(items[0].id, "g1");
    assert_eq!(items[0].name, "Milk");
    assert_eq!(f64::from_bits(items[0].quantity.bits), 0.5);
    assert_eq!(items[0].unit, "l");
    assert_eq!(items[0].category, "Dairy");
    assert_eq!(f64::from_bits(items[1].quantity.bits), 1.0);
    assert_eq!(items[1].unit, "unit");
    assert_eq!(items[1].category, "Uncategorized");
    let stock = view.inventory.unwrap();
    assert_eq!(stock[0].name, "Pasta");
    assert_eq!(f64::from_bits(stock[0].quantity.bits), 1.0);
    assert_eq!(stock[0].unit, "unit");
    assert_eq!(stock[0].location, "Pantry");
    assert_eq!(stock[1].id, "i2");
    assert_eq!(f64::from_bits(stock[1].quantity.bits), 0.5);
    assert_eq!(stock[1].unit, "kg");
    assert_eq!(stock[1].location, "Freezer");

    let view = refresh_grocery::<&str, &str>(&Err("locked"), &inventory);
    assert!(view.items.is_none());
    assert_eq!(view.inventory.unwrap().len(), 2);
    let view = refresh_grocery::<&str, &str>(&groceries, &Err("locked"));
    assert_eq!(view.items.unwrap().len(), 2);
    assert!(view.inventory.is_none());
}

#[test]
fn finance_shows_accounts_and_transactions() {
    let accounts: Result<Vec<Account>, &str> = Ok(vec![Account {
        id: s("a1"),
        name: s("My Checking"),
        account_type: s("checking"),
        currency_code: s("INR"),
        current_balance_cents: 40000,
    }]);
    let transaction = |amount: i64, date: &str, category: Option<&str>| Transaction {
        id: s("t"),
        account_id: s("a1"),
        amount_cents: amount,
        currency_code: s("INR"),
        date: s(date),
        merchant: s("Whole Foods"),
        category_name: category.map(s),
    };
    let transactions: Result<Vec<Transaction>, &str> = Ok(vec![
        transaction(-10000, "2023-11-01T00:00:00Z", Some("Groceries")),
        transaction(2500, "2023-11-02", None),
        transaction(0, "T", None),
    ]);
    let view = refresh_finance(140000, &accounts, &transactions);
    assert_eq!(view.balance_cents, 140000);
    let lines = view.accounts.unwrap();
    assert_eq!(lines.len(), 1);
    assert_eq!(lines[0].id, "a1");
    assert_eq!(lines[0].name, "My Checking");
    assert_eq!(lines[0].account_type, "checking");
    assert_eq!(lines[0].currency_code, "INR");
    assert_eq!(lines[0].balance_cents, 40000);
    let lines = view.transactions.unwrap();
    assert_eq!(lines[0].id, "t");
    assert_eq!(lines[0].amount_cents, -10000);
    assert!(!lines[0].is_income);
    assert_eq!(lines[0].date, "2023-11-01");
    assert_eq!(lines[0].merchant, "Whole Foods");
    assert_eq!(lines[0].category, "Groceries");
    assert_eq!(lines[1].amount_cents, 2500);
    assert!(lines[1].is_income);
    assert_eq!(lines[1].date, "2023-11-02");
    assert_eq!(lines[1].category, "Uncategorized");
    assert!(!lines[2].is_income);
    assert_eq!(lines[2].date, "");

    let view = refresh_finance::<&str, &str>(-5, &Err("locked"), &Err("locked"));
    assert_eq!(view.balance_cents, -5);
    assert!(view.accounts.is_none());
    assert!(view.transactions.is_none());
}

#[test]
fn gift_ideas_are_grouped_by_person() {
    let people: Result<Vec<Person>, &str> = Ok(vec![
        Person {
            id: s("p1"),
            name: s("Alice"),
            relationship: some("Friend"),
            date_of_birth: some("1990-01-01"),
        },
        person("p2", "Bob"),
        person("p3", "Carol"),
    ]);
    let ideas: Result<Vec<GiftIdea>, &str> = Ok(vec![
        idea("i1", "p2", Some(2000)),
        idea("i2", "p1", None),
        idea("i3", "nobody", Some(1)),
        idea("i4", "p2", Some(-5)),
        idea("i5", "p1", Some(0)),
    ]);
    let view = refresh_gifts(&people, &ideas).unwrap();
    assert_eq!(view.people.len(), 3);
    assert_eq!(view.people[0].id, "p1");
    assert_eq!(view.people[0].name, "Alice");
    assert_eq!(view.people[0].relationship, "Friend");
    assert_eq!(view.people[0].date_of_birth, "1990-01-01");
    assert_eq!(view.people[1].relationship, "");
    assert_eq!(view.people[1].date_of_birth, "");
    let shown: Vec<(&str, &str, &str)> = view
        .ideas
        .iter()
        .map(|i| (i.id.as_str(), i.person_id.as_str(), i.estimated_price.as_str()))
        .collect();
    assert_eq!(
        shown,
        vec![("i2", "p1", "0"), ("i5", "p1", "0"), ("i1", "p2", "2000"), ("i4", "p2", "-5")]
    );
    assert_eq!(view.ideas[0].description, "d");
    assert_eq!(view.ideas[0].status, "idea");
}

#[test]
fn gift_ideas_repeat_for_people_with_one_identifier() {
    let people: Result<Vec<Person>, &str> = Ok(vec![person("p", "One"), person("p", "Other")]);
    let ideas: Result<Vec<GiftIdea>, &str> = Ok(vec![idea("i", "p", None)]);
    let view = refresh_gifts(&people, &ideas).unwrap();
    assert_eq!(view.ideas.len(), 2);
}

#[test]
fn gifts_without_ideas_or_people() {
    let people: Result<Vec<Person>, &str> = Ok(vec![person("p1", "Alice")]);
    let view = refresh_gifts::<&str, &str>(&people, &Err("locked")).unwrap();
    assert_eq!(view.people.len(), 1);
    assert!(view.ideas.is_empty());
    let ideas: Result<Vec<GiftIdea>, &str> = Ok(vec![idea("i", "p1", None)]);
    assert!(refresh_gifts::<&str, &str>(&Err("locked"), &ideas).is_none());
    let nobody: Result<Vec<Person>, &str> = Ok(vec![]);
    let view = refresh_gifts(&nobody, &ideas).unwrap();
    assert!(view.people.is_empty());
    assert!(view.ideas.is_empty());
}

#[test]
fn household_shows_members_and_documents() {
    let members: Result<Vec<Member>, &str> = Ok(vec![
        Member {
            id: s("m1"),
            name: s("Bob"),
            relationship: s("Spouse"),
            date_of_birth: some("1980-05-10"),
            profile_photo_path: None,
            is_primary: true,
        },
        Member {
            id: s("m2"),
            name: s("Eve"),
            relationship: s("Child"),
            date_of_birth: None,
            profile_photo_path: some("eve.png"),
            is_primary: false,
        },
    ]);
    let documents: Result<Vec<Document>, &str> = Ok(vec![
        Document {
            id: s("d1"),
            member_id: some("m1"),
            name: s("Passport"),
            document_type: s("ID"),
            document_number: some("A123"),
            issue_date: None,
            expiry_date: some("2030-01-01"),
            issuing_authority: None,
        },
        Document {
            id: s("d2"),
            member_id: None,
            name: s("Deed"),
            document_type: s("Property"),
            document_number: None,
            issue_date: None,
            expiry_date: None,
            issuing_authority: None,
        },
    ]);
    let view = refresh_household(&members, &documents);
    let lines = view.members.unwrap();
    assert_eq!(lines[0].id, "m1");
    assert_eq!(lines[0].name, "Bob");
    assert_eq!(lines[0].relationship, "Spouse");
    assert_eq!(lines[0].date_of_birth, "1980-05-10");
    assert!(lines[0].is_primary);
    assert_eq!(lines[1].date_of_birth, "");
    assert!(!lines[1].is_primary);
    let lines = view.documents.unwrap();
    assert_eq!(lines[0].id, "d1");
    assert_eq!(lines[0].member_id, "m1");
    assert_eq!(lines[0].name, "Passport");
    assert_eq!(lines[0].document_type, "ID");
    assert_eq!(lines[0].expiry_date, "2030-01-01");
    assert_eq!(lines[1].member_id, "");
    assert_eq!(lines[1].expiry_date, "");

    let view = refresh_household::<&str, &str>(&Err("locked"), &Err("locked"));
    assert!(view.members.is_none());
    assert!(view.documents.is_none());
}

#[test]
fn settings_show_the_stored_values_and_the_currency_codes() {
    let view = refresh_settings::<&str>(&Ok(settings("Ada")));
    let current = view.current.unwrap();
    assert_eq!(current.currency_symbol, "$");
    assert_eq!(current.selected_currency, "USD");
    assert_eq!(current.user_name, "Ada");
    assert_eq!(current.current_theme, "Light");
    assert_eq!(
        view.currency_codes,
        vec![
            "INR", "USD", "EUR", "GBP", "JPY", "AUD", "CAD", "CHF", "CNY", "SAR", "SGD", "NZD",
            "AED", "RUB", "BRL"
        ]
    );
    let view = refresh_settings::<&str>(&Err("locked"));
    assert!(view.current.is_none());
    assert_eq!(view.currency_codes.len(), 15);
}

#[test]
fn all_screens_are_refreshed_from_one_snapshot() {
    let snapshot: Snapshot<&str, &str> = Snapshot {
        settings: Ok(settings("Ada")),
        summary: Ok(DashboardSummary { net_balance_cents: 100, active_trips: 1, grocery_items: 0 }),
        appliances: Ok(vec![]),
        restaurants: Err("locked"),
        trips: Ok(vec![Trip {
            id: s("t1"),
            name: s("n"),
            destination: s("d"),
            start_date: s("2024-01-01T00:00:00Z"),
            end_date: s("2024-01-02T00:00:00Z"),
            trip_type: None,
            status: s("planning"),
        }]),
        groceries: Ok(vec![]),
        inventory: Err("locked"),
        total_balance_cents: 100,
        accounts: Ok(vec![]),
        transactions: Err("locked"),
        people: Ok(vec![person("p1", "Alice")]),
        gift_ideas: Ok(vec![idea("i1", "p1", Some(5))]),
        members: Err("locked"),
        documents: Ok(vec![]),
    };
    let screens = refresh_all_modules(&snapshot);
    assert_eq!(screens.settings.current.unwrap().user_name, "Ada");
    assert_eq!(screens.settings.currency_codes.len(), 15);
    assert_eq!(screens.dashboard.welcome_message, "Welcome home, Ada!");
    assert_eq!(
        screens.dashboard.figures,
        Some(DashboardFigures { balance_cents: 100, trip_count: 1, grocery_count: 0 })
    );
    assert!(screens.maintenance.unwrap().is_empty());
    assert!(screens.dining.is_none());
    assert_eq!(screens.travel.unwrap()[0].date_range, "2024-01-01 to 2024-01-02");
    assert!(screens.grocery.items.unwrap().is_empty());
    assert!(screens.grocery.inventory.is_none());
    assert_eq!(screens.finance.balance_cents, 100);
    assert!(screens.finance.accounts.unwrap().is_empty());
    assert!(screens.finance.transactions.is_none());
    let gifts = screens.gifts.unwrap();
    assert_eq!(gifts.people.len(), 1);
    assert_eq!(gifts.ideas[0].estimated_price, "5");
    assert!(screens.household.members.is_none());
    assert!(screens.household.documents.unwrap().is_empty());
}

#[test]
fn each_action_refreshes_the_screens_that_show_it() {
    use_screens(Action::ToggleModule, &[Screen::Modules]);
    use_screens(Action::CreateAccount, &[Screen::Finance, Screen::Dashboard]);
    use_screens(Action::CreateTransaction, &[Screen::Finance, Screen::Dashboard]);
    use_screens(Action::AddGroceryItem, &[Screen::Grocery, Screen::Dashboard]);
    use_screens(Action::AddInventoryItem, &[Screen::Grocery]);
    use_screens(Action::AddTravelTrip, &[Screen::Travel, Screen::Dashboard]);
    use_screens(Action::AddRestaurant, &[Screen::Dining]);
    use_screens(Action::AddAppliance, &[Screen::Maintenance]);
    use_screens(Action::AddPerson, &[Screen::Gifts]);
    use_screens(Action::AddGiftIdea, &[Screen::Gifts]);
    use_screens(Action::AddMember, &[Screen::Household]);
    use_screens(Action::AddDocument, &[Screen::Household]);
    use_screens(Action::UpdateCurrency, &[Screen::All]);
    use_screens(Action::UpdateProfile, &[Screen::All]);
}

fn use_screens(action: Action, expected: &[Screen]) {
    assert_eq!(screens_after(action), expected);
}

//! What the screens show: for each module, the lines of its lists, made from
//! the records that were read. A refresh that has nothing to show for a list,
//! because reading it failed, leaves that list as it is on screen.

use crate::db::{Quantity, QUANTITY_ONE_BITS};
use crate::modules::dashboard::DashboardSummary;
use crate::modules::dining::Restaurant;
use crate::modules::finance::{Account, Transaction};
use crate::modules::gifts::{GiftIdea, Person};
use crate::modules::grocery::{GroceryItem, InventoryItem};
use crate::modules::household::{Document, Member};
use crate::modules::maintenance::Appliance;
use crate::modules::registry::ModuleManifest;
use crate::modules::settings::{
    currency_table, get_currency_list, lists_currencies, AppSettings,
};
use crate::modules::travel::Trip;
use crate::text::{
    before, date_part, decimal, decimal_text, join3, or_text, text_or, text_or_empty,
};
use vstd::prelude::*;
use vstd::string::*;

verus! {

/// A line on screen that shows a record of type `R`.
pub trait Shows<R>: Sized {
    /// Whether the line shows `record`.
    spec fn shows(&self, record: R) -> bool;

    /// The line that shows `record`.
    fn of(record: &R) -> (line: Self)
        ensures
            line.shows(*record),
    ;
}

/// Whether `lines` show `records`, one for one and in order.
pub open spec fn show_all<V: Shows<R>, R>(lines: Seq<V>, records: Seq<R>) -> bool {
    &&& lines.len() == records.len()
    &&& forall|i: int| 0 <= i < lines.len() ==> (#[trigger] lines[i]).shows(records[i])
}

/// Whether `lines` are what a refresh makes of `fetched`: the lines of the
/// records where they were read, nothing where reading failed.
pub open spec fn refreshes<V: Shows<R>, R, X>(
    lines: Option<Vec<V>>,
    fetched: Result<Vec<R>, X>,
) -> bool {
    match fetched {
        Ok(records) => lines matches Some(v) && show_all(v@, records@),
        Err(_) => lines is None,
    }
}

/// The lines that show `records`.
pub fn lines_of<V: Shows<R>, R>(records: &Vec<R>) -> (lines: Vec<V>)
    ensures
        show_all(lines@, records@),
{
    let mut lines: Vec<V> = Vec::new();
    let mut i: usize = 0;
    while i < records.len()
        invariant
            i <= records.len(),
            lines@.len() == i,
            forall|k: int| 0 <= k < i ==> (#[trigger] lines@[k]).shows(records@[k]),
        decreases records.len() - i,
    {
        lines.push(V::of(&records[i]));
        i = i + 1;
    }
    lines
}

/// The lines that a refresh makes of `fetched`.
pub fn refreshed<V: Shows<R>, R, X>(fetched: &Result<Vec<R>, X>) -> (lines: Option<Vec<V>>)
    ensures
        refreshes(lines, *fetched),
{
    match fetched {
        Ok(records) => Some(lines_of(records)),
        Err(_) => None,
    }
}

/// A module in the list of modules.
#[derive(Debug, Clone)]
pub struct ModuleData {
    pub id: String,
    pub name: String,
    pub description: String,
    pub is_enabled: bool,
}

impl Shows<ModuleManifest> for ModuleData {
    open spec fn shows(&self, m: ModuleManifest) -> bool {
        &&& self.id@ == m.id@
        &&& self.name@ == m.name@
        &&& self.description@ == m.description@
        &&& self.is_enabled == m.is_enabled
    }

    fn of(m: &ModuleManifest) -> (line: Self) {
        ModuleData {
            id: m.id.clone(),
            name: m.name.clone(),
            description: m.description.clone(),
            is_enabled: m.is_enabled,
        }
    }
}

/// The list of modules on screen.
pub fn refresh_modules(all_modules: &Vec<ModuleManifest>) -> (lines: Vec<ModuleData>)
    ensures
        show_all(lines@, all_modules@),
{
    lines_of(all_modules)
}

/// The figures of the dashboard as the screen takes them.
#[derive(Debug, Clone, Copy, PartialEq, Eq, Structural)]
pub struct DashboardFigures {
    /// The net balance in cents; the screen shows it in units, with two
    /// decimals.
    pub balance_cents: i64,
    pub trip_count: i32,
    pub grocery_count: i32,
}

/// The dashboard on screen.
#[derive(Debug, Clone)]
pub struct DashboardView {
    pub welcome_message: String,
    /// Nothing where the summary could not be had: the figures on screen
    /// stay.
    pub figures: Option<DashboardFigures>,
}

/// A count as a 32-bit signed number takes it: its low 32 bits.
pub open spec fn wrapped_count(n: int) -> int {
    let low = n % 0x1_0000_0000;
    if low >= 0x8000_0000 {
        low - 0x1_0000_0000
    } else {
        low
    }
}

/// A count as the screen takes it. Counts up to 2147483647 are shown as
/// they are.
pub fn screen_count(n: usize) -> (r: i32)
    ensures
        r == wrapped_count(n as int),
        n <= i32::MAX ==> r == n,
{
    let low: u64 = (n as u64) % 0x1_0000_0000;
    if low >= 0x8000_0000 {
        ((low as i64) - 0x1_0000_0000) as i32
    } else {
        low as i32
    }
}

/// The user's name in `settings`, or the default user's name where the
/// settings could not be read.
pub open spec fn user_name_of<X>(settings: Result<AppSettings, X>) -> Seq<char> {
    match settings {
        Ok(s) => s.user_name@,
        Err(_) => "Lokesh"@,
    }
}

/// Whether `view` is the dashboard for these settings and this summary.
pub open spec fn shows_dashboard<X, Y>(
    view: DashboardView,
    settings: Result<AppSettings, X>,
    summary: Result<DashboardSummary, Y>,
) -> bool {
    &&& view.welcome_message@ == "Welcome home, "@ + user_name_of(settings) + "!"@
    &&& match summary {
        Ok(s) => view.figures == Some(
            DashboardFigures {
                balance_cents: s.net_balance_cents,
                trip_count: wrapped_count(s.active_trips as int) as i32,
                grocery_count: wrapped_count(s.grocery_items as int) as i32,
            },
        ),
        Err(_) => view.figures is None,
    }
}

/// The dashboard on screen: a greeting by the user's name, with the default
/// settings standing in where the stored ones could not be read, and the
/// figures of the summary where there is one.
pub fn refresh_dashboard_summary<X, Y>(
    settings: &Result<AppSettings, X>,
    summary: &Result<DashboardSummary, Y>,
) -> (view: DashboardView)
    ensures
        shows_dashboard(view, *settings, *summary),
{
    let welcome_message = match settings {
        Ok(s) => join3("Welcome home, ", s.user_name.as_str(), "!"),
        Err(_) => {
            let d = AppSettings::defaults();
            join3("Welcome home, ", d.user_name.as_str(), "!")
        },
    };
    let figures = match summary {
        Ok(s) => Some(
            DashboardFigures {
                balance_cents: s.net_balance_cents,
                trip_count: screen_count(s.active_trips),
                grocery_count: screen_count(s.grocery_items),
            },
        ),
        Err(_) => None,
    };
    DashboardView { welcome_message, figures }
}

/// An appliance in the maintenance list.
#[derive(Debug, Clone)]
pub struct MaintenanceApplianceData {
    pub id: String,
    pub name: String,
    pub brand: String,
    pub purchase_date: String,
    pub warranty_expiry: String,
}

impl Shows<Appliance> for MaintenanceApplianceData {
    /// A missing brand shows as `-`, a missing purchase date as `Unknown`, a
    /// missing warranty as `None`.
    open spec fn shows(&self, a: Appliance) -> bool {
        &&& self.id@ == a.id@
        &&& self.name@ == a.name@
        &&& self.brand@ == or_text(a.brand, "-"@)
        &&& self.purchase_date@ == or_text(a.purchase_date, "Unknown"@)
        &&& self.warranty_expiry@ == or_text(a.warranty_expiry, "None"@)
    }

    fn of(a: &Appliance) -> (line: Self) {
        MaintenanceApplianceData {
            id: a.id.clone(),
            name: a.name.clone(),
            brand: text_or(&a.brand, "-"),
            purchase_date: text_or(&a.purchase_date, "Unknown"),
            warranty_expiry: text_or(&a.warranty_expiry, "None"),
        }
    }
}

/// The maintenance list on screen.
pub fn refresh_maintenance<X>(appliances: &Result<Vec<Appliance>, X>) -> (lines: Option<
    Vec<MaintenanceApplianceData>,
>)
    ensures
        refreshes(lines, *appliances),
{
    refreshed(appliances)
}

/// A restaurant in the dining list.
#[derive(Debug, Clone)]
pub struct DiningRestaurantData {
    pub id: String,
    pub name: String,
    pub cuisine_type: String,
    pub location: String,
    pub visited: bool,
    pub rating: String,
}

/// A rating on screen: the number in decimal, or `-` where there is none.
pub open spec fn rating_text(rating: Option<i64>) -> Seq<char> {
    match rating {
        Some(r) => decimal(r as int),
        None => "-"@,
    }
}

impl Shows<Restaurant> for DiningRestaurantData {
    /// A missing cuisine shows as `General`, a missing location as `Unknown`.
    open spec fn shows(&self, r: Restaurant) -> bool {
        &&& self.id@ == r.id@
        &&& self.name@ == r.name@
        &&& self.cuisine_type@ == or_text(r.cuisine_type, "General"@)
        &&& self.location@ == or_text(r.location, "Unknown"@)
        &&& self.visited == r.visited_flag
        &&& self.rating@ == rating_text(r.rating)
    }

    fn of(r: &Restaurant) -> (line: Self) {
        let rating = match r.rating {
            Some(n) => decimal_text(n),
            None => String::from_str("-"),
        };
        DiningRestaurantData {
            id: r.id.clone(),
            name: r.name.clone(),
            cuisine_type: text_or(&r.cuisine_type, "General"),
            location: text_or(&r.location, "Unknown"),
            visited: r.visited_flag,
            rating,
        }
    }
}

/// The dining list on screen.
pub fn refresh_dining<X>(restaurants: &Result<Vec<Restaurant>, X>) -> (lines: Option<
    Vec<DiningRestaurantData>,
>)
    ensures
        refreshes(lines, *restaurants),
{
    refreshed(restaurants)
}

/// A trip in the travel list.
#[derive(Debug, Clone)]
pub struct TravelTripData {
    pub id: String,
    pub name: String,
    pub destination: String,
    pub date_range: String,
    pub trip_type: String,
    pub status: String,
}

/// The dates of a trip on screen: the date of its start, ` to `, the date of
/// its end, each without the time of day.
pub open spec fn date_range(start: Seq<char>, end: Seq<char>) -> Seq<char> {
    before(start, 'T') + " to "@ + before(end, 'T')
}

impl Shows<Trip> for TravelTripData {
    /// A missing kind of trip shows as `Trip`.
    open spec fn shows(&self, t: Trip) -> bool {
        &&& self.id@ == t.id@
        &&& self.name@ == t.name@
        &&& self.destination@ == t.destination@
        &&& self.date_range@ == date_range(t.start_date@, t.end_date@)
        &&& self.trip_type@ == or_text(t.trip_type, "Trip"@)
        &&& self.status@ == t.status@
    }

    fn of(t: &Trip) -> (line: Self) {
        let start = date_part(t.start_date.as_str());
        let end = date_part(t.end_date.as_str());
        TravelTripData {
            id: t.id.clone(),
            name: t.name.clone(),
            destination: t.destination.clone(),
            date_range: join3(start.as_str(), " to ", end.as_str()),
            trip_type: text_or(&t.trip_type, "Trip"),
            status: t.status.clone(),
        }
    }
}

/// The travel list on screen.
pub fn refresh_travel<X>(trips: &Result<Vec<Trip>, X>) -> (lines: Option<Vec<TravelTripData>>)
    ensures
        refreshes(lines, *trips),
{
    refreshed(trips)
}

/// The quantity shown for an item: its own, or 1 where it has none.
pub open spec fn quantity_or_one(quantity: Option<Quantity>) -> Quantity {
    match quantity {
        Some(q) => q,
        None => Quantity { bits: QUANTITY_ONE_BITS },
    }
}

fn shown_quantity(quantity: Option<Quantity>) -> (r: Quantity)
    ensures
        r == quantity_or_one(quantity),
{
    match quantity {
        Some(q) => q,
        None => Quantity::one(),
    }
}

/// An item of the shopping list on screen.
#[derive(Debug, Clone)]
pub struct GroceryItemData {
    pub id: String,
    pub name: String,
    pub quantity: Quantity,
    pub unit: String,
    pub category: String,
}

impl Shows<GroceryItem> for GroceryItemData {
    /// A missing quantity shows as 1, a missing unit as `unit`, a missing
    /// category as `Uncategorized`.
    open spec fn shows(&self, g: GroceryItem) -> bool {
        &&& self.id@ == g.id@
        &&& self.name@ == g.name@
        &&& self.quantity == quantity_or_one(g.quantity)
        &&& self.unit@ == or_text(g.unit, "unit"@)
        &&& self.category@ == or_text(g.category, "Uncategorized"@)
    }

    fn of(g: &GroceryItem) -> (line: Self) {
        GroceryItemData {
            id: g.id.clone(),
            name: g.name.clone(),
            quantity: shown_quantity(g.quantity),
            unit: text_or(&g.unit, "unit"),
            category: text_or(&g.category, "Uncategorized"),
        }
    }
}

/// An item of the inventory on screen.
#[derive(Debug, Clone)]
pub struct InventoryItemData {
    pub id: String,
    pub name: String,
    pub quantity: Quantity,
    pub unit: String,
    pub location: String,
}

impl Shows<InventoryItem> for InventoryItemData {
    /// A missing quantity shows as 1, a missing unit as `unit`, a missing
    /// location as `Pantry`.
    open spec fn shows(&self, item: InventoryItem) -> bool {
        &&& self.id@ == item.id@
        &&& self.name@ == item.name@
        &&& self.quantity == quantity_or_one(item.quantity)
        &&& self.unit@ == or_text(item.unit, "unit"@)
        &&& self.location@ == or_text(item.location_id, "Pantry"@)
    }

    fn of(item: &InventoryItem) -> (line: Self) {
        InventoryItemData {
            id: item.id.clone(),
            name: item.name.clone(),
            quantity: shown_quantity(item.quantity),
            unit: text_or(&item.unit, "unit"),
            location: text_or(&item.location_id, "Pantry"),
        }
    }
}

/// The grocery screen: the shopping list and the inventory.
#[derive(Debug, Clone)]
pub struct GroceryView {
    pub items: Option<Vec<GroceryItemData>>,
    pub inventory: Option<Vec<InventoryItemData>>,
}

/// The grocery screen.
pub fn refresh_grocery<X, Y>(
    groceries: &Result<Vec<GroceryItem>, X>,
    inventory: &Result<Vec<InventoryItem>, Y>,
) -> (view: GroceryView)
    ensures
        refreshes(view.items, *groceries),
        refreshes(view.inventory, *inventory),
{
    GroceryView { items: refreshed(groceries), inventory: refreshed(inventory) }
}

/// An account in the list of accounts.
#[derive(Debug, Clone)]
pub struct FinanceAccountData {
    pub id: String,
    pub name: String,
    pub account_type: String,
    pub currency_code: String,
    /// The balance in cents; the screen shows it in units, with two decimals.
    pub balance_cents: i64,
}

impl Shows<Account> for FinanceAccountData {
    open spec fn shows(&self, a: Account) -> bool {
        &&& self.id@ == a.id@
        &&& self.name@ == a.name@
        &&& self.account_type@ == a.account_type@
        &&& self.currency_code@ == a.currency_code@
        &&& self.balance_cents == a.current_balance_cents
    }

    fn of(a: &Account) -> (line: Self) {
        FinanceAccountData {
            id: a.id.clone(),
            name: a.name.clone(),
            account_type: a.account_type.clone(),
            currency_code: a.currency_code.clone(),
            balance_cents: a.current_balance_cents,
        }
    }
}

/// A transaction in the list of transactions.
#[derive(Debug, Clone)]
pub struct FinanceTransactionData {
    pub id: String,
    /// The amount in cents; the screen shows it in units, with two decimals
    /// and a minus sign in front of an expense.
    pub amount_cents: i64,
    pub is_income: bool,
    pub date: String,
    pub merchant: String,
    pub category: String,
}

impl Shows<Transaction> for FinanceTransactionData {
    /// Income is an amount above zero. The date shows without the time of
    /// day, a missing category as `Uncategorized`.
    open spec fn shows(&self, t: Transaction) -> bool {
        &&& self.id@ == t.id@
        &&& self.amount_cents == t.amount_cents
        &&& self.is_income == (t.amount_cents > 0)
        &&& self.date@ == before(t.date@, 'T')
        &&& self.merchant@ == t.merchant@
        &&& self.category@ == or_text(t.category_name, "Uncategorized"@)
    }

    fn of(t: &Transaction) -> (line: Self) {
        FinanceTransactionData {
            id: t.id.clone(),
            amount_cents: t.amount_cents,
            is_income: t.amount_cents > 0,
            date: date_part(t.date.as_str()),
            merchant: t.merchant.clone(),
            category: text_or(&t.category_name, "Uncategorized"),
        }
    }
}

/// The finance screen: the total balance, the accounts and the latest
/// transactions.
#[derive(Debug, Clone)]
pub struct FinanceView {
    /// The total balance in cents; the screen shows it in units, with two
    /// decimals.
    pub balance_cents: i64,
    pub accounts: Option<Vec<FinanceAccountData>>,
    pub transactions: Option<Vec<FinanceTransactionData>>,
}

/// The number of transactions that the finance screen asks for.
pub const FINANCE_TRANSACTION_LIMIT: usize = 50;

/// The finance screen.
pub fn refresh_finance<X, Y>(
    total_balance_cents: i64,
    accounts: &Result<Vec<Account>, X>,
    transactions: &Result<Vec<Transaction>, Y>,
) -> (view: FinanceView)
    ensures
        view.balance_cents == total_balance_cents,
        refreshes(view.accounts, *accounts),
        refreshes(view.transactions, *transactions),
{
    FinanceView {
        balance_cents: total_balance_cents,
        accounts: refreshed(accounts),
        transactions: refreshed(transactions),
    }
}

/// A person in the list of people.
#[derive(Debug, Clone)]
pub struct PersonData {
    pub id: String,
    pub name: String,
    pub relationship: String,
    pub date_of_birth: String,
}

impl Shows<Person> for PersonData {
    /// A missing relationship or date of birth shows as empty.
    open spec fn shows(&self, p: Person) -> bool {
        &&& self.id@ == p.id@
        &&& self.name@ == p.name@
        &&& self.relationship@ == or_text(p.relationship, Seq::empty())
        &&& self.date_of_birth@ == or_text(p.date_of_birth, Seq::empty())
    }

    fn of(p: &Person) -> (line: Self) {
        PersonData {
            id: p.id.clone(),
            name: p.name.clone(),
            relationship: text_or_empty(&p.relationship),
            date_of_birth: text_or_empty(&p.date_of_birth),
        }
    }
}

/// A gift idea in the list of ideas.
#[derive(Debug, Clone)]
pub struct GiftIdeaData {
    pub id: String,
    pub person_id: String,
    pub description: String,
    pub estimated_price: String,
    pub status: String,
}

/// An estimated price on screen: the cents in decimal, zero where there is
/// no estimate.
pub open spec fn price_text(cents: Option<i64>) -> Seq<char> {
    match cents {
        Some(c) => decimal(c as int),
        None => decimal(0),
    }
}

impl Shows<GiftIdea> for GiftIdeaData {
    open spec fn shows(&self, g: GiftIdea) -> bool {
        &&& self.id@ == g.id@
        &&& self.person_id@ == g.person_id@
        &&& self.description@ == g.description@
        &&& self.estimated_price@ == price_text(g.estimated_price_cents)
        &&& self.status@ == g.status@
    }

    fn of(g: &GiftIdea) -> (line: Self) {
        let cents = match g.estimated_price_cents {
            Some(c) => c,
            None => 0,
        };
        GiftIdeaData {
            id: g.id.clone(),
            person_id: g.person_id.clone(),
            description: g.description.clone(),
            estimated_price: decimal_text(cents),
            status: g.status.clone(),
        }
    }
}

/// The ideas among `ideas` that are for the person `person_id`, in their
/// order.
pub open spec fn ideas_for(ideas: Seq<GiftIdea>, person_id: Seq<char>) -> Seq<GiftIdea>
    decreases ideas.len(),
{
    if ideas.len() == 0 {
        Seq::empty()
    } else if ideas.last().person_id@ == person_id {
        ideas_for(ideas.drop_last(), person_id).push(ideas.last())
    } else {
        ideas_for(ideas.drop_last(), person_id)
    }
}

/// The ideas for the people `people`: for each person in turn, the ideas for
/// that person. An idea for nobody among `people` is left out.
pub open spec fn ideas_by_person(people: Seq<Person>, ideas: Seq<GiftIdea>) -> Seq<GiftIdea>
    decreases people.len(),
{
    if people.len() == 0 {
        Seq::empty()
    } else {
        ideas_by_person(people.drop_last(), ideas) + ideas_for(ideas, people.last().id@)
    }
}

/// The ideas on screen where reading them gave `ideas`: none where it
/// failed.
pub open spec fn ideas_read<Y>(ideas: Result<Vec<GiftIdea>, Y>) -> Seq<GiftIdea> {
    match ideas {
        Ok(v) => v@,
        Err(_) => Seq::empty(),
    }
}

/// The gifts screen: the people, and the gift ideas grouped by person.
#[derive(Debug, Clone)]
pub struct GiftsView {
    pub people: Vec<PersonData>,
    pub ideas: Vec<GiftIdeaData>,
}

/// Whether `view` is the gifts screen for these people and ideas.
pub open spec fn shows_gifts<X, Y>(
    view: Option<GiftsView>,
    people: Result<Vec<Person>, X>,
    ideas: Result<Vec<GiftIdea>, Y>,
) -> bool {
    match people {
        Ok(p) => view matches Some(v) && show_all(v.people@, p@) && show_all(
            v.ideas@,
            ideas_by_person(p@, ideas_read(ideas)),
        ),
        Err(_) => view is None,
    }
}

fn push_ideas_for(lines: &mut Vec<GiftIdeaData>, ideas: &Vec<GiftIdea>, person_id: &String)
    ensures
        final(lines)@.len() == old(lines)@.len() + ideas_for(ideas@, person_id@).len(),
        forall|i: int| 0 <= i < old(lines)@.len() ==> final(lines)@[i] == old(lines)@[i],
        forall|i: int|
            0 <= i < ideas_for(ideas@, person_id@).len() ==> (#[trigger] final(lines)@[old(
                lines,
            )@.len() + i]).shows(ideas_for(ideas@, person_id@)[i]),
{
    let ghost before = lines@;
    let mut k: usize = 0;
    while k < ideas.len()
        invariant
            k <= ideas.len(),
            lines@.len() == before.len() + ideas_for(ideas@.take(k as int), person_id@).len(),
            forall|i: int| 0 <= i < before.len() ==> lines@[i] == before[i],
            forall|i: int|
                0 <= i < ideas_for(ideas@.take(k as int), person_id@).len() ==> (
                #[trigger] lines@[before.len() + i]).shows(
                    ideas_for(ideas@.take(k as int), person_id@)[i],
                ),
        decreases ideas.len() - k,
    {
        proof {
            assert(ideas@.take(k + 1).drop_last() =~= ideas@.take(k as int));
            assert(ideas@.take(k + 1).last() == ideas@[k as int]);
        }
        if ideas[k].person_id == *person_id {
            lines.push(GiftIdeaData::of(&ideas[k]));
        }
        k = k + 1;
    }
    proof {
        assert(ideas@.take(ideas.len() as int) =~= ideas@);
    }
}

/// The gifts screen: the people as they were read, and under them the gift
/// ideas, for each person in turn those that are for that person. Where the
/// ideas could not be read the screen shows none; where the people could not
/// be read the screen stays as it is.
pub fn refresh_gifts<X, Y>(
    people: &Result<Vec<Person>, X>,
    ideas: &Result<Vec<GiftIdea>, Y>,
) -> (view: Option<GiftsView>)
    ensures
        shows_gifts(view, *people, *ideas),
{
    match people {
        Ok(persons) => {
            let lines: Vec<PersonData> = lines_of(persons);
            let mut all: Vec<GiftIdeaData> = Vec::new();
            match ideas {
                Ok(list) => {
                    let mut i: usize = 0;
                    while i < persons.len()
                        invariant
                            i <= persons.len(),
                            show_all(all@, ideas_by_person(persons@.take(i as int), list@)),
                        decreases persons.len() - i,
                    {
                        proof {
                            assert(persons@.take(i + 1).drop_last() =~= persons@.take(i as int));
                            assert(persons@.take(i + 1).last() == persons@[i as int]);
                        }
                        let ghost shown = all@;
                        let ghost earlier = ideas_by_person(persons@.take(i as int), list@);
                        let ghost added = ideas_for(list@, persons@[i as int].id@);
                        push_ideas_for(&mut all, list, &persons[i].id);
                        proof {
                            assert forall|j: int| 0 <= j < all@.len() implies (#[trigger] all@[j]).shows(
                                (earlier + added)[j],
                            ) by {
                                if j < shown.len() {
                                    assert(all@[j] == shown[j]);
                                } else {
                                    assert(all@[shown.len() + (j - shown.len())].shows(
                                        added[j - shown.len()],
                                    ));
                                }
                            }
                        }
                        i = i + 1;
                    }
                    proof {
                        assert(persons@.take(persons.len() as int) =~= persons@);
                    }
                },
                Err(_) => {
                    proof {
                        lemma_no_ideas(persons@);
                    }
                },
            }
            Some(GiftsView { people: lines, ideas: all })
        },
        Err(_) => None,
    }
}

/// Without ideas, nobody has any.
pub proof fn lemma_no_ideas(people: Seq<Person>)
    ensures
        ideas_by_person(people, Seq::empty()) == Seq::<GiftIdea>::empty(),
    decreases people.len(),
{
    if people.len() > 0 {
        lemma_no_ideas(people.drop_last());
        assert(ideas_by_person(people, Seq::empty()) =~= Seq::<GiftIdea>::empty());
    }
}

/// A member in the list of members.
#[derive(Debug, Clone)]
pub struct MemberData {
    pub id: String,
    pub name: String,
    pub relationship: String,
    pub date_of_birth: String,
    pub is_primary: bool,
}

impl Shows<Member> for MemberData {
    /// A missing date of birth shows as empty.
    open spec fn shows(&self, m: Member) -> bool {
        &&& self.id@ == m.id@
        &&& self.name@ == m.name@
        &&& self.relationship@ == m.relationship@
        &&& self.date_of_birth@ == or_text(m.date_of_birth, Seq::empty())
        &&& self.is_primary == m.is_primary
    }

    fn of(m: &Member) -> (line: Self) {
        MemberData {
            id: m.id.clone(),
            name: m.name.clone(),
            relationship: m.relationship.clone(),
            date_of_birth: text_or_empty(&m.date_of_birth),
            is_primary: m.is_primary,
        }
    }
}

/// A document in the list of documents.
#[derive(Debug, Clone)]
pub struct DocumentData {
    pub id: String,
    pub member_id: String,
    pub name: String,
    pub document_type: String,
    pub expiry_date: String,
}

impl Shows<Document> for DocumentData {
    /// A missing member or expiry date shows as empty.
    open spec fn shows(&self, d: Document) -> bool {
        &&& self.id@ == d.id@
        &&& self.member_id@ == or_text(d.member_id, Seq::empty())
        &&& self.name@ == d.name@
        &&& self.document_type@ == d.document_type@
        &&& self.expiry_date@ == or_text(d.expiry_date, Seq::empty())
    }

    fn of(d: &Document) -> (line: Self) {
        DocumentData {
            id: d.id.clone(),
            member_id: text_or_empty(&d.member_id),
            name: d.name.clone(),
            document_type: d.document_type.clone(),
            expiry_date: text_or_empty(&d.expiry_date),
        }
    }
}

/// The household screen: the members and the documents.
#[derive(Debug, Clone)]
pub struct HouseholdView {
    pub members: Option<Vec<MemberData>>,
    pub documents: Option<Vec<DocumentData>>,
}

/// The household screen.
pub fn refresh_household<X, Y>(
    members: &Result<Vec<Member>, X>,
    documents: &Result<Vec<Document>, Y>,
) -> (view: HouseholdView)
    ensures
        refreshes(view.members, *members),
        refreshes(view.documents, *documents),
{
    HouseholdView { members: refreshed(members), documents: refreshed(documents) }
}

/// The stored settings as the settings screen shows them.
#[derive(Debug, Clone)]
pub struct SettingsData {
    pub currency_symbol: String,
    pub selected_currency: String,
    pub user_name: String,
    pub current_theme: String,
}

impl Shows<AppSettings> for SettingsData {
    open spec fn shows(&self, s: AppSettings) -> bool {
        &&& self.currency_symbol@ == s.currency_symbol@
        &&& self.selected_currency@ == s.currency_code@
        &&& self.user_name@ == s.user_name@
        &&& self.current_theme@ == s.theme@
    }

    fn of(s: &AppSettings) -> (line: Self) {
        SettingsData {
            currency_symbol: s.currency_symbol.clone(),
            selected_currency: s.currency_code.clone(),
            user_name: s.user_name.clone(),
            current_theme: s.theme.clone(),
        }
    }
}

/// The settings screen.
#[derive(Debug, Clone)]
pub struct SettingsView {
    /// Nothing where the settings could not be read: the screen stays as it
    /// is.
    pub current: Option<SettingsData>,
    /// The codes of the currencies on offer, in their order.
    pub currency_codes: Vec<String>,
}

/// Whether `codes` are the codes of the currencies of `table`, in order.
pub open spec fn lists_codes(codes: Seq<String>, table: Seq<(Seq<char>, Seq<char>)>) -> bool {
    &&& codes.len() == table.len()
    &&& forall|i: int| 0 <= i < codes.len() ==> (#[trigger] codes[i])@ == table[i].0
}

/// Whether `view` is the settings screen for these settings.
pub open spec fn shows_settings<X>(view: SettingsView, settings: Result<AppSettings, X>) -> bool {
    &&& match settings {
        Ok(s) => view.current matches Some(d) && d.shows(s),
        Err(_) => view.current is None,
    }
    &&& lists_codes(view.currency_codes@, currency_table())
}

/// The settings screen: the stored settings where they could be read, and
/// the codes of the currencies on offer.
pub fn refresh_settings<X>(settings: &Result<AppSettings, X>) -> (view: SettingsView)
    ensures
        shows_settings(view, *settings),
{
    let current = match settings {
        Ok(s) => Some(SettingsData::of(s)),
        Err(_) => None,
    };
    let list = get_currency_list();
    let mut currency_codes: Vec<String> = Vec::new();
    let mut i: usize = 0;
    while i < list.len()
        invariant
            i <= list.len(),
            lists_currencies(list@, currency_table()),
            currency_codes@.len() == i,
            forall|k: int| 0 <= k < i ==> (#[trigger] currency_codes@[k])@ == currency_table()[k].0,
        decreases list.len() - i,
    {
        assert(list@[i as int].code@ == currency_table()[i as int].0);
        currency_codes.push(list[i].code.clone());
        i = i + 1;
    }
    SettingsView { current, currency_codes }
}

/// Everything that a refresh of all screens reads.
pub struct Snapshot<E, F> {
    pub settings: Result<AppSettings, F>,
    pub summary: Result<DashboardSummary, E>,
    pub appliances: Result<Vec<Appliance>, E>,
    pub restaurants: Result<Vec<Restaurant>, E>,
    pub trips: Result<Vec<Trip>, E>,
    pub groceries: Result<Vec<GroceryItem>, E>,
    pub inventory: Result<Vec<InventoryItem>, E>,
    pub total_balance_cents: i64,
    pub accounts: Result<Vec<Account>, E>,
    pub transactions: Result<Vec<Transaction>, E>,
    pub people: Result<Vec<Person>, F>,
    pub gift_ideas: Result<Vec<GiftIdea>, F>,
    pub members: Result<Vec<Member>, F>,
    pub documents: Result<Vec<Document>, F>,
}

/// All screens but the list of modules.
#[derive(Debug, Clone)]
pub struct Screens {
    pub settings: SettingsView,
    pub dashboard: DashboardView,
    pub maintenance: Option<Vec<MaintenanceApplianceData>>,
    pub dining: Option<Vec<DiningRestaurantData>>,
    pub travel: Option<Vec<TravelTripData>>,
    pub grocery: GroceryView,
    pub finance: FinanceView,
    pub gifts: Option<GiftsView>,
    pub household: HouseholdView,
}

/// Whether `screens` are what a refresh of all screens makes of `snapshot`.
pub open spec fn shows_snapshot<E, F>(screens: Screens, snapshot: Snapshot<E, F>) -> bool {
    &&& shows_settings(screens.settings, snapshot.settings)
    &&& shows_dashboard(screens.dashboard, snapshot.settings, snapshot.summary)
    &&& refreshes(screens.maintenance, snapshot.appliances)
    &&& refreshes(screens.dining, snapshot.restaurants)
    &&& refreshes(screens.travel, snapshot.trips)
    &&& refreshes(screens.grocery.items, snapshot.groceries)
    &&& refreshes(screens.grocery.inventory, snapshot.inventory)
    &&& screens.finance.balance_cents == snapshot.total_balance_cents
    &&& refreshes(screens.finance.accounts, snapshot.accounts)
    &&& refreshes(screens.finance.transactions, snapshot.transactions)
    &&& shows_gifts(screens.gifts, snapshot.people, snapshot.gift_ideas)
    &&& refreshes(screens.household.members, snapshot.members)
    &&& refreshes(screens.household.documents, snapshot.documents)
}

/// Refreshes every screen but the list of modules from what was read.
pub fn refresh_all_modules<E, F>(snapshot: &Snapshot<E, F>) -> (screens: Screens)
    ensures
        shows_snapshot(screens, *snapshot),
{
    Screens {
        settings: refresh_settings(&snapshot.settings),
        dashboard: refresh_dashboard_summary(&snapshot.settings, &snapshot.summary),
        maintenance: refresh_maintenance(&snapshot.appliances),
        dining: refresh_dining(&snapshot.restaurants),
        travel: refresh_travel(&snapshot.trips),
        grocery: refresh_grocery(&snapshot.groceries, &snapshot.inventory),
        finance: refresh_finance(
            snapshot.total_balance_cents,
            &snapshot.accounts,
            &snapshot.transactions,
        ),
        gifts: refresh_gifts(&snapshot.people, &snapshot.gift_ideas),
        household: refresh_household(&snapshot.members, &snapshot.documents),
    }
}

/// A screen that can be refreshed.
#[derive(Debug, Clone, Copy, PartialEq, Eq, Structural)]
pub enum Screen {
    Modules,
    Dashboard,
    Finance,
    Grocery,
    Travel,
    Dining,
    Maintenance,
    Gifts,
    Household,
    /// Every screen but the list of modules.
    All,
}

/// Something that the user did and that changed the database.
#[derive(Debug, Clone, Copy, PartialEq, Eq, Structural)]
pub enum Action {
    ToggleModule,
    CreateAccount,
    CreateTransaction,
    AddGroceryItem,
    AddInventoryItem,
    AddTravelTrip,
    AddRestaurant,
    AddAppliance,
    AddPerson,
    AddGiftIdea,
    AddMember,
    AddDocument,
    UpdateCurrency,
    UpdateProfile,
}

/// The screens that show what `action` changed, in the order in which they
/// are refreshed. What counts on the dashboard refreshes the dashboard too;
/// a change of the settings refreshes every screen.
pub open spec fn shown_after(action: Action) -> Seq<Screen> {
    match action {
        Action::ToggleModule => seq![Screen::Modules],
        Action::CreateAccount => seq![Screen::Finance, Screen::Dashboard],
        Action::CreateTransaction => seq![Screen::Finance, Screen::Dashboard],
        Action::AddGroceryItem => seq![Screen::Grocery, Screen::Dashboard],
        Action::AddInventoryItem => seq![Screen::Grocery],
        Action::AddTravelTrip => seq![Screen::Travel, Screen::Dashboard],
        Action::AddRestaurant => seq![Screen::Dining],
        Action::AddAppliance => seq![Screen::Maintenance],
        Action::AddPerson => seq![Screen::Gifts],
        Action::AddGiftIdea => seq![Screen::Gifts],
        Action::AddMember => seq![Screen::Household],
        Action::AddDocument => seq![Screen::Household],
        Action::UpdateCurrency => seq![Screen::All],
        Action::UpdateProfile => seq![Screen::All],
    }
}

/// The screens to refresh after `action`.
pub fn screens_after(action: Action) -> (r: Vec<Screen>)
    ensures
        r@ == shown_after(action),
{
    let r = match action {
        Action::ToggleModule => vec![Screen::Modules],
        Action::CreateAccount | Action::CreateTransaction => vec![
            Screen::Finance,
            Screen::Dashboard,
        ],
        Action::AddGroceryItem => vec![Screen::Grocery, Screen::Dashboard],
        Action::AddInventoryItem => vec![Screen::Grocery],
        Action::AddTravelTrip => vec![Screen::Travel, Screen::Dashboard],
        Action::AddRestaurant => vec![Screen::Dining],
        Action::AddAppliance => vec![Screen::Maintenance],
        Action::AddPerson | Action::AddGiftIdea => vec![Screen::Gifts],
        Action::AddMember | Action::AddDocument => vec![Screen::Household],
        Action::UpdateCurrency | Action::UpdateProfile => vec![Screen::All],
    };
    assert(r@ =~= shown_after(action));
    r
}

} // verus!

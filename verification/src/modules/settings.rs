//! Application settings: the one row of preferences, its defaults, and the
//! currencies on offer.

use crate::db::{
    column, read_one, row_fits, Cell, Column, ColumnKind, FromRow, Lookup, Query, ReadError,
    Statement, Value,
};
use vstd::prelude::*;
use vstd::string::*;

verus! {

/// The global application settings.
#[derive(Debug, Clone)]
pub struct AppSettings {
    pub currency_code: String,
    pub currency_symbol: String,
    pub user_name: String,
    pub theme: String,
}

/// A currency on offer in the settings.
#[derive(Debug, Clone)]
pub struct CurrencyInfo {
    pub code: String,
    pub symbol: String,
}

/// The currencies on offer, as pairs of code and symbol, in the order in which
/// they are shown.
pub open spec fn currency_table() -> Seq<(Seq<char>, Seq<char>)> {
    seq![
        ("INR"@, "₹"@),
        ("USD"@, "$"@),
        ("EUR"@, "€"@),
        ("GBP"@, "£"@),
        ("JPY"@, "¥"@),
        ("AUD"@, "A$"@),
        ("CAD"@, "C$"@),
        ("CHF"@, "Fr"@),
        ("CNY"@, "¥"@),
        ("SAR"@, "﷼"@),
        ("SGD"@, "S$"@),
        ("NZD"@, "NZ$"@),
        ("AED"@, "د.إ"@),
        ("RUB"@, "₽"@),
        ("BRL"@, "R$"@),
    ]
}

/// Whether `list` holds the currencies of `table`, one for one and in order.
pub open spec fn lists_currencies(list: Seq<CurrencyInfo>, table: Seq<(Seq<char>, Seq<char>)>) -> bool {
    &&& list.len() == table.len()
    &&& forall|i: int|
        0 <= i < list.len() ==> (#[trigger] list[i]).code@ == table[i].0 && list[i].symbol@
            == table[i].1
}

fn currency(code: &str, symbol: &str) -> (r: CurrencyInfo)
    ensures
        r.code@ == code@,
        r.symbol@ == symbol@,
{
    CurrencyInfo { code: String::from_str(code), symbol: String::from_str(symbol) }
}

/// The currencies on offer.
pub fn get_currency_list() -> (r: Vec<CurrencyInfo>)
    ensures
        lists_currencies(r@, currency_table()),
{
    let mut list: Vec<CurrencyInfo> = Vec::new();
    list.push(currency("INR", "₹"));
    list.push(currency("USD", "$"));
    list.push(currency("EUR", "€"));
    list.push(currency("GBP", "£"));
    list.push(currency("JPY", "¥"));
    list.push(currency("AUD", "A$"));
    list.push(currency("CAD", "C$"));
    list.push(currency("CHF", "Fr"));
    list.push(currency("CNY", "¥"));
    list.push(currency("SAR", "﷼"));
    list.push(currency("SGD", "S$"));
    list.push(currency("NZD", "NZ$"));
    list.push(currency("AED", "د.إ"));
    list.push(currency("RUB", "₽"));
    list.push(currency("BRL", "R$"));
    list
}

/// The symbol that `table` gives for `code`: that of the first entry with the
/// code, or `$` where there is none.
pub open spec fn table_symbol(table: Seq<(Seq<char>, Seq<char>)>, code: Seq<char>) -> Seq<char>
    decreases table.len(),
{
    if table.len() == 0 {
        "$"@
    } else if table[0].0 == code {
        table[0].1
    } else {
        table_symbol(table.drop_first(), code)
    }
}

/// The symbol shown for the currency `code`: the one from the list of
/// currencies on offer, or `$` for a code that the list does not hold.
pub fn symbol_for_code(code: &str) -> (r: String)
    ensures
        r@ == table_symbol(currency_table(), code@),
{
    let list = get_currency_list();
    let wanted = String::from_str(code);
    let ghost table = currency_table();
    let mut i: usize = 0;
    assert(table.skip(0) =~= table);
    while i < list.len()
        invariant
            i <= list.len(),
            wanted@ == code@,
            table == currency_table(),
            lists_currencies(list@, table),
            table_symbol(table, code@) == table_symbol(table.skip(i as int), code@),
        decreases list.len() - i,
    {
        proof {
            assert(table.skip(i as int).len() > 0);
            assert(table.skip(i as int)[0] == table[i as int]);
            assert(table.skip(i as int).drop_first() =~= table.skip(i + 1));
        }
        if list[i].code == wanted {
            return list[i].symbol.clone();
        }
        i = i + 1;
    }
    String::from_str("$")
}

/// The settings of a new installation.
pub open spec fn is_default_settings(s: AppSettings) -> bool {
    &&& s.currency_code@ == "INR"@
    &&& s.currency_symbol@ == "₹"@
    &&& s.user_name@ == "Lokesh"@
    &&& s.theme@ == "Dark"@
}

impl AppSettings {
    /// The settings of a new installation, which also stand in where the
    /// stored ones cannot be read.
    pub fn defaults() -> (r: AppSettings)
        ensures
            is_default_settings(r),
    {
        AppSettings {
            currency_code: String::from_str("INR"),
            currency_symbol: String::from_str("₹"),
            user_name: String::from_str("Lokesh"),
            theme: String::from_str("Dark"),
        }
    }
}

/// Selects the stored settings.
pub const SELECT_SETTINGS: &'static str =
    "SELECT currency_code, currency_symbol, user_name, theme FROM app_preferences WHERE id = 1";

/// Stores settings unless settings are stored.
pub const INSERT_DEFAULT_SETTINGS: &'static str =
    "INSERT OR IGNORE INTO app_preferences (id, currency_code, currency_symbol, user_name, theme) VALUES (1, ?1, ?2, ?3, ?4)";

/// Sets the currency of the stored settings.
pub const UPDATE_CURRENCY: &'static str =
    "UPDATE app_preferences SET currency_code = ?1, currency_symbol = ?2 WHERE id = 1";

/// Sets the user's name and the theme of the stored settings.
pub const UPDATE_PROFILE: &'static str =
    "UPDATE app_preferences SET user_name = ?1, theme = ?2 WHERE id = 1";

/// The columns of the settings row.
pub open spec fn settings_columns() -> Seq<Column> {
    seq![
        Column { index: 0, kind: ColumnKind::Text },
        Column { index: 1, kind: ColumnKind::Text },
        Column { index: 2, kind: ColumnKind::Text },
        Column { index: 3, kind: ColumnKind::Text },
    ]
}

impl FromRow for AppSettings {
    open spec fn well_shaped(cells: Seq<Cell>) -> bool {
        row_fits(cells, settings_columns())
    }

    open spec fn reads(&self, cells: Seq<Cell>) -> bool {
        &&& cells.len() == 4
        &&& cells[0].is_text(self.currency_code@)
        &&& cells[1].is_text(self.currency_symbol@)
        &&& cells[2].is_text(self.user_name@)
        &&& cells[3].is_text(self.theme@)
    }

    fn from_cells(cells: &Vec<Cell>) -> (r: Option<Self>) {
        if cells.len() != 4 {
            return None;
        }
        let currency_code = cells[0].text()?;
        let currency_symbol = cells[1].text()?;
        let user_name = cells[2].text()?;
        let theme = cells[3].text()?;
        Some(AppSettings { currency_code, currency_symbol, user_name, theme })
    }
}

/// The query for the stored settings.
pub fn settings_query() -> (q: Query)
    ensures
        q.sql@ == SELECT_SETTINGS@,
        q.params@.len() == 0,
        q.columns@ == settings_columns(),
{
    let columns = vec![
        column(0, ColumnKind::Text),
        column(1, ColumnKind::Text),
        column(2, ColumnKind::Text),
        column(3, ColumnKind::Text),
    ];
    assert(columns@ =~= settings_columns());
    Query { sql: String::from_str(SELECT_SETTINGS), params: Vec::new(), columns }
}

/// What to do once the stored settings have been looked up.
#[derive(Debug)]
pub enum SettingsStep<E> {
    /// The lookup has settled: the settings, or why they cannot be had.
    Done(Result<AppSettings, ReadError<E>>),
    /// Nothing is stored yet: store the defaults, then look up again.
    Initialize,
}

/// Decides on the stored settings from the answer to `settings_query`: the
/// settings where a row came back, the failure where the database failed, and
/// an order to store the defaults first where no row is stored.
pub fn get_settings<E>(lookup: Lookup<E>) -> (r: SettingsStep<E>)
    ensures
        match lookup {
            Ok(None) => r is Initialize,
            Ok(Some(cells)) => if AppSettings::well_shaped(cells@) {
                r matches SettingsStep::Done(Ok(s)) && s.reads(cells@)
            } else {
                r matches SettingsStep::Done(Err(ReadError::Shape))
            },
            Err(e) => r == SettingsStep::Done(
                Err::<AppSettings, ReadError<E>>(ReadError::Database(e)),
            ),
        },
{
    match read_one::<AppSettings, E>(lookup) {
        Ok(Some(settings)) => SettingsStep::Done(Ok(settings)),
        Ok(None) => SettingsStep::Initialize,
        Err(e) => SettingsStep::Done(Err(e)),
    }
}

/// The statement that stores the default settings unless settings are stored
/// already.
pub fn initialize_defaults() -> (s: Statement)
    ensures
        s.sql@ == INSERT_DEFAULT_SETTINGS@,
        s.params@.len() == 4,
        s.params@[0].is_text("INR"@),
        s.params@[1].is_text("₹"@),
        s.params@[2].is_text("Lokesh"@),
        s.params@[3].is_text("Dark"@),
{
    let d = AppSettings::defaults();
    let params = vec![
        Value::Text(d.currency_code),
        Value::Text(d.currency_symbol),
        Value::Text(d.user_name),
        Value::Text(d.theme),
    ];
    Statement { sql: String::from_str(INSERT_DEFAULT_SETTINGS), params }
}

/// The statement that sets the currency of the stored settings.
pub fn update_currency(code: &str, symbol: &str) -> (s: Statement)
    ensures
        s.sql@ == UPDATE_CURRENCY@,
        s.params@.len() == 2,
        s.params@[0].is_text(code@),
        s.params@[1].is_text(symbol@),
{
    let params = vec![Value::text(code), Value::text(symbol)];
    Statement { sql: String::from_str(UPDATE_CURRENCY), params }
}

/// The statement that sets the user's name and the theme of the stored
/// settings.
pub fn update_profile(user_name: &str, theme: &str) -> (s: Statement)
    ensures
        s.sql@ == UPDATE_PROFILE@,
        s.params@.len() == 2,
        s.params@[0].is_text(user_name@),
        s.params@[1].is_text(theme@),
{
    let params = vec![Value::text(user_name), Value::text(theme)];
    Statement { sql: String::from_str(UPDATE_PROFILE), params }
}

} // verus!

//! The modules that the application knows, and which of them are switched
//! on. The list of modules is fixed; the database stores, for each, whether
//! it is enabled, and what is stored there overrides the default.

use crate::db::{
    all_read, column, read_lenient, readable_rows, row_fits, Cell, Column, ColumnKind, Fetched,
    FromRow, Query, Statement, Value,
};
use vstd::prelude::*;
use vstd::string::*;

verus! {

/// A module of the application.
#[derive(Debug, Clone)]
pub struct ModuleManifest {
    pub id: String,
    pub name: String,
    pub description: String,
    pub icon: String,
    pub is_enabled: bool,
}

/// A module as the fixed list describes it, with its default state.
pub struct ModuleEntry {
    pub id: Seq<char>,
    pub name: Seq<char>,
    pub description: Seq<char>,
    pub icon: Seq<char>,
    pub is_enabled: bool,
}

/// The fixed list of modules. Only finance is enabled by default.
pub open spec fn module_table() -> Seq<ModuleEntry> {
    seq![
        ModuleEntry {
            id: "finance"@,
            name: "Finance"@,
            description: "Manage accounts, budgets, and transactions"@,
            icon: ""@,
            is_enabled: true,
        },
        ModuleEntry {
            id: "grocery"@,
            name: "Grocery"@,
            description: "Shopping lists and inventory manager"@,
            icon: ""@,
            is_enabled: false,
        },
        ModuleEntry {
            id: "travel"@,
            name: "Travel"@,
            description: "Trip planning and itineraries"@,
            icon: ""@,
            is_enabled: false,
        },
        ModuleEntry {
            id: "dining"@,
            name: "Dining"@,
            description: "Restaurant lists and visits"@,
            icon: ""@,
            is_enabled: false,
        },
    ]
}

impl ModuleManifest {
    /// Whether the module is the one that `entry` describes, whatever its
    /// state.
    pub open spec fn describes(self, entry: ModuleEntry) -> bool {
        &&& self.id@ == entry.id
        &&& self.name@ == entry.name
        &&& self.description@ == entry.description
        &&& self.icon@ == entry.icon
    }
}

/// Whether `modules` are the modules of `table`, one for one and in order,
/// each in its default state.
pub open spec fn lists_modules(modules: Seq<ModuleManifest>, table: Seq<ModuleEntry>) -> bool {
    &&& modules.len() == table.len()
    &&& forall|i: int|
        0 <= i < modules.len() ==> (#[trigger] modules[i]).describes(table[i])
            && modules[i].is_enabled == table[i].is_enabled
}

fn module(id: &str, name: &str, description: &str, is_enabled: bool) -> (r: ModuleManifest)
    ensures
        r.id@ == id@,
        r.name@ == name@,
        r.description@ == description@,
        r.icon@ == ""@,
        r.is_enabled == is_enabled,
{
    ModuleManifest {
        id: String::from_str(id),
        name: String::from_str(name),
        description: String::from_str(description),
        icon: String::from_str(""),
        is_enabled,
    }
}

/// The fixed list of modules, each in its default state.
pub fn get_hardcoded_modules() -> (r: Vec<ModuleManifest>)
    ensures
        lists_modules(r@, module_table()),
{
    let mut list: Vec<ModuleManifest> = Vec::new();
    list.push(module("finance", "Finance", "Manage accounts, budgets, and transactions", true));
    list.push(module("grocery", "Grocery", "Shopping lists and inventory manager", false));
    list.push(module("travel", "Travel", "Trip planning and itineraries", false));
    list.push(module("dining", "Dining", "Restaurant lists and visits", false));
    list
}

/// Stores the state of a module unless one is stored for it.
pub const INSERT_MODULE_STATE: &'static str =
    "INSERT OR IGNORE INTO module_state (module_id, is_enabled) VALUES (?1, ?2)";

/// Selects the stored states of the modules.
pub const SELECT_MODULE_STATE: &'static str = "SELECT module_id, is_enabled FROM module_state";

/// Sets the stored state of a module.
pub const UPDATE_MODULE_STATE: &'static str =
    "UPDATE module_state SET is_enabled = ?1 WHERE module_id = ?2";

/// Whether `s` stores the state `is_enabled` for the module `id` unless a
/// state is stored for it already.
pub open spec fn is_state_insert(s: Statement, id: Seq<char>, is_enabled: bool) -> bool {
    &&& s.sql@ == INSERT_MODULE_STATE@
    &&& s.params@.len() == 2
    &&& s.params@[0].is_text(id)
    &&& s.params@[1].is_flag(is_enabled)
}

/// Whether `batch` stores, for each module of `table` in order, its default
/// state unless a state is stored for it already.
pub open spec fn stores_defaults(batch: Seq<Statement>, table: Seq<ModuleEntry>) -> bool {
    &&& batch.len() == table.len()
    &&& forall|i: int|
        0 <= i < batch.len() ==> is_state_insert(
            #[trigger] batch[i],
            table[i].id,
            table[i].is_enabled,
        )
}

/// The statements that store the default state of every module for which
/// none is stored yet. They are run in order; the first failure stops the
/// run.
pub fn setup_default_modules() -> (batch: Vec<Statement>)
    ensures
        stores_defaults(batch@, module_table()),
{
    let defaults = get_hardcoded_modules();
    let ghost table = module_table();
    let mut batch: Vec<Statement> = Vec::new();
    let mut i: usize = 0;
    while i < defaults.len()
        invariant
            i <= defaults.len(),
            lists_modules(defaults@, table),
            batch@.len() == i,
            forall|k: int|
                0 <= k < i ==> is_state_insert(
                    #[trigger] batch@[k],
                    table[k].id,
                    table[k].is_enabled,
                ),
        decreases defaults.len() - i,
    {
        let m = &defaults[i];
        let params = vec![Value::text(m.id.as_str()), Value::flag(m.is_enabled)];
        batch.push(Statement { sql: String::from_str(INSERT_MODULE_STATE), params });
        i = i + 1;
    }
    batch
}

/// The stored state of one module.
#[derive(Debug, Clone)]
pub struct ModuleState {
    pub module_id: String,
    pub is_enabled: bool,
}

/// The columns of a stored state's row.
pub open spec fn module_state_columns() -> Seq<Column> {
    seq![
        Column { index: 0, kind: ColumnKind::Text },
        Column { index: 1, kind: ColumnKind::SmallInteger },
    ]
}

impl FromRow for ModuleState {
    open spec fn well_shaped(cells: Seq<Cell>) -> bool {
        row_fits(cells, module_state_columns())
    }

    /// A module is enabled where the stored flag is one.
    open spec fn reads(&self, cells: Seq<Cell>) -> bool {
        &&& cells.len() == 2
        &&& cells[0].is_text(self.module_id@)
        &&& cells[1] matches Cell::Integer(flag) && self.is_enabled == (flag == 1)
    }

    fn from_cells(cells: &Vec<Cell>) -> (r: Option<Self>) {
        if cells.len() != 2 {
            return None;
        }
        let module_id = cells[0].text()?;
        let flag = cells[1].small_integer()?;
        Some(ModuleState { module_id, is_enabled: flag == 1 })
    }
}

/// The query for the stored states.
pub fn module_state_query() -> (q: Query)
    ensures
        q.sql@ == SELECT_MODULE_STATE@,
        q.params@.len() == 0,
        q.columns@ == module_state_columns(),
{
    let columns = vec![column(0, ColumnKind::Text), column(1, ColumnKind::SmallInteger)];
    assert(columns@ =~= module_state_columns());
    Query { sql: String::from_str(SELECT_MODULE_STATE), params: Vec::new(), columns }
}

/// The state that `states` store for the module `id`: that of the last entry
/// for it, or none.
pub open spec fn stored_state(states: Seq<ModuleState>, id: Seq<char>) -> Option<bool>
    decreases states.len(),
{
    if states.len() == 0 {
        None
    } else if states.last().module_id@ == id {
        Some(states.last().is_enabled)
    } else {
        stored_state(states.drop_last(), id)
    }
}

/// Whether `merged` are the modules `defaults`, one for one and in order, each
/// with the state that `states` store for it, or with its own where none is
/// stored.
pub open spec fn overrides(
    merged: Seq<ModuleManifest>,
    defaults: Seq<ModuleManifest>,
    states: Seq<ModuleState>,
) -> bool {
    &&& merged.len() == defaults.len()
    &&& forall|i: int|
        0 <= i < merged.len() ==> {
            &&& (#[trigger] merged[i]).id@ == defaults[i].id@
            &&& merged[i].name@ == defaults[i].name@
            &&& merged[i].description@ == defaults[i].description@
            &&& merged[i].icon@ == defaults[i].icon@
            &&& merged[i].is_enabled == match stored_state(states, defaults[i].id@) {
                Some(b) => b,
                None => defaults[i].is_enabled,
            }
        }
}

fn find_state(states: &Vec<ModuleState>, id: &String) -> (r: Option<bool>)
    ensures
        r == stored_state(states@, id@),
{
    let mut k: usize = states.len();
    assert(states@.take(k as int) =~= states@);
    while k > 0
        invariant
            k <= states.len(),
            stored_state(states@, id@) == stored_state(states@.take(k as int), id@),
        decreases k,
    {
        proof {
            assert(states@.take(k as int).last() == states@[k - 1]);
            assert(states@.take(k as int).drop_last() =~= states@.take(k - 1));
        }
        if states[k - 1].module_id == *id {
            return Some(states[k - 1].is_enabled);
        }
        k = k - 1;
    }
    None
}

/// Overrides the state of each of `defaults` with the one that `states` store
/// for it. Where `states` hold several entries for a module, the last counts.
pub fn apply_module_state(defaults: Vec<ModuleManifest>, states: &Vec<ModuleState>) -> (r: Vec<
    ModuleManifest,
>)
    ensures
        overrides(r@, defaults@, states@),
{
    let mut merged: Vec<ModuleManifest> = Vec::new();
    let ghost all = defaults@;
    for m in it: defaults
        invariant
            all == it.seq(),
            merged@.len() == it.index(),
            forall|i: int|
                0 <= i < it.index() ==> {
                    &&& (#[trigger] merged@[i]).id@ == all[i].id@
                    &&& merged@[i].name@ == all[i].name@
                    &&& merged@[i].description@ == all[i].description@
                    &&& merged@[i].icon@ == all[i].icon@
                    &&& merged@[i].is_enabled == match stored_state(states@, all[i].id@) {
                        Some(b) => b,
                        None => all[i].is_enabled,
                    }
                },
    {
        let is_enabled = match find_state(states, &m.id) {
            Some(b) => b,
            None => m.is_enabled,
        };
        merged.push(
            ModuleManifest {
                id: m.id,
                name: m.name,
                description: m.description,
                icon: m.icon,
                is_enabled,
            },
        );
    }
    merged
}

/// The state that the rows `cells` store for the module `id`: that of the last
/// row for it, or none.
pub open spec fn stored_flag(cells: Seq<Seq<Cell>>, id: Seq<char>) -> Option<bool>
    decreases cells.len(),
{
    if cells.len() == 0 {
        None
    } else if cells.last()[0].is_text(id) {
        Some(cells.last()[1]->Integer_0 == 1)
    } else {
        stored_flag(cells.drop_last(), id)
    }
}

/// States that were read from rows store what the rows store.
pub proof fn lemma_stored_state(states: Seq<ModuleState>, cells: Seq<Seq<Cell>>, id: Seq<char>)
    requires
        all_read(states, cells),
    ensures
        stored_state(states, id) == stored_flag(cells, id),
    decreases states.len(),
{
    if states.len() > 0 {
        assert(states.last().reads(cells.last()));
        assert(all_read(states.drop_last(), cells.drop_last())) by {
            assert forall|i: int| 0 <= i < states.drop_last().len() implies (
            #[trigger] states.drop_last()[i]).reads(cells.drop_last()[i]) by {
                assert(states[i].reads(cells[i]));
            }
        }
        lemma_stored_state(states.drop_last(), cells.drop_last(), id);
    }
}

/// Whether `modules` are the modules of `table`, one for one and in order,
/// each with the state that the rows `cells` store for it, or with its
/// default where they store none.
pub open spec fn lists_modules_with(
    modules: Seq<ModuleManifest>,
    table: Seq<ModuleEntry>,
    cells: Seq<Seq<Cell>>,
) -> bool {
    &&& modules.len() == table.len()
    &&& forall|i: int|
        0 <= i < modules.len() ==> (#[trigger] modules[i]).describes(table[i])
            && modules[i].is_enabled == match stored_flag(cells, table[i].id) {
            Some(b) => b,
            None => table[i].is_enabled,
        }
}

/// All modules, each with its stored state, from the answer to
/// `module_state_query`. Rows that cannot be read are skipped; a module
/// without a readable row keeps its default state; of several rows for one
/// module the last counts.
pub fn get_all_modules<E>(fetched: Fetched<E>) -> (r: Result<Vec<ModuleManifest>, E>)
    ensures
        match fetched {
            Ok(rows) => r matches Ok(v) && lists_modules_with(
                v@,
                module_table(),
                readable_rows::<ModuleState, E>(rows@),
            ),
            Err(e) => r == Err::<Vec<ModuleManifest>, E>(e),
        },
{
    let ghost cells = if fetched is Ok {
        readable_rows::<ModuleState, E>(fetched->Ok_0@)
    } else {
        Seq::empty()
    };
    match read_lenient::<ModuleState, E>(fetched) {
        Ok(states) => {
            let defaults = get_hardcoded_modules();
            let merged = apply_module_state(defaults, &states);
            proof {
                let table = module_table();
                assert forall|i: int| 0 <= i < merged@.len() implies (#[trigger] merged@[i]).describes(
                    table[i],
                ) && merged@[i].is_enabled == match stored_flag(cells, table[i].id) {
                    Some(b) => b,
                    None => table[i].is_enabled,
                } by {
                    assert(defaults@[i].describes(table[i]));
                    lemma_stored_state(states@, cells, table[i].id);
                }
            }
            Ok(merged)
        },
        Err(e) => Err(e),
    }
}

/// Whether `s` sets the stored state of the module `id` to `is_enabled`.
pub open spec fn is_state_update(s: Statement, id: Seq<char>, is_enabled: bool) -> bool {
    &&& s.sql@ == UPDATE_MODULE_STATE@
    &&& s.params@.len() == 2
    &&& s.params@[0].is_flag(is_enabled)
    &&& s.params@[1].is_text(id)
}

/// The statement that switches a module on or off.
pub fn toggle_module(module_id: &str, is_enabled: bool) -> (s: Statement)
    ensures
        is_state_update(s, module_id@, is_enabled),
{
    let params = vec![Value::flag(is_enabled), Value::text(module_id)];
    Statement { sql: String::from_str(UPDATE_MODULE_STATE), params }
}

} // verus!

//! The database seen from outside: statements to run, queries to ask, and the
//! rows that come back. Nothing here touches a connection; a caller runs what
//! these values describe and hands the rows to the readers below.

use vstd::prelude::*;
use vstd::string::*;

verus! {

/// An amount as the database stores it in a `REAL` column: the bit pattern of
/// an IEEE 754 double, carried through unread.
#[derive(Clone, Copy, Debug, PartialEq, Eq, Structural)]
pub struct Quantity {
    pub bits: u64,
}

/// Bit pattern of the double 1.0.
pub const QUANTITY_ONE_BITS: u64 = 0x3FF0_0000_0000_0000;

impl Quantity {
    /// The amount 1.
    pub fn one() -> (r: Quantity)
        ensures
            r.bits == QUANTITY_ONE_BITS,
    {
        Quantity { bits: QUANTITY_ONE_BITS }
    }
}

/// A value bound to a parameter of a statement.
#[derive(Debug)]
pub enum Value {
    Null,
    Integer(i64),
    Real(Quantity),
    Text(String),
}

impl Value {
    /// The value is the text `s`.
    pub open spec fn is_text(self, s: Seq<char>) -> bool {
        self matches Value::Text(t) && t@ == s
    }

    /// The value is the text of `s`, or `NULL` where there is none.
    pub open spec fn is_opt_text(self, s: Option<Seq<char>>) -> bool {
        match s {
            Some(t) => self.is_text(t),
            None => self is Null,
        }
    }

    /// The value is `1` for `true` and `0` for `false`.
    pub open spec fn is_flag(self, b: bool) -> bool {
        self == Value::Integer(if b { 1i64 } else { 0i64 })
    }

    /// The value is the integer `i`, or `NULL` where there is none.
    pub open spec fn is_opt_integer(self, i: Option<i64>) -> bool {
        match i {
            Some(n) => self == Value::Integer(n),
            None => self is Null,
        }
    }

    /// The characters of a text value; no characters for any other value.
    pub open spec fn as_text(self) -> Seq<char> {
        match self {
            Value::Text(t) => t@,
            _ => Seq::empty(),
        }
    }

    /// The integer `i` as a value, `NULL` where there is none.
    pub fn opt_integer(i: Option<i64>) -> (r: Value)
        ensures
            r.is_opt_integer(i),
    {
        match i {
            Some(n) => Value::Integer(n),
            None => Value::Null,
        }
    }

    /// The text `s` as a value.
    pub fn text(s: &str) -> (r: Value)
        ensures
            r.is_text(s@),
    {
        Value::Text(String::from_str(s))
    }

    /// The text `s` as a value, `NULL` where there is none.
    pub fn opt_text(s: Option<&str>) -> (r: Value)
        ensures
            r.is_opt_text(opt_str_view(s)),
    {
        match s {
            Some(t) => Value::Text(String::from_str(t)),
            None => Value::Null,
        }
    }

    /// The flag `b` as a value: `1` for `true`, `0` for `false`.
    pub fn flag(b: bool) -> (r: Value)
        ensures
            r.is_flag(b),
    {
        if b {
            Value::Integer(1)
        } else {
            Value::Integer(0)
        }
    }
}

/// A statement that changes the database: its text with numbered
/// parameters, and the value bound to each, in order.
#[derive(Debug)]
pub struct Statement {
    pub sql: String,
    pub params: Vec<Value>,
}

/// A statement that inserts a record, with the identifier that the record
/// gets.
#[derive(Debug)]
pub struct Insertion {
    pub id: String,
    pub statement: Statement,
}

/// How one column of a result row is read.
#[derive(Clone, Copy, Debug, PartialEq, Eq, Structural)]
pub enum ColumnKind {
    /// Text; anything else makes the row unreadable.
    Text,
    /// Text or `NULL`.
    OptText,
    /// Text, or nothing where the column holds `NULL` or cannot be read.
    LenientOptText,
    /// A 64-bit integer.
    Integer,
    /// An integer that fits in 32 bits; a larger one makes the row
    /// unreadable.
    SmallInteger,
    /// A 64-bit integer or `NULL`.
    OptInteger,
    /// A real number or `NULL`.
    OptReal,
}

/// One column to read from each row.
#[derive(Clone, Copy, Debug, PartialEq, Eq, Structural)]
pub struct Column {
    /// Position of the column in the row, from zero.
    pub index: usize,
    pub kind: ColumnKind,
}

/// A query: its text, the values bound to its parameters, and the columns to
/// read from each row, in the order in which they are read. A row is
/// unreadable from the first column that cannot be read as its kind.
#[derive(Debug)]
pub struct Query {
    pub sql: String,
    pub params: Vec<Value>,
    pub columns: Vec<Column>,
}

/// What was read from one column.
#[derive(Debug)]
pub enum Cell {
    Text(String),
    OptText(Option<String>),
    Integer(i64),
    OptInteger(Option<i64>),
    OptReal(Option<Quantity>),
}

impl Cell {
    /// Whether the cell is what reading a column of `kind` gives.
    pub open spec fn fits(self, kind: ColumnKind) -> bool {
        match kind {
            ColumnKind::Text => self is Text,
            ColumnKind::OptText => self is OptText,
            ColumnKind::LenientOptText => self is OptText,
            ColumnKind::Integer => self is Integer,
            ColumnKind::SmallInteger => self.is_small_integer(),
            ColumnKind::OptInteger => self is OptInteger,
            ColumnKind::OptReal => self is OptReal,
        }
    }

    /// The cell holds an integer that fits in 32 bits.
    pub open spec fn is_small_integer(self) -> bool {
        self matches Cell::Integer(i) && i32::MIN <= i <= i32::MAX
    }

    /// The cell holds the text `s`.
    pub open spec fn is_text(self, s: Seq<char>) -> bool {
        self matches Cell::Text(t) && t@ == s
    }

    /// The cell holds the optional text `s`.
    pub open spec fn is_opt_text(self, s: Option<Seq<char>>) -> bool {
        self matches Cell::OptText(o) && opt_view(o) == s
    }

    /// A copy of the text in the cell, if it is a text cell.
    pub fn text(&self) -> (r: Option<String>)
        ensures
            r is Some <==> self is Text,
            r matches Some(s) ==> self.is_text(s@),
    {
        match self {
            Cell::Text(s) => Some(s.clone()),
            _ => None,
        }
    }

    /// A copy of the optional text in the cell, if it is such a cell.
    pub fn opt_text(&self) -> (r: Option<Option<String>>)
        ensures
            r is Some <==> self is OptText,
            r matches Some(o) ==> self.is_opt_text(opt_view(o)),
    {
        match self {
            Cell::OptText(Some(s)) => Some(Some(s.clone())),
            Cell::OptText(None) => Some(None),
            _ => None,
        }
    }

    /// The integer in the cell, if it is an integer cell.
    pub fn integer(&self) -> (r: Option<i64>)
        ensures
            r is Some <==> self is Integer,
            r matches Some(i) ==> *self == Cell::Integer(i),
    {
        match self {
            Cell::Integer(i) => Some(*i),
            _ => None,
        }
    }

    /// The integer in the cell, if it is an integer cell and the integer fits
    /// in 32 bits.
    pub fn small_integer(&self) -> (r: Option<i64>)
        ensures
            r is Some <==> self.is_small_integer(),
            r matches Some(i) ==> *self == Cell::Integer(i),
    {
        match self {
            Cell::Integer(i) => {
                if -0x8000_0000 <= *i && *i <= 0x7fff_ffff {
                    Some(*i)
                } else {
                    None
                }
            },
            _ => None,
        }
    }

    /// The optional integer in the cell, if it is such a cell.
    pub fn opt_integer(&self) -> (r: Option<Option<i64>>)
        ensures
            r is Some <==> self is OptInteger,
            r matches Some(o) ==> *self == Cell::OptInteger(o),
    {
        match self {
            Cell::OptInteger(o) => Some(*o),
            _ => None,
        }
    }

    /// The optional amount in the cell, if it is such a cell.
    pub fn opt_real(&self) -> (r: Option<Option<Quantity>>)
        ensures
            r is Some <==> self is OptReal,
            r matches Some(o) ==> *self == Cell::OptReal(o),
    {
        match self {
            Cell::OptReal(o) => Some(*o),
            _ => None,
        }
    }
}

/// The characters of an optional string.
pub open spec fn opt_view(o: Option<String>) -> Option<Seq<char>> {
    match o {
        Some(s) => Some(s@),
        None => None,
    }
}

/// The characters of an optional string slice.
pub open spec fn opt_str_view(o: Option<&str>) -> Option<Seq<char>> {
    match o {
        Some(s) => Some(s@),
        None => None,
    }
}

/// Whether `cells` hold one cell for each of `columns`, each of its column's
/// kind.
pub open spec fn row_fits(cells: Seq<Cell>, columns: Seq<Column>) -> bool {
    &&& cells.len() == columns.len()
    &&& forall|i: int| 0 <= i < cells.len() ==> (#[trigger] cells[i]).fits(columns[i].kind)
}

/// One row as the database gave it: its cells, or why it could not be read.
pub type Row<E> = Result<Vec<Cell>, E>;

/// The answer to a query: its rows, or why the query could not be run.
pub type Fetched<E> = Result<Vec<Row<E>>, E>;

/// The answer to a query for a single row: the cells of the first row,
/// nothing where the query gave no row, or why the row could not be had.
pub type Lookup<E> = Result<Option<Vec<Cell>>, E>;

/// A record that is read from the cells of a row.
pub trait FromRow: Sized {
    /// Whether `cells` have the shape of this record's rows.
    spec fn well_shaped(cells: Seq<Cell>) -> bool;

    /// Whether the record holds, field by field, what `cells` hold.
    spec fn reads(&self, cells: Seq<Cell>) -> bool;

    /// The record that `cells` spell out, where they have its shape.
    fn from_cells(cells: &Vec<Cell>) -> (r: Option<Self>)
        ensures
            r is Some <==> Self::well_shaped(cells@),
            r matches Some(v) ==> v.reads(cells@),
    ;
}

/// Whether a row came back and has the shape of a `T`.
pub open spec fn readable<T: FromRow, E>(row: Row<E>) -> bool {
    row matches Ok(cells) && T::well_shaped(cells@)
}

/// The cells of the readable rows among `rows`, in their order.
pub open spec fn readable_rows<T: FromRow, E>(rows: Seq<Row<E>>) -> Seq<Seq<Cell>>
    decreases rows.len(),
{
    if rows.len() == 0 {
        Seq::empty()
    } else {
        let rest = readable_rows::<T, E>(rows.drop_last());
        if readable::<T, E>(rows.last()) {
            rest.push(rows.last()->Ok_0@)
        } else {
            rest
        }
    }
}

/// Whether `records` are, one for one and in order, what `cells` spell out.
pub open spec fn all_read<T: FromRow>(records: Seq<T>, cells: Seq<Seq<Cell>>) -> bool {
    &&& records.len() == cells.len()
    &&& forall|i: int| 0 <= i < records.len() ==> (#[trigger] records[i]).reads(cells[i])
}

/// Reads every readable row of `rows` and skips the others.
pub fn read_readable<T: FromRow, E>(rows: &Vec<Row<E>>) -> (r: Vec<T>)
    ensures
        all_read(r@, readable_rows::<T, E>(rows@)),
{
    let mut out: Vec<T> = Vec::new();
    let mut i: usize = 0;
    while i < rows.len()
        invariant
            i <= rows.len(),
            all_read(out@, readable_rows::<T, E>(rows@.take(i as int))),
        decreases rows.len() - i,
    {
        proof {
            assert(rows@.take(i + 1).drop_last() =~= rows@.take(i as int));
            assert(rows@.take(i + 1).last() == rows@[i as int]);
        }
        match &rows[i] {
            Ok(cells) => {
                match T::from_cells(cells) {
                    Some(v) => {
                        out.push(v);
                    },
                    None => {},
                }
            },
            Err(_) => {},
        }
        i = i + 1;
    }
    proof {
        assert(rows@.take(rows.len() as int) =~= rows@);
    }
    out
}

/// Why a list of records could not be read in full.
#[derive(Debug)]
pub enum ReadError<E> {
    /// The database failed on the query or on a row.
    Database(E),
    /// A row came back without the shape that was asked for.
    Shape,
}

/// The position of the first row among `rows` that is not readable as a `T`,
/// or the number of rows where all are.
pub open spec fn first_unreadable<T: FromRow, E>(rows: Seq<Row<E>>) -> int
    decreases rows.len(),
{
    if rows.len() == 0 {
        0
    } else if !readable::<T, E>(rows.first()) {
        0
    } else {
        1 + first_unreadable::<T, E>(rows.drop_first())
    }
}

/// The cells of rows that all came back.
pub open spec fn cells_of<E>(rows: Seq<Row<E>>) -> Seq<Seq<Cell>> {
    Seq::new(rows.len(), |i: int| rows[i]->Ok_0@)
}

/// `first_unreadable` is the least position of an unreadable row.
pub proof fn lemma_first_unreadable<T: FromRow, E>(rows: Seq<Row<E>>)
    ensures
        0 <= first_unreadable::<T, E>(rows) <= rows.len(),
        forall|i: int|
            0 <= i < first_unreadable::<T, E>(rows) ==> readable::<T, E>(#[trigger] rows[i]),
        first_unreadable::<T, E>(rows) < rows.len() ==> !readable::<T, E>(
            rows[first_unreadable::<T, E>(rows)],
        ),
    decreases rows.len(),
{
    if rows.len() != 0 && readable::<T, E>(rows.first()) {
        lemma_first_unreadable::<T, E>(rows.drop_first());
        let k = first_unreadable::<T, E>(rows.drop_first());
        assert forall|i: int| 0 <= i < k + 1 implies readable::<T, E>(#[trigger] rows[i]) by {
            if i > 0 {
                assert(rows[i] == rows.drop_first()[i - 1]);
            }
        }
        if k + 1 < rows.len() {
            assert(rows[k + 1] == rows.drop_first()[k]);
        }
    }
}

/// A position is `first_unreadable` when the rows before it are readable and
/// the row at it, if there is one, is not.
pub proof fn lemma_first_unreadable_is<T: FromRow, E>(rows: Seq<Row<E>>, k: int)
    requires
        0 <= k <= rows.len(),
        forall|i: int| 0 <= i < k ==> readable::<T, E>(#[trigger] rows[i]),
        k < rows.len() ==> !readable::<T, E>(rows[k]),
    ensures
        first_unreadable::<T, E>(rows) == k,
{
    lemma_first_unreadable::<T, E>(rows);
    let f = first_unreadable::<T, E>(rows);
    if f < k {
        assert(readable::<T, E>(rows[f]));
    } else if k < f {
        assert(readable::<T, E>(rows[k]));
    }
}

/// What reading every row of `rows` gives: all the records, or the failure of
/// the first row that is not readable.
pub open spec fn reads_all<T: FromRow, E>(
    r: Result<Vec<T>, ReadError<E>>,
    rows: Seq<Row<E>>,
) -> bool {
    let k = first_unreadable::<T, E>(rows);
    if k == rows.len() {
        r matches Ok(v) && all_read(v@, cells_of(rows))
    } else {
        match rows[k] {
            Ok(_) => r matches Err(ReadError::Shape),
            Err(e) => r == Err::<Vec<T>, ReadError<E>>(ReadError::Database(e)),
        }
    }
}

/// Reads every row, and fails on the first that is not readable: with the
/// database's error where the row did not come back, as a shape error where
/// it came back in another shape.
pub fn read_all<T: FromRow, E>(rows: Vec<Row<E>>) -> (r: Result<Vec<T>, ReadError<E>>)
    ensures
        reads_all(r, rows@),
{
    let mut out: Vec<T> = Vec::new();
    let ghost all = rows@;
    for row in it: rows
        invariant
            all == it.seq(),
            out@.len() == it.index(),
            forall|i: int| 0 <= i < it.index() ==> readable::<T, E>(#[trigger] all[i]),
            forall|i: int|
                0 <= i < it.index() ==> (#[trigger] out@[i]).reads(all[i]->Ok_0@),
    {
        match row {
            Ok(cells) => {
                match T::from_cells(&cells) {
                    Some(v) => {
                        out.push(v);
                    },
                    None => {
                        proof {
                            lemma_first_unreadable_is::<T, E>(all, it.index());
                        }
                        return Err(ReadError::Shape);
                    },
                }
            },
            Err(e) => {
                proof {
                    lemma_first_unreadable_is::<T, E>(all, it.index());
                }
                return Err(ReadError::Database(e));
            },
        }
    }
    proof {
        lemma_first_unreadable_is::<T, E>(all, all.len() as int);
    }
    Ok(out)
}

/// The records of an answer, skipping the rows that are not readable; the
/// database's error where the query could not be run.
pub fn read_lenient<T: FromRow, E>(fetched: Fetched<E>) -> (r: Result<Vec<T>, E>)
    ensures
        match fetched {
            Ok(rows) => r matches Ok(v) && all_read(v@, readable_rows::<T, E>(rows@)),
            Err(e) => r == Err::<Vec<T>, E>(e),
        },
{
    match fetched {
        Ok(rows) => Ok(read_readable(&rows)),
        Err(e) => Err(e),
    }
}

/// The records of an answer, all of them or none: the failure of the query,
/// or that of the first row that is not readable.
pub fn read_strict<T: FromRow, E>(fetched: Fetched<E>) -> (r: Result<Vec<T>, ReadError<E>>)
    ensures
        match fetched {
            Ok(rows) => reads_all(r, rows@),
            Err(e) => r == Err::<Vec<T>, ReadError<E>>(ReadError::Database(e)),
        },
{
    match fetched {
        Ok(rows) => read_all(rows),
        Err(e) => Err(ReadError::Database(e)),
    }
}

/// A column to read.
pub fn column(index: usize, kind: ColumnKind) -> (r: Column)
    ensures
        r == (Column { index, kind }),
{
    Column { index, kind }
}

/// What reading the single row of `lookup` gives: the record, nothing where
/// there was no row, or the failure of the database or of the row's shape.
pub open spec fn reads_one<T: FromRow, E>(
    r: Result<Option<T>, ReadError<E>>,
    lookup: Lookup<E>,
) -> bool {
    match lookup {
        Err(e) => r == Err::<Option<T>, ReadError<E>>(ReadError::Database(e)),
        Ok(None) => r == Ok::<Option<T>, ReadError<E>>(None),
        Ok(Some(cells)) => if T::well_shaped(cells@) {
            r matches Ok(Some(v)) && v.reads(cells@)
        } else {
            r matches Err(ReadError::Shape)
        },
    }
}

/// The record of a single-row answer.
pub fn read_one<T: FromRow, E>(lookup: Lookup<E>) -> (r: Result<Option<T>, ReadError<E>>)
    ensures
        reads_one(r, lookup),
{
    match lookup {
        Err(e) => Err(ReadError::Database(e)),
        Ok(None) => Ok(None),
        Ok(Some(cells)) => match T::from_cells(&cells) {
            Some(v) => Ok(Some(v)),
            None => Err(ReadError::Shape),
        },
    }
}

} // verus!

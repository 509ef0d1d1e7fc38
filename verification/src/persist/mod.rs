//! Between values in memory and a table in a database: what is kept of a value,
//! how a table is described, and the statements that read and write it.
use vstd::prelude::*;

use crate::float_bits::Real;
use crate::registry::Registry;
use crate::text::search;
use crate::text::search::join;

pub mod files;
pub mod laws;
pub mod settings;

verus! {

/// A value in a table.
#[derive(Debug)]
pub enum Value {
    Null,
    Integer(i64),
    Real(Real),
    Text(String),
}

/// A value in a table, with its text as a sequence.
pub enum ValueModel {
    Null,
    Integer(int),
    Real(Real),
    Text(Seq<char>),
}

impl View for Value {
    type V = ValueModel;

    open spec fn view(&self) -> ValueModel {
        match *self {
            Value::Null => ValueModel::Null,
            Value::Integer(n) => ValueModel::Integer(n as int),
            Value::Real(x) => ValueModel::Real(x),
            Value::Text(s) => ValueModel::Text(s@),
        }
    }
}

/// The values of a row.
pub open spec fn row_model(row: Seq<Value>) -> Seq<ValueModel> {
    row.map_values(|v: Value| v@)
}

/// The text of a value; nothing of any other value.
pub open spec fn text_of(v: ValueModel) -> Seq<char> {
    match v {
        ValueModel::Text(s) => s,
        _ => Seq::empty(),
    }
}

/// The number of a value; zero of any other value.
pub open spec fn number_of(v: ValueModel) -> int {
    match v {
        ValueModel::Integer(n) => n,
        _ => 0,
    }
}

impl Value {
    pub fn as_str(&self) -> (r: Option<&str>)
        ensures
            match r {
                Some(s) => self@ == ValueModel::Text(s@),
                None => !(self@ is Text),
            },
    {
        match self {
            Value::Text(s) => Some(s.as_str()),
            _ => None,
        }
    }

    pub fn as_i64(&self) -> (r: Option<i64>)
        ensures
            match r {
                Some(n) => self@ == ValueModel::Integer(n as int),
                None => !(self@ is Integer),
            },
    {
        match self {
            Value::Integer(n) => Some(*n),
            _ => None,
        }
    }

    pub fn as_f64(&self) -> (r: Option<Real>)
        ensures
            match r {
                Some(x) => self@ == ValueModel::Real(x),
                None => !(self@ is Real),
            },
    {
        match self {
            Value::Real(x) => Some(*x),
            _ => None,
        }
    }

    pub fn is_null(&self) -> (r: bool)
        ensures
            r == (self@ is Null),
    {
        match self {
            Value::Null => true,
            _ => false,
        }
    }

    /// The text of a value; nothing of any other value.
    pub fn text_or_empty(&self) -> (r: String)
        ensures
            r@ == text_of(self@),
    {
        match self {
            Value::Text(s) => s.clone(),
            _ => String::new(),
        }
    }
}

impl From<String> for Value {
    fn from(s: String) -> (r: Self) {
        Value::Text(s)
    }
}

impl vstd::std_specs::convert::FromSpecImpl<String> for Value {
    open spec fn obeys_from_spec() -> bool {
        true
    }

    open spec fn from_spec(s: String) -> Self {
        Value::Text(s)
    }
}

impl From<i64> for Value {
    fn from(n: i64) -> (r: Self) {
        Value::Integer(n)
    }
}

impl vstd::std_specs::convert::FromSpecImpl<i64> for Value {
    open spec fn obeys_from_spec() -> bool {
        true
    }

    open spec fn from_spec(n: i64) -> Self {
        Value::Integer(n)
    }
}

impl From<i32> for Value {
    fn from(n: i32) -> (r: Self) {
        Value::Integer(n as i64)
    }
}

impl vstd::std_specs::convert::FromSpecImpl<i32> for Value {
    open spec fn obeys_from_spec() -> bool {
        true
    }

    open spec fn from_spec(n: i32) -> Self {
        Value::Integer(n as i64)
    }
}

impl From<Real> for Value {
    fn from(x: Real) -> (r: Self) {
        Value::Real(x)
    }
}

impl vstd::std_specs::convert::FromSpecImpl<Real> for Value {
    open spec fn obeys_from_spec() -> bool {
        true
    }

    open spec fn from_spec(x: Real) -> Self {
        Value::Real(x)
    }
}

impl From<Option<String>> for Value {
    fn from(opt: Option<String>) -> (r: Self) {
        match opt {
            Some(s) => Value::Text(s),
            None => Value::Null,
        }
    }
}

impl vstd::std_specs::convert::FromSpecImpl<Option<String>> for Value {
    open spec fn obeys_from_spec() -> bool {
        true
    }

    open spec fn from_spec(opt: Option<String>) -> Self {
        match opt {
            Some(s) => Value::Text(s),
            None => Value::Null,
        }
    }
}

/// What a column holds.
#[derive(Debug, Clone, Copy, PartialEq, Eq, Structural)]
pub enum ColumnType {
    /// The number of the row, given by the database.
    Id,
    Text,
    TextOptional,
    Integer,
    Real,
}

/// A column of a table.
#[derive(Debug, Clone, Copy)]
pub struct Column {
    pub name: &'static str,
    pub col_type: ColumnType,
}

impl Column {
    pub fn id(name: &'static str) -> (r: Self)
        ensures
            r == (Column { name, col_type: ColumnType::Id }),
    {
        Column { name, col_type: ColumnType::Id }
    }

    pub fn text(name: &'static str) -> (r: Self)
        ensures
            r == (Column { name, col_type: ColumnType::Text }),
    {
        Column { name, col_type: ColumnType::Text }
    }

    pub fn text_optional(name: &'static str) -> (r: Self)
        ensures
            r == (Column { name, col_type: ColumnType::TextOptional }),
    {
        Column { name, col_type: ColumnType::TextOptional }
    }

    pub fn integer(name: &'static str) -> (r: Self)
        ensures
            r == (Column { name, col_type: ColumnType::Integer }),
    {
        Column { name, col_type: ColumnType::Integer }
    }

    pub fn floating(name: &'static str) -> (r: Self)
        ensures
            r == (Column { name, col_type: ColumnType::Real }),
    {
        Column { name, col_type: ColumnType::Real }
    }
}

/// How a type is kept in a table.
pub trait Persist: Sized {
    /// Rows that a value can be read from.
    spec fn fits(values: Seq<Value>) -> bool;

    /// The name of the table.
    fn collection_name() -> &'static str;

    /// The columns, in order.
    fn schema() -> Vec<Column>;

    /// The number of the row; zero where it has none yet.
    fn id(&self) -> i64;

    /// The values of the row, without its number.
    fn to_row(&self) -> Vec<Value>;

    /// The value that a row holds.
    fn from_row(values: &Vec<Value>) -> Result<Self, String>
        requires
            Self::fits(values@),
    ;
}

/// Where tables are kept.
#[derive(Debug)]
pub enum Backend {
    /// A file of the SQLite library, at a path.
    Sqlite(String),
}

/// What a column is declared as.
pub open spec fn column_def(c: Column) -> Seq<char> {
    match c.col_type {
        ColumnType::Id => c.name@ + " INTEGER PRIMARY KEY AUTOINCREMENT"@,
        ColumnType::Text => c.name@ + " TEXT NOT NULL DEFAULT ''"@,
        ColumnType::TextOptional => c.name@ + " TEXT"@,
        ColumnType::Integer => c.name@ + " INTEGER NOT NULL DEFAULT 0"@,
        ColumnType::Real => c.name@ + " REAL NOT NULL DEFAULT 0.0"@,
    }
}

/// The columns that are written: all but the number of the row.
pub open spec fn written(schema: Seq<Column>) -> Seq<Column>
    decreases schema.len(),
{
    if schema.len() == 0 {
        Seq::empty()
    } else if schema.last().col_type == ColumnType::Id {
        written(schema.drop_last())
    } else {
        written(schema.drop_last()).push(schema.last())
    }
}

pub open spec fn column_names(schema: Seq<Column>) -> Seq<Seq<char>> {
    schema.map_values(|c: Column| c.name@)
}

/// The statement that makes a table.
pub open spec fn create_table_text(table: Seq<char>, schema: Seq<Column>) -> Seq<char> {
    "CREATE TABLE IF NOT EXISTS "@ + table + " ("@ + search::join_text(
        schema.map_values(|c: Column| column_def(c)),
        ", "@,
    ) + ")"@
}

/// The statement that adds a row.
pub open spec fn insert_text(table: Seq<char>, schema: Seq<Column>) -> Seq<char> {
    "INSERT INTO "@ + table + " ("@ + search::join_text(column_names(written(schema)), ", "@)
        + ") VALUES ("@ + search::join_text(written(schema).map_values(|c: Column| "?"@), ", "@)
        + ")"@
}

/// The statement that reads all rows.
pub open spec fn select_all_text(table: Seq<char>, schema: Seq<Column>) -> Seq<char> {
    "SELECT "@ + search::join_text(column_names(schema), ", "@) + " FROM "@ + table
}

/// The statement that reads one row.
pub open spec fn select_row_text(table: Seq<char>, schema: Seq<Column>) -> Seq<char> {
    select_all_text(table, schema) + " WHERE rowid = ?"@
}

/// The statement that overwrites one row.
pub open spec fn update_text(table: Seq<char>, schema: Seq<Column>, id_name: Seq<char>) -> Seq<char> {
    "UPDATE "@ + table + " SET "@ + search::join_text(
        written(schema).map_values(|c: Column| c.name@ + " = ?"@),
        ", "@,
    ) + " WHERE "@ + id_name + " = ?"@
}

fn defined(c: &Column) -> (r: String)
    ensures
        r@ == column_def(*c),
{
    let mut s = c.name.to_string();
    match c.col_type {
        ColumnType::Id => s.push_str(" INTEGER PRIMARY KEY AUTOINCREMENT"),
        ColumnType::Text => s.push_str(" TEXT NOT NULL DEFAULT ''"),
        ColumnType::TextOptional => s.push_str(" TEXT"),
        ColumnType::Integer => s.push_str(" INTEGER NOT NULL DEFAULT 0"),
        ColumnType::Real => s.push_str(" REAL NOT NULL DEFAULT 0.0"),
    }
    s
}

/// The statement that makes a table.
pub fn build_create_table_sql(table: &str, schema: &Vec<Column>) -> (r: String)
    ensures
        r@ == create_table_text(table@, schema@),
{
    let mut defs: Vec<String> = Vec::new();
    let mut i: usize = 0;
    while i < schema.len()
        invariant
            i <= schema@.len(),
            defs@.len() == i,
            forall|k: int| 0 <= k < i ==> (#[trigger] defs@[k])@ == column_def(schema@[k]),
        decreases schema@.len() - i,
    {
        defs.push(defined(&schema[i]));
        i = i + 1;
    }
    assert(search::views(defs@) =~= schema@.map_values(|c: Column| column_def(c)));
    let mut s = "CREATE TABLE IF NOT EXISTS ".to_string();
    s.push_str(table);
    s.push_str(" (");
    s.push_str(join(&defs, ", ").as_str());
    s.push_str(")");
    s
}

/// The columns that are written.
pub fn written_columns(schema: &Vec<Column>) -> (r: Vec<Column>)
    ensures
        r@ == written(schema@),
{
    let mut out: Vec<Column> = Vec::new();
    let mut i: usize = 0;
    while i < schema.len()
        invariant
            i <= schema@.len(),
            out@ == written(schema@.take(i as int)),
        decreases schema@.len() - i,
    {
        assert(schema@.take(i + 1).drop_last() =~= schema@.take(i as int));
        match schema[i].col_type {
            ColumnType::Id => {},
            _ => out.push(schema[i]),
        }
        i = i + 1;
    }
    assert(schema@.take(i as int) =~= schema@);
    out
}

fn names_of(columns: &Vec<Column>, suffix: &str) -> (r: Vec<String>)
    ensures
        search::views(r@) == columns@.map_values(|c: Column| c.name@ + suffix@),
{
    let mut out: Vec<String> = Vec::new();
    let mut i: usize = 0;
    while i < columns.len()
        invariant
            i <= columns@.len(),
            out@.len() == i,
            forall|k: int| 0 <= k < i ==> (#[trigger] out@[k])@ == columns@[k].name@ + suffix@,
        decreases columns@.len() - i,
    {
        let mut s = columns[i].name.to_string();
        s.push_str(suffix);
        out.push(s);
        i = i + 1;
    }
    assert(search::views(out@) =~= columns@.map_values(|c: Column| c.name@ + suffix@));
    out
}

/// The names of the columns, with commas between them.
pub fn column_names_csv(schema: &Vec<Column>) -> (r: String)
    ensures
        r@ == search::join_text(column_names(schema@), ", "@),
{
    let names = names_of(schema, "");
    proof {
        reveal_strlit("");
        assert(search::views(names@) =~= column_names(schema@)) by {
            assert forall|k: int| 0 <= k < schema@.len() implies #[trigger] search::views(names@)[k]
                == column_names(schema@)[k] by {
                assert(schema@[k].name@ + ""@ =~= schema@[k].name@);
            }
        }
    }
    join(&names, ", ")
}

/// The statement that adds a row.
pub fn insert_sql(table: &str, schema: &Vec<Column>) -> (r: String)
    ensures
        r@ == insert_text(table@, schema@),
{
    let columns = written_columns(schema);
    let mut marks: Vec<String> = Vec::new();
    let mut i: usize = 0;
    while i < columns.len()
        invariant
            i <= columns@.len(),
            marks@.len() == i,
            forall|k: int| 0 <= k < i ==> (#[trigger] marks@[k])@ == "?"@,
        decreases columns@.len() - i,
    {
        marks.push("?".to_string());
        i = i + 1;
    }
    assert(search::views(marks@) =~= columns@.map_values(|c: Column| "?"@));
    let mut s = "INSERT INTO ".to_string();
    s.push_str(table);
    s.push_str(" (");
    s.push_str(column_names_csv(&columns).as_str());
    s.push_str(") VALUES (");
    s.push_str(join(&marks, ", ").as_str());
    s.push_str(")");
    s
}

/// The statement that reads all rows.
pub fn select_all_sql(table: &str, schema: &Vec<Column>) -> (r: String)
    ensures
        r@ == select_all_text(table@, schema@),
{
    let mut s = "SELECT ".to_string();
    s.push_str(column_names_csv(schema).as_str());
    s.push_str(" FROM ");
    s.push_str(table);
    s
}

/// The statement that reads one row.
pub fn select_row_sql(table: &str, schema: &Vec<Column>) -> (r: String)
    ensures
        r@ == select_row_text(table@, schema@),
{
    let mut s = select_all_sql(table, schema);
    s.push_str(" WHERE rowid = ?");
    s
}

/// The first column that holds the number of the row, from position `i` on.
pub open spec fn id_column_from(schema: Seq<Column>, i: int) -> Option<int>
    decreases schema.len() - i,
{
    if i < 0 || i >= schema.len() {
        None
    } else if schema[i].col_type == ColumnType::Id {
        Some(i)
    } else {
        id_column_from(schema, i + 1)
    }
}

/// The statement that overwrites one row; nothing where the rows have no number.
pub fn update_sql(table: &str, schema: &Vec<Column>) -> (r: Option<String>)
    ensures
        match r {
            Some(s) => id_column_from(schema@, 0) is Some && s@ == update_text(
                table@,
                schema@,
                schema@[id_column_from(schema@, 0)->0].name@,
            ),
            None => id_column_from(schema@, 0) is None,
        },
{
    let mut i: usize = 0;
    while i < schema.len()
        invariant
            i <= schema@.len(),
            id_column_from(schema@, 0) == id_column_from(schema@, i as int),
        decreases schema@.len() - i,
    {
        if schema[i].col_type == ColumnType::Id {
            let columns = written_columns(schema);
            let sets = names_of(&columns, " = ?");
            let mut s = "UPDATE ".to_string();
            s.push_str(table);
            s.push_str(" SET ");
            s.push_str(join(&sets, ", ").as_str());
            s.push_str(" WHERE ");
            s.push_str(schema[i].name);
            s.push_str(" = ?");
            return Some(s);
        }
        i = i + 1;
    }
    None
}

/// The rows of a table in memory, in the order of the table.
#[derive(Debug)]
pub struct Collection<T: Persist> {
    pub items: Vec<T>,
}

impl<T: Persist> Collection<T> {
    /// A table as it was read.
    pub fn open(rows: Vec<T>) -> (r: Self)
        ensures
            r.items@ == rows@,
    {
        Collection { items: rows }
    }

    /// The values that the rows of a table hold, or what is wrong with the first row
    /// that holds none.
    pub fn load_all(rows: &Vec<Vec<Value>>) -> (r: Result<Vec<T>, String>)
        requires
            forall|i: int| 0 <= i < rows@.len() ==> T::fits((#[trigger] rows@[i])@),
        ensures
            match r {
                Ok(items) => items@.len() == rows@.len() && forall|i: int|
                    0 <= i < rows@.len() ==> call_ensures(
                        T::from_row,
                        (&#[trigger] rows@[i],),
                        Ok(items@[i]),
                    ),
                Err(e) => exists|i: int|
                    0 <= i < rows@.len() && call_ensures(
                        T::from_row,
                        (&#[trigger] rows@[i],),
                        Err(e),
                    ),
            },
    {
        let mut items: Vec<T> = Vec::new();
        let mut i: usize = 0;
        while i < rows.len()
            invariant
                i <= rows@.len(),
                items@.len() == i,
                forall|k: int| 0 <= k < rows@.len() ==> T::fits((#[trigger] rows@[k])@),
                forall|k: int|
                    0 <= k < i ==> call_ensures(
                        T::from_row,
                        (&#[trigger] rows@[k],),
                        Ok(items@[k]),
                    ),
            decreases rows@.len() - i,
        {
            assert(T::fits(rows@[i as int]@));
            match T::from_row(&rows[i]) {
                Ok(item) => {
                    items.push(item);
                },
                Err(e) => {
                    return Err(e);
                },
            }
            i = i + 1;
        }
        Ok(items)
    }

    /// Takes in a row that was added to the table.
    pub fn insert(&mut self, stored: T)
        ensures
            final(self).items@ == old(self).items@.push(stored),
    {
        self.items.push(stored);
    }

    pub fn all(&self) -> (r: &Vec<T>)
        ensures
            r@ == self.items@,
    {
        &self.items
    }

    pub fn count(&self) -> (r: usize)
        ensures
            r == self.items@.len(),
    {
        self.items.len()
    }

    /// Overwrites the rows that a filter picks with what an updater makes of
    /// them. The positions of these rows are returned, in order.
    pub fn update_where<F: Fn(&T) -> bool, U: Fn(&T) -> T>(&mut self, filter: F, updater: U) -> (r: Vec<
        usize,
    >)
        requires
            forall|i: int|
                0 <= i < old(self).items@.len() ==> call_requires(
                    filter,
                    (&#[trigger] old(self).items@[i],),
                ),
            forall|i: int|
                0 <= i < old(self).items@.len() ==> call_requires(
                    updater,
                    (&#[trigger] old(self).items@[i],),
                ),
        ensures
            final(self).items@.len() == old(self).items@.len(),
            forall|i: int|
                0 <= i < old(self).items@.len() ==> {
                    let before = #[trigger] old(self).items@[i];
                    let after = final(self).items@[i];
                    if r@.contains(i as usize) {
                        call_ensures(filter, (&before,), true) && call_ensures(
                            updater,
                            (&before,),
                            after,
                        )
                    } else {
                        call_ensures(filter, (&before,), false) && after == before
                    }
                },
            forall|a: int| 0 <= a < r@.len() ==> (#[trigger] r@[a]) < old(self).items@.len(),
            forall|a: int, b: int| 0 <= a < b < r@.len() ==> #[trigger] r@[a] < #[trigger] r@[b],
    {
        let ghost start = self.items@;
        let n: usize = self.items.len();
        let mut out: Vec<usize> = Vec::new();
        let mut i: usize = 0;
        while i < n
            invariant
                i <= n,
                n == start.len(),
                start == old(self).items@,
                self.items@.len() == n,
                forall|k: int| 0 <= k < n ==> call_requires(filter, (&#[trigger] start[k],)),
                forall|k: int| 0 <= k < n ==> call_requires(updater, (&#[trigger] start[k],)),
                forall|k: int| i <= k < n ==> self.items@[k] == #[trigger] start[k],
                forall|k: int|
                    0 <= k < i ==> {
                        let before = #[trigger] start[k];
                        let after = self.items@[k];
                        if out@.contains(k as usize) {
                            call_ensures(filter, (&before,), true) && call_ensures(
                                updater,
                                (&before,),
                                after,
                            )
                        } else {
                            call_ensures(filter, (&before,), false) && after == before
                        }
                    },
                forall|a: int| 0 <= a < out@.len() ==> (#[trigger] out@[a]) < i,
                forall|a: int, b: int|
                    0 <= a < b < out@.len() ==> #[trigger] out@[a] < #[trigger] out@[b],
            decreases n - i,
        {
            let ghost had = out@;
            assert(self.items@[i as int] == start[i as int]);
            if filter(&self.items[i]) {
                let next = updater(&self.items[i]);
                self.items.set(i, next);
                out.push(i);
                proof {
                    assert forall|k: int| 0 <= k < i implies #[trigger] out@.contains(k as usize)
                        == had.contains(k as usize) by {
                        if had.contains(k as usize) {
                            let a = choose|a: int| 0 <= a < had.len() && had[a] == k as usize;
                            assert(out@[a] == k as usize);
                        }
                        if out@.contains(k as usize) {
                            let a = choose|a: int| 0 <= a < out@.len() && out@[a] == k as usize;
                            assert(had[a] == k as usize);
                        }
                    }
                    assert(out@[had.len() as int] == i);
                    assert(out@.contains(i));
                }
            } else {
                proof {
                    if out@.contains(i) {
                        let a = choose|a: int| 0 <= a < out@.len() && out@[a] == i;
                        assert(out@[a] < i);
                    }
                }
            }
            i = i + 1;
        }
        out
    }

    /// Takes in the table as it was read again.
    pub fn reload(&mut self, rows: Vec<T>)
        ensures
            final(self).items@ == rows@,
    {
        self.items = rows;
    }
}

/// Texts under texts, as a table of two columns keeps them.
#[derive(Debug)]
pub struct KvStore {
    pub cache: Registry<String>,
    pub table_name: &'static str,
}

impl KvStore {
    /// The statement that makes the table.
    pub fn create_sql(table_name: &str) -> (r: String)
        ensures
            r@ == "CREATE TABLE IF NOT EXISTS "@ + table_name@
                + " (key TEXT PRIMARY KEY, value TEXT NOT NULL)"@,
    {
        let mut s = "CREATE TABLE IF NOT EXISTS ".to_string();
        s.push_str(table_name);
        s.push_str(" (key TEXT PRIMARY KEY, value TEXT NOT NULL)");
        s
    }

    /// The statement that reads the table.
    pub fn select_sql(table_name: &str) -> (r: String)
        ensures
            r@ == "SELECT key, value FROM "@ + table_name@,
    {
        let mut s = "SELECT key, value FROM ".to_string();
        s.push_str(table_name);
        s
    }

    /// The statement that puts a value under a key.
    pub fn set_sql(&self) -> (r: String)
        ensures
            r@ == "INSERT OR REPLACE INTO "@ + self.table_name@ + " (key, value) VALUES (?, ?)"@,
    {
        let mut s = "INSERT OR REPLACE INTO ".to_string();
        s.push_str(self.table_name);
        s.push_str(" (key, value) VALUES (?, ?)");
        s
    }

    /// The statement that drops a key.
    pub fn remove_sql(&self) -> (r: String)
        ensures
            r@ == "DELETE FROM "@ + self.table_name@ + " WHERE key = ?"@,
    {
        let mut s = "DELETE FROM ".to_string();
        s.push_str(self.table_name);
        s.push_str(" WHERE key = ?");
        s
    }

    /// A table as it was read: of two rows with the same key the later one counts.
    pub fn open(table_name: &'static str, rows: Vec<(String, String)>) -> (r: Self)
        ensures
            r.cache.wf(),
            r.table_name@ == table_name@,
            r.cache@ == entries_of(rows@),
    {
        let mut cache: Registry<String> = Registry::new();
        let mut i: usize = 0;
        assert(rows@.take(0) =~= Seq::<(String, String)>::empty());
        while i < rows.len()
            invariant
                i <= rows@.len(),
                cache.wf(),
                cache@ == entries_of(rows@.take(i as int)),
            decreases rows@.len() - i,
        {
            assert(rows@.take(i + 1).drop_last() =~= rows@.take(i as int));
            let value = rows[i].1.clone();
            cache.insert(rows[i].0.as_str(), value);
            i = i + 1;
        }
        assert(rows@.take(i as int) =~= rows@);
        KvStore { cache, table_name }
    }

    pub fn get(&self, key: &str) -> (r: Option<&str>)
        requires
            self.cache.wf(),
        ensures
            match r {
                Some(v) => self.cache@.contains_key(key@) && self.cache@[key@]@ == v@,
                None => !self.cache@.contains_key(key@),
            },
    {
        match self.cache.get(key) {
            Some(v) => Some(v.as_str()),
            None => None,
        }
    }

    pub fn set(&mut self, key: &str, value: &str)
        requires
            old(self).cache.wf(),
        ensures
            final(self).cache.wf(),
            final(self).table_name == old(self).table_name,
            final(self).cache@.contains_key(key@),
            final(self).cache@[key@]@ == value@,
            final(self).cache@.remove(key@) == old(self).cache@.remove(key@),
    {
        let owned = value.to_string();
        self.cache.insert(key, owned);
        assert(self.cache@.remove(key@) =~= old(self).cache@.remove(key@));
    }

    pub fn remove(&mut self, key: &str)
        requires
            old(self).cache.wf(),
        ensures
            final(self).cache.wf(),
            final(self).table_name == old(self).table_name,
            final(self).cache@ == old(self).cache@.remove(key@),
    {
        self.cache.remove(key);
    }
}

/// What stands under which key after the rows were taken in, one after the other.
pub open spec fn entries_of(rows: Seq<(String, String)>) -> Map<Seq<char>, String>
    decreases rows.len(),
{
    if rows.len() == 0 {
        Map::empty()
    } else {
        entries_of(rows.drop_last()).insert(rows.last().0@, rows.last().1)
    }
}

} // verus!

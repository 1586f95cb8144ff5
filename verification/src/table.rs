//! A table's schema and the SQL statements that it gives rise to.
use crate::text::{decimal, join_with, joined, lemma_decimal_injective, push_decimal, views};
use vstd::prelude::*;
use vstd::string::*;

verus! {

pub type TableName = &'static str;

pub type ColunmName = &'static str;

pub type ColumnType = &'static str;

/// A column: its name and its SQL type with constraints.
pub type Column = (ColunmName, ColumnType);

pub type Columns = &'static [Column];

/// The schema of a table: its name and its columns, in order. The `id`
/// column is not listed: every table has one.
pub struct Table(pub TableName, pub Columns);

/// An entity type stored in a table of the given schema.
///
/// The schema is handed out by a function rather than held in an associated
/// constant, so that an implementation builds it with the `Table`
/// constructor in an ordinary function body.
pub trait HasTable {
    /// The schema of the entity's table.
    fn table() -> Table;
}

/// The names of the columns, in order.
pub open spec fn column_names(cols: Seq<Column>) -> Seq<Seq<char>> {
    cols.map_values(|c: Column| c.0@)
}

/// The column definitions `name type`, in order.
pub open spec fn column_definitions(cols: Seq<Column>) -> Seq<Seq<char>> {
    cols.map_values(|c: Column| c.0@ + " "@ + c.1@)
}

/// The placeholders `$1`, ..., `$n` of the values of `n` columns.
pub open spec fn placeholders(n: nat) -> Seq<Seq<char>> {
    Seq::new(n, |i: int| "$"@ + decimal((i + 1) as nat))
}

/// An insert binds each column to a placeholder of its own: the placeholders
/// of different columns differ.
pub proof fn lemma_placeholders_distinct(n: nat, j: int, k: int)
    requires
        0 <= j < n,
        0 <= k < n,
        j != k,
    ensures
        placeholders(n)[j] != placeholders(n)[k],
{
    let pj = placeholders(n)[j];
    let pk = placeholders(n)[k];
    if pj == pk {
        reveal_strlit("$");
        assert(decimal((j + 1) as nat) =~= pj.subrange(1, pj.len() as int));
        assert(decimal((k + 1) as nat) =~= pk.subrange(1, pk.len() as int));
        lemma_decimal_injective((j + 1) as nat, (k + 1) as nat);
    }
}

/// `name, name, ...` for the columns.
pub open spec fn comma_separated(cols: Seq<Column>) -> Seq<char> {
    joined(column_names(cols), ", "@)
}

pub open spec fn create_table_sql(table: Seq<char>, cols: Seq<Column>) -> Seq<char> {
    "CREATE TABLE IF NOT EXISTS "@ + table + " ("@ + "id BIGSERIAL PRIMARY KEY"@ + ", "@
        + joined(column_definitions(cols), ", "@) + ")"@
}

pub open spec fn drop_table_sql(table: Seq<char>) -> Seq<char> {
    "DROP TABLE IF EXISTS "@ + table
}

pub open spec fn insert_sql(table: Seq<char>, cols: Seq<Column>) -> Seq<char> {
    "INSERT INTO "@ + table + " ("@ + comma_separated(cols) + ") VALUES ("@
        + joined(placeholders(cols.len()), ", "@) + ") RETURNING id"@
}

pub open spec fn select_sql(table: Seq<char>, cols: Seq<Column>, suffix: Seq<char>) -> Seq<char> {
    "SELECT "@ + comma_separated(cols) + " FROM "@ + table + " "@ + suffix
}

pub open spec fn delete_sql(table: Seq<char>, suffix: Seq<char>) -> Seq<char> {
    "DELETE FROM "@ + table + " "@ + suffix
}

/// The column names are the columns' own names, one per column, in order,
/// and the comma-separated list joins exactly those names with `", "`.
pub proof fn lemma_column_list_names_each_column(cols: Seq<Column>)
    ensures
        column_names(cols).len() == cols.len(),
        forall|i: int| 0 <= i < cols.len() ==> #[trigger] column_names(cols)[i] == cols[i].0@,
        comma_separated(cols) == joined(Seq::new(cols.len(), |i: int| cols[i].0@), ", "@),
{
    assert(column_names(cols) =~= Seq::new(cols.len(), |i: int| cols[i].0@));
}

/// The CREATE TABLE text declares the id column and then, for every column
/// in order, that same column's name, a space and that same column's type,
/// separated by commas.
pub proof fn lemma_create_table_declares_each_column(table: Seq<char>, cols: Seq<Column>)
    ensures
        create_table_sql(table, cols) == "CREATE TABLE IF NOT EXISTS "@ + table + " ("@
            + "id BIGSERIAL PRIMARY KEY"@ + ", "@ + joined(
            Seq::new(cols.len(), |i: int| cols[i].0@ + " "@ + cols[i].1@),
            ", "@,
        ) + ")"@,
{
    assert(column_definitions(cols) =~= Seq::new(
        cols.len(),
        |i: int| cols[i].0@ + " "@ + cols[i].1@,
    ));
}

/// The SELECT text lists exactly the table's own column names, in order,
/// separated by commas, then names the table and ends with the suffix.
pub proof fn lemma_select_lists_the_columns(
    table: Seq<char>,
    cols: Seq<Column>,
    suffix: Seq<char>,
)
    ensures
        select_sql(table, cols, suffix) == "SELECT "@ + joined(
            Seq::new(cols.len(), |i: int| cols[i].0@),
            ", "@,
        ) + " FROM "@ + table + " "@ + suffix,
{
    assert(column_names(cols) =~= Seq::new(cols.len(), |i: int| cols[i].0@));
}

/// The INSERT text names the table, lists its column names in order and
/// gives the i-th column the placeholder `$` followed by the numeral of
/// i + 1.
pub proof fn lemma_insert_numbers_the_columns(table: Seq<char>, cols: Seq<Column>)
    ensures
        insert_sql(table, cols) == "INSERT INTO "@ + table + " ("@ + joined(
            Seq::new(cols.len(), |i: int| cols[i].0@),
            ", "@,
        ) + ") VALUES ("@ + joined(
            Seq::new(cols.len(), |i: int| "$"@ + decimal((i + 1) as nat)),
            ", "@,
        ) + ") RETURNING id"@,
{
    assert(column_names(cols) =~= Seq::new(cols.len(), |i: int| cols[i].0@));
}

/// The DROP TABLE text is the fixed prefix followed by the name of the table
/// it is made for, so different tables give different statements.
pub proof fn lemma_drop_table_names_its_table(t1: Seq<char>, t2: Seq<char>)
    ensures
        drop_table_sql(t1).take("DROP TABLE IF EXISTS "@.len() as int) == "DROP TABLE IF EXISTS "@,
        drop_table_sql(t1).skip("DROP TABLE IF EXISTS "@.len() as int) == t1,
        drop_table_sql(t1) == drop_table_sql(t2) <==> t1 == t2,
{
    let p = "DROP TABLE IF EXISTS "@;
    assert(drop_table_sql(t1).take(p.len() as int) =~= p);
    assert(drop_table_sql(t1).skip(p.len() as int) =~= t1);
    assert(drop_table_sql(t2).skip(p.len() as int) =~= t2);
}

/// The DELETE text is the fixed prefix followed by the name of the table it
/// is made for, a space and the suffix, so with one suffix different tables
/// give different statements.
pub proof fn lemma_delete_names_its_table(t1: Seq<char>, t2: Seq<char>, suffix: Seq<char>)
    ensures
        delete_sql(t1, suffix).take("DELETE FROM "@.len() as int) == "DELETE FROM "@,
        delete_sql(t1, suffix).skip("DELETE FROM "@.len() as int) == t1 + " "@ + suffix,
        delete_sql(t1, suffix) == delete_sql(t2, suffix) <==> t1 == t2,
{
    let p = "DELETE FROM "@;
    let s1 = delete_sql(t1, suffix);
    let s2 = delete_sql(t2, suffix);
    assert(s1.take(p.len() as int) =~= p);
    assert(s1.skip(p.len() as int) =~= t1 + " "@ + suffix);
    assert(s2.skip(p.len() as int) =~= t2 + " "@ + suffix);
    if s1 == s2 {
        let r1 = t1 + " "@ + suffix;
        let r2 = t2 + " "@ + suffix;
        assert(r1 == r2);
        assert(t1.len() == t2.len());
        assert(r1.take(t1.len() as int) =~= t1);
        assert(r2.take(t2.len() as int) =~= t2);
    }
}

impl Table {
    /// The table's name.
    pub fn table(&self) -> (r: TableName)
        ensures
            r == self.0,
    {
        self.0
    }

    /// The table's columns, in order.
    pub fn columns(&self) -> (r: Columns)
        ensures
            r == self.1,
    {
        self.1
    }

    /// The names of the columns, in order: the columns that an insert
    /// binds, one after the other.
    pub fn column_names(&self) -> (r: Vec<String>)
        ensures
            views(r@) == column_names(self.1@),
    {
        let cols = self.columns();
        let mut names: Vec<String> = Vec::new();
        for i in 0..cols.len()
            invariant
                cols@ == self.1@,
                names@.len() == i,
                forall|j: int| 0 <= j < i ==> #[trigger] names@[j]@ == cols@[j].0@,
        {
            names.push(String::from_str(cols[i].0));
        }
        assert(views(names@) =~= column_names(self.1@));
        names
    }

    /// The column names separated by commas: `a, b, c`.
    pub fn comma_seperated_columns(&self) -> (r: String)
        ensures
            r@ == comma_separated(self.1@),
    {
        join_with(&self.column_names(), ", ")
    }

    /// `CREATE TABLE IF NOT EXISTS name (id BIGSERIAL PRIMARY KEY, col type, ...)`.
    pub fn create_table(&self) -> (r: String)
        ensures
            r@ == create_table_sql(self.0@, self.1@),
    {
        let table = self.table();
        let id = "id BIGSERIAL PRIMARY KEY";
        let cols = self.columns();
        let mut defs: Vec<String> = Vec::new();
        for i in 0..cols.len()
            invariant
                cols@ == self.1@,
                defs@.len() == i,
                forall|j: int|
                    0 <= j < i ==> #[trigger] defs@[j]@ == cols@[j].0@ + " "@ + cols@[j].1@,
        {
            let mut def = String::from_str(cols[i].0);
            def.append(" ");
            def.append(cols[i].1);
            defs.push(def);
        }
        assert(views(defs@) =~= column_definitions(self.1@));
        let defs = join_with(&defs, ", ");
        let mut sql = String::from_str("CREATE TABLE IF NOT EXISTS ");
        sql.append(table);
        sql.append(" (");
        sql.append(id);
        sql.append(", ");
        sql.append(defs.as_str());
        sql.append(")");
        sql
    }

    /// `DROP TABLE IF EXISTS name`.
    pub fn drop_table(&self) -> (r: String)
        ensures
            r@ == drop_table_sql(self.0@),
    {
        let table = self.table();
        let mut sql = String::from_str("DROP TABLE IF EXISTS ");
        sql.append(table);
        sql
    }

    /// `INSERT INTO name (a, b) VALUES ($1, $2) RETURNING id`: one numbered
    /// placeholder per column, in the columns' order.
    pub fn insert(&self) -> (r: String)
        ensures
            r@ == insert_sql(self.0@, self.1@),
    {
        let table = self.table();
        let cols = self.comma_seperated_columns();
        let n = self.columns().len();
        let mut values: Vec<String> = Vec::new();
        for i in 0..n
            invariant
                n == self.1@.len(),
                values@.len() == i,
                forall|j: int|
                    0 <= j < i ==> #[trigger] values@[j]@ == "$"@ + decimal((j + 1) as nat),
        {
            let mut value = String::from_str("$");
            push_decimal(&mut value, i + 1);
            values.push(value);
        }
        assert(views(values@) =~= placeholders(n as nat));
        let values = join_with(&values, ", ");
        let mut sql = String::from_str("INSERT INTO ");
        sql.append(table);
        sql.append(" (");
        sql.append(cols.as_str());
        sql.append(") VALUES (");
        sql.append(values.as_str());
        sql.append(") RETURNING id");
        sql
    }

    /// `SELECT a, b FROM name suffix`.
    pub fn select(&self, suffix: &str) -> (r: String)
        ensures
            r@ == select_sql(self.0@, self.1@, suffix@),
    {
        let table = self.table();
        let cols = self.comma_seperated_columns();
        let mut sql = String::from_str("SELECT ");
        sql.append(cols.as_str());
        sql.append(" FROM ");
        sql.append(table);
        sql.append(" ");
        sql.append(suffix);
        sql
    }

    /// `DELETE FROM name suffix`.
    pub fn delete(&self, suffix: &str) -> (r: String)
        ensures
            r@ == delete_sql(self.0@, suffix@),
    {
        let table = self.table();
        let mut sql = String::from_str("DELETE FROM ");
        sql.append(table);
        sql.append(" ");
        sql.append(suffix);
        sql
    }
}

} // verus!

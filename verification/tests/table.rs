use miniorm::{HasTable, Table, TransactionStore};

const POINT: Table = Table("point", &[("x", "INTEGER NOT NULL"), ("y", "INTEGER NOT NULL")]);

#[test]
fn table_and_columns_give_back_the_schema() {
    assert_eq!(POINT.table(), "point");
    assert_eq!(POINT.columns().len(), 2);
    assert_eq!(POINT.columns()[1], ("y", "INTEGER NOT NULL"));
}

#[test]
fn column_names_in_order() {
    assert_eq!(POINT.column_names(), vec![String::from("x"), String::from("y")]);
}

#[test]
fn comma_separated_columns() {
    assert_eq!(POINT.comma_seperated_columns(), "x, y");
    let one = Table("t", &[("a", "TEXT")]);
    assert_eq!(one.comma_seperated_columns(), "a");
    let none = Table("t", &[]);
    assert_eq!(none.comma_seperated_columns(), "");
}

#[test]
fn create_table_declares_the_id_first() {
    assert_eq!(
        POINT.create_table(),
        "CREATE TABLE IF NOT EXISTS point (id BIGSERIAL PRIMARY KEY, x INTEGER NOT NULL, y INTEGER NOT NULL)"
    );
}

#[test]
fn create_table_without_columns() {
    let none = Table("empty", &[]);
    assert_eq!(
        none.create_table(),
        "CREATE TABLE IF NOT EXISTS empty (id BIGSERIAL PRIMARY KEY, )"
    );
}

#[test]
fn drop_table() {
    assert_eq!(POINT.drop_table(), "DROP TABLE IF EXISTS point");
}

#[test]
fn insert_numbers_one_placeholder_per_column() {
    assert_eq!(
        POINT.insert(),
        "INSERT INTO point (x, y) VALUES ($1, $2) RETURNING id"
    );
}

#[test]
fn insert_with_more_than_nine_columns() {
    let wide = Table(
        "w",
        &[
            ("a", "T"),
            ("b", "T"),
            ("c", "T"),
            ("d", "T"),
            ("e", "T"),
            ("f", "T"),
            ("g", "T"),
            ("h", "T"),
            ("i", "T"),
            ("j", "T"),
            ("k", "T"),
        ],
    );
    assert_eq!(
        wide.insert(),
        "INSERT INTO w (a, b, c, d, e, f, g, h, i, j, k) VALUES ($1, $2, $3, $4, $5, $6, $7, $8, $9, $10, $11) RETURNING id"
    );
}

#[test]
fn select_with_suffix() {
    assert_eq!(POINT.select("WHERE id=$1"), "SELECT x, y FROM point WHERE id=$1");
    assert_eq!(POINT.select("ORDER BY id"), "SELECT x, y FROM point ORDER BY id");
    assert_eq!(POINT.select(""), "SELECT x, y FROM point ");
}

#[test]
fn delete_with_suffix() {
    assert_eq!(POINT.delete("WHERE id=$1"), "DELETE FROM point WHERE id=$1");
}

#[test]
fn transaction_store_schema() {
    let table = TransactionStore::table();
    assert_eq!(table.table(), "transaction");
    assert_eq!(table.columns().len(), 9);
    assert_eq!(table.columns()[0], ("date", "DATE NOT NULL"));
    assert_eq!(table.columns()[8], ("exchange_rate", "DECIMAL NOT NULL"));
    assert_eq!(
        table.insert(),
        "INSERT INTO transaction (date, operation, instrument, quantity, unit_price, taxes, fees, currency, exchange_rate) VALUES ($1, $2, $3, $4, $5, $6, $7, $8, $9) RETURNING id"
    );
}

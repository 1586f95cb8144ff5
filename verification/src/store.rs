//! The schema of the stored transactions.
use crate::table::{HasTable, Table};
use vstd::prelude::*;

verus! {

/// The store of transactions: its table holds a transaction's date,
/// operation, instrument, amounts, currency and exchange rate.
pub struct TransactionStore;

impl HasTable for TransactionStore {
    fn table() -> (t: Table)
        ensures
            t.0@ == "transaction"@,
            t.1@ == seq![
                ("date", "DATE NOT NULL"),
                ("operation", "JSONB NOT NULL"),
                ("instrument", "JSONB NOT NULL"),
                ("quantity", "DECIMAL NOT NULL"),
                ("unit_price", "DECIMAL NOT NULL"),
                ("taxes", "DECIMAL NOT NULL"),
                ("fees", "DECIMAL NOT NULL"),
                ("currency", "JSONB NOT NULL"),
                ("exchange_rate", "DECIMAL NOT NULL"),
            ],
    {
        Table(
            "transaction",
            &[
                ("date", "DATE NOT NULL"),
                ("operation", "JSONB NOT NULL"),
                ("instrument", "JSONB NOT NULL"),
                ("quantity", "DECIMAL NOT NULL"),
                ("unit_price", "DECIMAL NOT NULL"),
                ("taxes", "DECIMAL NOT NULL"),
                ("fees", "DECIMAL NOT NULL"),
                ("currency", "JSONB NOT NULL"),
                ("exchange_rate", "DECIMAL NOT NULL"),
            ],
        )
    }
}

} // verus!

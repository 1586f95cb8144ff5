//! A minimal object-relational mapper for PostgreSQL: the SQL text that a
//! table's schema gives rise to, and an entity wrapper that carries the
//! database id next to the entity.
pub mod table;
pub mod store;
pub mod text;
pub mod visitor;
pub mod with_id;

pub use store::TransactionStore;
pub use with_id::WithId;
pub use table::{Column, ColumnType, Columns, ColunmName, HasTable, Table, TableName};

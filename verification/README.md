# miniorm

A minimal object-relational mapper for PostgreSQL.

- `src/` is verified with Verus: the SQL statements that a table schema gives
  rise to (`table.rs`, `text.rs`), the schema of the transaction store
  (`store.rs`), the `WithId` wrapper (`with_id.rs`) and the decisions of
  reading a serialized `WithId` back (`visitor.rs`).
- `app/` is ordinary Rust: the asynchronous CRUD store over an sqlx pool, and
  the sqlx and serde traits for `WithId` through the `Record` newtype.

//! Core of a small inventory manager: building parameterized SQL for a fixed
//! `inventory` table, paging arithmetic, record mapping between rows and typed
//! items, and the dynamic `UPDATE` builder for edits. The surrounding binary
//! handles argument parsing, console I/O, and the database connection; this
//! library holds the logic, with contracts on every public function.

pub mod ids;
pub mod input;
pub mod mutation;
pub mod options;
pub mod paging;
pub mod query;
pub mod records;
pub mod regexp;
pub mod schema;
pub mod text;

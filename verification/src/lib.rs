//! Administrative command-line helper for a TMS server's embedded database.
//!
//! The crate builds SQL statements for a fixed set of (operation, resource)
//! pairs, resolves user-supplied database paths, and plans the external
//! `sqlite3` invocation together with its delete-confirmation gate. All
//! decision logic is verified; process execution and interactive input are
//! left to a thin unverified shell around the library.

pub mod args;
pub mod cmd;
pub mod gate;
pub mod pathres;
pub mod runner;
pub mod sql;

pub use args::TmsOperation;
pub use args::TmsResource;
pub use args::TmsadmArgs;

//! A small SQL execution gateway: a registry of named database connections
//! whose pools are opened on first use, a decoder from driver cells to typed
//! values, and the executor that turns a connection id and a SQL text into
//! the decoded rows and their total count.
//!
//! The library decides; it performs no network or file access itself. Where
//! an execution needs the outside world (a pool opened, a row fetched, a count
//! run) it hands back a [`executor::Request`] and is resumed with the answer.

pub mod column;
pub mod executor;
pub mod laws;
pub mod pool;
pub mod registry;
pub mod text;
pub mod value;

pub use column::{decode_row, get_column_info, ColumnValue, RawCell};
pub use executor::{
    count_query, CountResult, Event, Execution, Phase, QueryResult, Request, Stage, Step, MAX_ROWS,
};
pub use pool::{DBPool, MySqlPoolHandle, PgPoolHandle};
pub use registry::{
    DBConnection, DbError, DbManager, Resolution, MAX_POOL_CONNECTIONS, SAMPLE_ID,
};
pub use value::{classify, DbValue, JsonScalar, ValueKind};

//! The settings of a sink that writes to a Postgres database.

use vstd::prelude::*;
use vstd::string::StringExecFns;

verus! {

/// Where the Postgres sink connects to.
#[derive(Debug)]
pub struct PostgresAdapter {
    pub connection_url: String,
}

impl Default for PostgresAdapter {
    fn default() -> (adapter: PostgresAdapter)
        ensures
            adapter.connection_url@ == Seq::<char>::empty(),
    {
        PostgresAdapter { connection_url: String::new() }
    }
}

impl PostgresAdapter {
    /// A sink with an empty connection URL.
    pub fn new() -> (adapter: PostgresAdapter)
        ensures
            adapter.connection_url@ == Seq::<char>::empty(),
    {
        PostgresAdapter { connection_url: String::new() }
    }

    /// The same sink, connecting to `connection_url`.
    pub fn with_connection_url(self, connection_url: String) -> (adapter: PostgresAdapter)
        ensures
            adapter.connection_url == connection_url,
    {
        let mut adapter = self;
        adapter.connection_url = connection_url;
        adapter
    }

    /// The line that announces a connection attempt.
    pub fn connect_message(&self) -> (message: String)
        ensures
            message@ == "Connecting to Postgres at "@ + self.connection_url@,
    {
        "Connecting to Postgres at ".to_owned().concat(self.connection_url.as_str())
    }
}

} // verus!

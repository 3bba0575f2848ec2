//! Connection parameters for the data-access collaborator.

use vstd::prelude::*;

verus! {

/// Connection parameters of the metadata database.
#[derive(Debug, Clone, PartialEq, Eq)]
pub struct DatabaseConfig {
    /// User the database connection authenticates as.
    pub db_user: String,

    /// Password of that user.
    pub db_passwd: String,

    /// Host the database listens on.
    pub db_url: String,

    /// Port the database listens on.
    pub db_port: String,
}

impl DatabaseConfig {
    /// Gather the four connection parameters. Reading them from the process
    /// environment happens outside the library.
    pub fn new(db_user: String, db_passwd: String, db_url: String, db_port: String) -> (r:
        DatabaseConfig)
        ensures
            r.db_user == db_user,
            r.db_passwd == db_passwd,
            r.db_url == db_url,
            r.db_port == db_port,
    {
        DatabaseConfig { db_user, db_passwd, db_url, db_port }
    }
}

} // verus!

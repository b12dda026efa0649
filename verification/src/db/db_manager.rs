//! How the database is addressed.
use vstd::prelude::*;

verus! {

/// The connection string for the database file at `db_path`.
pub fn database_url(db_path: &str) -> (url: String)
    ensures
        url@ == "sqlite:"@ + db_path@,
{
    let mut url = String::from_str("sqlite:");
    url.append(db_path);
    url
}

} // verus!

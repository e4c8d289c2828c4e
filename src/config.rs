use vstd::prelude::*;

verus! {

/// Port the server listens on unless configured otherwise.
pub fn default_port() -> (r: u16)
    ensures
        r == 8000,
{
    8000
}

/// Database file used unless configured otherwise.
pub fn default_db_path() -> (r: String)
    ensures
        r@ == "prod.db"@,
{
    "prod.db".to_owned()
}

} // verus!
